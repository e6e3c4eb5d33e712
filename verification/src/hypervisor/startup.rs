//! Startup: the images of the configured languages are built one after the
//! other, in the order the configuration names them, and the first entry
//! that cannot be built ends the startup. The sequencer decides; whoever
//! drives it performs each build and reports what came of it.

use crate::hypervisor::languages::Languages;
use crate::hypervisor::requests::{
    build_context, build_context_spec, image_tag, image_tag_spec, ImageBuild,
};
use crate::text::texts;
use vstd::prelude::*;

verus! {

/// Why the startup ended before every image was built.
#[derive(Debug, Clone, PartialEq, Eq)]
pub enum StartupError {
    /// A configured entry is the display name of no language; the text is
    /// the entry.
    Unknown(String),
    /// A build failed; the text is the daemon's diagnostic.
    Build(String),
}

/// A [`StartupError`] with its strings as characters.
pub enum StartupFailure {
    Unknown(Seq<char>),
    Build(Seq<char>),
}

impl View for StartupError {
    type V = StartupFailure;

    open spec fn view(&self) -> StartupFailure {
        match self {
            StartupError::Unknown(entry) => StartupFailure::Unknown(entry@),
            StartupError::Build(detail) => StartupFailure::Build(detail@),
        }
    }
}

/// What came of the build under way.
#[derive(Debug, Clone, PartialEq, Eq)]
pub enum StartupEvent {
    /// The image was built.
    Built,
    /// The build failed; the text is the daemon's diagnostic.
    Failed(String),
}

/// A [`StartupEvent`] with its strings as characters.
pub enum StartupSignal {
    Built,
    Failed(Seq<char>),
}

impl View for StartupEvent {
    type V = StartupSignal;

    open spec fn view(&self) -> StartupSignal {
        match self {
            StartupEvent::Built => StartupSignal::Built,
            StartupEvent::Failed(detail) => StartupSignal::Failed(detail@),
        }
    }
}

/// What the sequencer asks its driver to do next.
#[derive(Debug, Clone, PartialEq, Eq)]
pub enum StartupAction {
    /// Build this image.
    Build(ImageBuild),
    /// The startup is over; collect its result.
    Finish,
}

/// A [`StartupAction`] with its strings as characters.
pub enum StartupStep {
    Build((Seq<char>, Seq<char>)),
    Finish,
}

impl View for StartupAction {
    type V = StartupStep;

    open spec fn view(&self) -> StartupStep {
        match self {
            StartupAction::Build(build) => StartupStep::Build(build@),
            StartupAction::Finish => StartupStep::Finish,
        }
    }
}

/// The startup under way: which entries are to be built from under which
/// directory, and how far it has come.
pub struct Startup {
    cwd: String,
    entries: Vec<String>,
    at: usize,
    failure: Option<StartupError>,
    finished: bool,
}

/// The state of a [`Startup`] as mathematical values.
pub struct StartupState {
    /// The directory that holds the build contexts.
    pub cwd: Seq<char>,
    /// The configured names, in the order configured.
    pub entries: Seq<Seq<char>>,
    /// The position of the entry whose build is under way; every entry
    /// before it was built.
    pub at: nat,
    /// Why the startup failed, once it has.
    pub failure: Option<StartupFailure>,
    /// Whether nothing is left to do.
    pub finished: bool,
}

/// The view of an optional startup failure.
pub open spec fn optional_startup_failure(failure: Option<StartupError>) -> Option<StartupFailure> {
    match failure {
        Some(error) => Some(error@),
        None => None,
    }
}

/// The view of a startup's result.
pub open spec fn startup_result_view(result: Result<(), StartupError>) -> Result<
    (),
    StartupFailure,
> {
    match result {
        Ok(done) => Ok(done),
        Err(error) => Err(error@),
    }
}

/// The image to build for `language` from under `cwd`.
pub open spec fn image_build_spec(cwd: Seq<char>, language: Languages) -> (Seq<char>, Seq<char>) {
    (build_context_spec(cwd, language), image_tag_spec(language))
}

impl View for Startup {
    type V = StartupState;

    closed spec fn view(&self) -> StartupState {
        StartupState {
            cwd: self.cwd@,
            entries: texts(self.entries@),
            at: self.at as nat,
            failure: optional_startup_failure(self.failure),
            finished: self.finished,
        }
    }
}

impl StartupState {
    /// The state and the action on arriving at the entry at `at`: past the
    /// last entry the startup has succeeded; an entry that is the display
    /// name of a language is built; any other entry ends the startup.
    pub open spec fn settle(self) -> (StartupState, StartupStep) {
        if self.at >= self.entries.len() {
            (StartupState { finished: true, ..self }, StartupStep::Finish)
        } else {
            match Languages::named(self.entries[self.at as int]) {
                Some(language) => (self, StartupStep::Build(image_build_spec(self.cwd, language))),
                None => (
                    StartupState {
                        finished: true,
                        failure: Some(StartupFailure::Unknown(self.entries[self.at as int])),
                        ..self
                    },
                    StartupStep::Finish,
                ),
            }
        }
    }

    /// The state a startup begins in and its first action.
    pub open spec fn begin(cwd: Seq<char>, entries: Seq<Seq<char>>) -> (StartupState, StartupStep) {
        (StartupState { cwd, entries, at: 0, failure: None, finished: false }).settle()
    }

    /// The state and the action after `event`. A build that succeeded leads
    /// to the next entry; a build that failed ends the startup.
    pub open spec fn step(self, event: StartupSignal) -> (StartupState, StartupStep) {
        if self.finished {
            (self, StartupStep::Finish)
        } else {
            match event {
                StartupSignal::Built => (StartupState {
                    at: if self.at < self.entries.len() {
                        (self.at + 1) as nat
                    } else {
                        self.at
                    },
                    ..self
                }).settle(),
                StartupSignal::Failed(detail) => (
                    StartupState {
                        finished: true,
                        failure: Some(StartupFailure::Build(detail)),
                        ..self
                    },
                    StartupStep::Finish,
                ),
            }
        }
    }

    /// What the startup comes to.
    pub open spec fn outcome(self) -> Result<(), StartupFailure> {
        match self.failure {
            Some(failure) => Err(failure),
            None => Ok(()),
        }
    }

    /// The state after each of `events` in turn.
    pub open spec fn after(self, events: Seq<StartupSignal>) -> StartupState
        decreases events.len(),
    {
        if events.len() == 0 {
            self
        } else {
            self.after(events.drop_last()).step(events.last()).0
        }
    }

    /// The actions asked for in answer to each of `events` in turn.
    pub open spec fn asked(self, events: Seq<StartupSignal>) -> Seq<StartupStep>
        decreases events.len(),
    {
        if events.len() == 0 {
            Seq::empty()
        } else {
            self.asked(events.drop_last()).push(
                self.after(events.drop_last()).step(events.last()).1,
            )
        }
    }

    /// Whether each of the first `count` entries is the display name of a
    /// language.
    pub open spec fn known_upto(self, count: int) -> bool {
        forall|i: int| 0 <= i < count ==> (#[trigger] Languages::named(self.entries[i])) is Some
    }

    /// The build of the entry at `i`.
    pub open spec fn build_of(self, i: int) -> (Seq<char>, Seq<char>) {
        image_build_spec(self.cwd, Languages::named(self.entries[i])->0)
    }

    /// How many builds the startup has asked for by the time it is in this
    /// state: one for each entry before `at`, and one for the entry at `at`
    /// unless the startup ended on arriving there.
    pub open spec fn builds_asked(self) -> int {
        if !self.finished || self.failure is Some && self.failure->0 is Build {
            self.at as int + 1
        } else {
            self.at as int
        }
    }

    /// What holds of a startup at every moment: every entry before `at` was
    /// the display name of a language, a startup that is not over is
    /// building such an entry, and a startup that is over without a failure
    /// has passed the last entry.
    pub open spec fn sound(self) -> bool {
        &&& self.at <= self.entries.len()
        &&& self.known_upto(self.at as int)
        &&& !self.finished ==> self.failure is None && self.at < self.entries.len()
            && Languages::named(self.entries[self.at as int]) is Some
        &&& self.finished && self.failure is None ==> self.at == self.entries.len()
        &&& self.failure matches Some(StartupFailure::Unknown(entry)) ==> self.at
            < self.entries.len() && entry == self.entries[self.at as int] && Languages::named(
            entry,
        ) is None
        &&& self.failure matches Some(StartupFailure::Build(_)) ==> self.at < self.entries.len()
            && Languages::named(self.entries[self.at as int]) is Some
    }
}

/// The builds among `steps`, in the order asked.
pub open spec fn builds_in(steps: Seq<StartupStep>) -> Seq<(Seq<char>, Seq<char>)>
    decreases steps.len(),
{
    if steps.len() == 0 {
        Seq::empty()
    } else {
        match steps.last() {
            StartupStep::Build(build) => builds_in(steps.drop_last()).push(build),
            StartupStep::Finish => builds_in(steps.drop_last()),
        }
    }
}

/// The image to build for `language` from under `cwd`: its build context is
/// the directory of the language under `cwd`, and the result is stored under
/// the tag of the language.
pub fn image_build(cwd: &str, language: &Languages) -> (res: ImageBuild)
    ensures
        res@ == image_build_spec(cwd@, *language),
{
    ImageBuild { context: build_context(cwd, language), tag: image_tag(language) }
}

/// A copy of a list of strings.
fn copy_texts(items: &Vec<String>) -> (res: Vec<String>)
    ensures
        texts(res@) == texts(items@),
{
    let mut res: Vec<String> = Vec::new();
    let mut i: usize = 0;
    while i < items.len()
        invariant
            i <= items.len(),
            res@.len() == i,
            forall|j: int| 0 <= j < i ==> res@[j]@ == items@[j]@,
        decreases items.len() - i,
    {
        res.push(items[i].clone());
        i += 1;
    }
    assert(texts(res@) =~= texts(items@));
    res
}

impl Startup {
    /// Begins the startup for the configured names `entries`, whose build
    /// contexts lie under `cwd`.
    pub fn begin(cwd: &str, entries: &Vec<String>) -> (res: (Startup, StartupAction))
        ensures
            (res.0@, res.1@) == StartupState::begin(cwd@, texts(entries@)),
    {
        let mut startup = Startup {
            cwd: String::from_str(cwd),
            entries: copy_texts(entries),
            at: 0,
            failure: None,
            finished: false,
        };
        let action = startup.settle();
        (startup, action)
    }

    fn settle(&mut self) -> (action: StartupAction)
        ensures
            (final(self)@, action@) == old(self)@.settle(),
    {
        if self.at >= self.entries.len() {
            self.finished = true;
            return StartupAction::Finish;
        }
        let entry = self.entries[self.at].as_str();
        match Languages::from_name(entry) {
            Some(language) => StartupAction::Build(image_build(self.cwd.as_str(), &language)),
            None => {
                let unknown = String::from_str(entry);
                self.finished = true;
                self.failure = Some(StartupError::Unknown(unknown));
                StartupAction::Finish
            },
        }
    }

    /// Whether nothing is left to do.
    pub fn finished(&self) -> (res: bool)
        ensures
            res == self@.finished,
    {
        self.finished
    }

    /// How many entries have been built.
    pub fn built(&self) -> (res: usize)
        ensures
            res == self@.at,
    {
        self.at
    }

    /// Takes in what came of the build under way and says what to do next:
    /// the build of the next entry, or nothing more, once every entry is
    /// built or one could not be.
    pub fn step(&mut self, event: StartupEvent) -> (action: StartupAction)
        ensures
            (final(self)@, action@) == old(self)@.step(event@),
    {
        if self.finished {
            return StartupAction::Finish;
        }
        match event {
            StartupEvent::Built => {
                if self.at < self.entries.len() {
                    self.at = self.at + 1;
                }
                self.settle()
            },
            StartupEvent::Failed(detail) => {
                self.finished = true;
                self.failure = Some(StartupError::Build(detail));
                StartupAction::Finish
            },
        }
    }

    /// The result of the startup, once it is over.
    pub fn finish(self) -> (res: Option<Result<(), StartupError>>)
        ensures
            !self@.finished ==> res is None,
            self@.finished ==> res is Some && startup_result_view(res->0) == self@.outcome(),
    {
        if !self.finished {
            return None;
        }
        match self.failure {
            Some(error) => Some(Err(error)),
            None => Some(Ok(())),
        }
    }
}

/// A startup is sound from its first moment on, whatever the builds come to.
pub proof fn lemma_startup_sound(cwd: Seq<char>, entries: Seq<Seq<char>>, events: Seq<StartupSignal>)
    ensures
        StartupState::begin(cwd, entries).0.after(events).sound(),
        StartupState::begin(cwd, entries).0.after(events).cwd == cwd,
        StartupState::begin(cwd, entries).0.after(events).entries == entries,
    decreases events.len(),
{
    if events.len() > 0 {
        lemma_startup_sound(cwd, entries, events.drop_last());
    }
}

/// Builds follow the configured order, one per entry. Whatever the builds
/// come to, the builds asked for so far are those of the leading entries, in
/// the order configured, each asked for once and none left out.
pub proof fn law_builds_in_configured_order(
    cwd: Seq<char>,
    entries: Seq<Seq<char>>,
    events: Seq<StartupSignal>,
)
    ensures
        ({
            let start = StartupState::begin(cwd, entries);
            let end = start.0.after(events);
            let steps = seq![start.1] + start.0.asked(events);
            &&& end.sound()
            &&& 0 <= end.builds_asked() <= entries.len()
            &&& builds_in(steps) == Seq::new(end.builds_asked() as nat, |i: int| end.build_of(i))
        }),
    decreases events.len(),
{
    let start = StartupState::begin(cwd, entries);
    let end = start.0.after(events);
    let steps = seq![start.1] + start.0.asked(events);
    lemma_startup_sound(cwd, entries, events);
    if events.len() == 0 {
        assert(steps =~= seq![start.1]);
        assert(steps.drop_last() =~= Seq::<StartupStep>::empty());
        assert(builds_in(steps.drop_last()) =~= Seq::empty());
        assert(builds_in(steps) =~= Seq::new(end.builds_asked() as nat, |i: int| end.build_of(i)));
    } else {
        law_builds_in_configured_order(cwd, entries, events.drop_last());
        lemma_startup_sound(cwd, entries, events.drop_last());
        let before = start.0.after(events.drop_last());
        let earlier = seq![start.1] + start.0.asked(events.drop_last());
        assert(steps.drop_last() =~= earlier);
        assert(builds_in(steps) =~= Seq::new(end.builds_asked() as nat, |i: int| end.build_of(i)));
    }
}

/// The first failure ends the startup. Once a build has failed, the startup
/// is over with that failure, and whatever is reported afterwards, no
/// further build is asked for.
pub proof fn law_startup_fails_fast(state: StartupState, detail: Seq<char>, later: StartupSignal)
    requires
        !state.finished,
    ensures
        state.step(StartupSignal::Failed(detail)).1 == StartupStep::Finish,
        state.step(StartupSignal::Failed(detail)).0.finished,
        state.step(StartupSignal::Failed(detail)).0.outcome() == Err::<(), StartupFailure>(
            StartupFailure::Build(detail),
        ),
        state.step(StartupSignal::Failed(detail)).0.at == state.at,
        state.step(StartupSignal::Failed(detail)).0.step(later) == (
            state.step(StartupSignal::Failed(detail)).0,
            StartupStep::Finish,
        ),
{
}

/// A startup that succeeds has built everything. Where the startup is over
/// without a failure, every configured entry is the display name of a
/// language and the build of each was asked for; and an entry that is the
/// display name of no language ends the startup with that entry as the
/// failure, the entries before it built and none after it.
pub proof fn law_startup_complete(cwd: Seq<char>, entries: Seq<Seq<char>>, events: Seq<StartupSignal>)
    ensures
        ({
            let end = StartupState::begin(cwd, entries).0.after(events);
            &&& end.finished && end.outcome() is Ok ==> end.builds_asked() == entries.len()
                && end.known_upto(entries.len() as int)
            &&& end.outcome() matches Err(StartupFailure::Unknown(entry)) ==> end.finished
                && end.at < entries.len() && entry == entries[end.at as int]
                && Languages::named(entry) is None && end.builds_asked() == end.at
        }),
{
    lemma_startup_sound(cwd, entries, events);
    let start = StartupState::begin(cwd, entries).0;
    if events.len() == 0 {
    } else {
        lemma_startup_sound(cwd, entries, events.drop_last());
    }
}

} // verus!
