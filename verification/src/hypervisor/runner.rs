//! The execution runner: one execution from the creation of its container to
//! its teardown, as a state machine. The runner decides; whoever drives it
//! talks to the container daemon, performs each [`Action`] and reports what
//! came of it as an [`Event`].

use crate::hypervisor::exec_error::{ExecError, Failure};
use crate::hypervisor::languages::Languages;
use crate::hypervisor::requests::{
    container_name, container_name_spec, container_policy, container_spec, law_containers_apart,
    law_scratch_apart, make_root, make_root_spec, make_scratch, make_scratch_spec, open_root,
    open_root_spec, open_scratch, open_scratch_spec, run_script, run_script_spec,
    scratch_dir_spec, Command, ContainerPolicy, ContainerSpec, ExecSpec,
};
use crate::text::optional_text;
use vstd::prelude::*;

verus! {

/// Where a chunk of output came from.
#[derive(Debug, Clone, Copy, PartialEq, Eq, Structural)]
pub enum Source {
    StdOut,
    StdErr,
}

/// One unit of streamed output, tagged with the stream it came from.
#[derive(Debug, Clone, PartialEq, Eq)]
pub struct Chunk {
    pub source: Source,
    pub bytes: Vec<u8>,
}

impl View for Chunk {
    type V = (Source, Seq<u8>);

    open spec fn view(&self) -> (Source, Seq<u8>) {
        (self.source, self.bytes@)
    }
}

/// The views of a sequence of chunks.
pub open spec fn chunks(items: Seq<Chunk>) -> Seq<(Source, Seq<u8>)> {
    Seq::new(items.len(), |i: int| items[i]@)
}

/// The bytes of each chunk, without the tags.
pub fn payloads(output: Vec<Chunk>) -> (res: Vec<Vec<u8>>)
    ensures
        res@.len() == output@.len(),
        forall|i: int| 0 <= i < res@.len() ==> res@[i]@ == output@[i].bytes@,
{
    let mut res: Vec<Vec<u8>> = Vec::new();
    for chunk in it: output
        invariant
            res@.len() == it.index(),
            it.seq() == output@,
            forall|i: int| 0 <= i < res@.len() ==> res@[i]@ == output@[i].bytes@,
    {
        res.push(chunk.bytes);
    }
    res
}

/// What an output stream that ends without a single chunk means.
#[derive(Debug, Clone, Copy, PartialEq, Eq, Structural)]
pub enum EmptyOutput {
    /// The execution succeeded and printed nothing.
    Succeeds,
    /// The execution failed with [`ExecError::Empty`].
    Fails,
}

/// Where an execution stands. Each phase but the last waits for the daemon to
/// answer one request.
#[derive(Debug, Clone, Copy, PartialEq, Eq, Structural)]
pub enum Phase {
    /// The container is being created.
    Creating,
    /// The container is being started.
    Starting,
    /// The root of the scratch directories is being created.
    MakingRoot,
    /// The root of the scratch directories is being opened to the restricted
    /// identity.
    OpeningRoot,
    /// The scratch directory of this execution is being created.
    MakingScratch,
    /// The scratch directory is being opened to the restricted identity.
    OpeningScratch,
    /// The program runs and its output is being read, under the deadline.
    Running,
    /// The container is being killed.
    Killing,
    /// Nothing is left to do.
    Finished,
}

/// What the daemon did with the request the runner is waiting on.
#[derive(Debug, Clone, PartialEq, Eq)]
pub enum Event {
    /// The request was carried out; for a command, its output stream ended.
    Done,
    /// The command's output stream delivered a chunk.
    Output(Chunk),
    /// The daemon rejected the request; the text is its diagnostic.
    Rejected(String),
    /// The connection to the daemon failed; the text is the transport's
    /// diagnostic.
    Broken(String),
    /// The deadline passed.
    Expired,
}

/// An [`Event`] with its strings as characters.
pub enum Signal {
    Done,
    Output((Source, Seq<u8>)),
    Rejected(Seq<char>),
    Broken(Seq<char>),
    Expired,
}

impl View for Event {
    type V = Signal;

    open spec fn view(&self) -> Signal {
        match self {
            Event::Done => Signal::Done,
            Event::Output(chunk) => Signal::Output(chunk@),
            Event::Rejected(detail) => Signal::Rejected(detail@),
            Event::Broken(detail) => Signal::Broken(detail@),
            Event::Expired => Signal::Expired,
        }
    }
}

/// What the runner asks its driver to do next.
#[derive(Debug, Clone, PartialEq, Eq)]
pub enum Action {
    /// Create the container.
    Create(ContainerSpec),
    /// Start the named container.
    Start(String),
    /// Run a set-up command in the named container and read its output to
    /// the end.
    Exec(String, ExecSpec),
    /// Run the program in the named container and read its output, giving up
    /// after the given number of seconds.
    Run(String, ExecSpec, u64),
    /// Nothing new: go on waiting for the request under way.
    Await,
    /// Kill the named container.
    Kill(String),
    /// The execution is over; collect its result.
    Finish,
}

/// An [`Action`] with its strings as characters.
pub enum Step {
    Create(ContainerPolicy),
    Start(Seq<char>),
    Exec(Seq<char>, Command),
    Run(Seq<char>, Command, u64),
    Await,
    Kill(Seq<char>),
    Finish,
}

impl View for Action {
    type V = Step;

    open spec fn view(&self) -> Step {
        match self {
            Action::Create(spec) => Step::Create(spec@),
            Action::Start(name) => Step::Start(name@),
            Action::Exec(name, command) => Step::Exec(name@, command@),
            Action::Run(name, command, secs) => Step::Run(name@, command@, *secs),
            Action::Await => Step::Await,
            Action::Kill(name) => Step::Kill(name@),
            Action::Finish => Step::Finish,
        }
    }
}

/// One execution: which program in which language, under which identifier,
/// how far it has come and what it has gathered.
pub struct Runner {
    phase: Phase,
    language: Languages,
    id: u32,
    code: String,
    deadline_secs: u64,
    empty_output: EmptyOutput,
    output: Vec<Chunk>,
    failure: Option<ExecError>,
}

/// The state of a [`Runner`] as mathematical values.
pub struct RunState {
    pub phase: Phase,
    pub language: Languages,
    pub id: u32,
    pub code: Seq<char>,
    pub deadline_secs: u64,
    pub empty_output: EmptyOutput,
    /// The chunks the program has printed so far, in order of arrival.
    pub output: Seq<(Source, Seq<u8>)>,
    /// Why the execution failed, once it has.
    pub failure: Option<Failure>,
}

/// The view of an optional failure.
pub open spec fn optional_failure(failure: Option<ExecError>) -> Option<Failure> {
    match failure {
        Some(error) => Some(error@),
        None => None,
    }
}

/// The view of an execution's result.
pub open spec fn result_view(result: Result<Vec<Chunk>, ExecError>) -> Result<
    Seq<(Source, Seq<u8>)>,
    Failure,
> {
    match result {
        Ok(output) => Ok(chunks(output@)),
        Err(error) => Err(error@),
    }
}

impl View for Runner {
    type V = RunState;

    closed spec fn view(&self) -> RunState {
        RunState {
            phase: self.phase,
            language: self.language,
            id: self.id,
            code: self.code@,
            deadline_secs: self.deadline_secs,
            empty_output: self.empty_output,
            output: chunks(self.output@),
            failure: optional_failure(self.failure),
        }
    }
}

impl RunState {
    /// The state an execution begins in: its container is being created,
    /// nothing has been printed and nothing has failed.
    pub open spec fn begin(
        language: Languages,
        code: Seq<char>,
        id: u32,
        deadline_secs: u64,
        empty_output: EmptyOutput,
    ) -> RunState {
        RunState {
            phase: Phase::Creating,
            language,
            id,
            code,
            deadline_secs,
            empty_output,
            output: Seq::empty(),
            failure: None,
        }
    }

    /// The name of the execution's container.
    pub open spec fn container(self) -> Seq<char> {
        container_name_spec(self.language, self.id)
    }

    /// Whether the execution's container exists as far as the runner knows:
    /// it was created and no kill has been issued yet.
    pub open spec fn holds_container(self) -> bool {
        self.phase != Phase::Creating && self.phase != Phase::Killing && self.phase
            != Phase::Finished
    }

    /// The state and the action once the request of the current phase was
    /// carried out.
    pub open spec fn advance(self) -> (RunState, Step) {
        match self.phase {
            Phase::Creating => (
                RunState { phase: Phase::Starting, ..self },
                Step::Start(self.container()),
            ),
            Phase::Starting => (
                RunState { phase: Phase::MakingRoot, ..self },
                Step::Exec(self.container(), make_root_spec()),
            ),
            Phase::MakingRoot => (
                RunState { phase: Phase::OpeningRoot, ..self },
                Step::Exec(self.container(), open_root_spec()),
            ),
            Phase::OpeningRoot => (
                RunState { phase: Phase::MakingScratch, ..self },
                Step::Exec(self.container(), make_scratch_spec(self.id)),
            ),
            Phase::MakingScratch => (
                RunState { phase: Phase::OpeningScratch, ..self },
                Step::Exec(self.container(), open_scratch_spec(self.id)),
            ),
            Phase::OpeningScratch => (
                RunState { phase: Phase::Running, ..self },
                Step::Run(self.container(), run_script_spec(self.code, self.id), self.deadline_secs),
            ),
            Phase::Running => (
                RunState { phase: Phase::Killing, ..self },
                Step::Kill(self.container()),
            ),
            Phase::Killing => (RunState { phase: Phase::Finished, ..self }, Step::Finish),
            Phase::Finished => (self, Step::Finish),
        }
    }

    /// The state and the action once the request of the current phase has
    /// failed with `failure`. Where a container exists it is killed first;
    /// a kill that fails is not held against the execution.
    pub open spec fn fail(self, failure: Failure) -> (RunState, Step) {
        match self.phase {
            Phase::Creating => (
                RunState { phase: Phase::Finished, failure: Some(failure), ..self },
                Step::Finish,
            ),
            Phase::Killing => (RunState { phase: Phase::Finished, ..self }, Step::Finish),
            Phase::Finished => (self, Step::Finish),
            _ => (
                RunState { phase: Phase::Killing, failure: Some(failure), ..self },
                Step::Kill(self.container()),
            ),
        }
    }

    /// The state and the action after `event`.
    pub open spec fn step(self, event: Signal) -> (RunState, Step) {
        match event {
            Signal::Done => self.advance(),
            Signal::Output(chunk) => if self.phase == Phase::Finished {
                (self, Step::Finish)
            } else if self.phase == Phase::Running {
                (RunState { output: self.output.push(chunk), ..self }, Step::Await)
            } else {
                (self, Step::Await)
            },
            Signal::Rejected(detail) => self.fail(Failure::Docker(detail)),
            Signal::Broken(detail) => self.fail(Failure::DockerConnection(detail)),
            Signal::Expired => self.fail(Failure::Timeout),
        }
    }

    /// What the execution comes to: the failure if there was one, else the
    /// chunks in order of arrival; an execution that printed no chunk at all
    /// fails or succeeds as `empty_output` says.
    pub open spec fn outcome(self) -> Result<Seq<(Source, Seq<u8>)>, Failure> {
        match self.failure {
            Some(failure) => Err(failure),
            None => if self.output.len() == 0 && self.empty_output == EmptyOutput::Fails {
                Err(Failure::Empty)
            } else {
                Ok(self.output)
            },
        }
    }

    /// The state after each of `events` in turn.
    pub open spec fn after(self, events: Seq<Signal>) -> RunState
        decreases events.len(),
    {
        if events.len() == 0 {
            self
        } else {
            self.after(events.drop_last()).step(events.last()).0
        }
    }

    /// The actions asked for in answer to each of `events` in turn.
    pub open spec fn asked(self, events: Seq<Signal>) -> Seq<Step>
        decreases events.len(),
    {
        if events.len() == 0 {
            Seq::empty()
        } else {
            self.asked(events.drop_last()).push(
                self.after(events.drop_last()).step(events.last()).1,
            )
        }
    }
}

/// The views of a sequence of events.
pub open spec fn signals(items: Seq<Event>) -> Seq<Signal> {
    Seq::new(items.len(), |i: int| items[i]@)
}

/// The views of a sequence of actions.
pub open spec fn steps(items: Seq<Action>) -> Seq<Step> {
    Seq::new(items.len(), |i: int| items[i]@)
}

/// How many of `steps` start a container.
pub open spec fn starts(steps: Seq<Step>) -> nat
    decreases steps.len(),
{
    if steps.len() == 0 {
        0
    } else {
        starts(steps.drop_last()) + if steps.last() is Start {
            1nat
        } else {
            0nat
        }
    }
}

/// How many of `steps` kill a container.
pub open spec fn kills(steps: Seq<Step>) -> nat
    decreases steps.len(),
{
    if steps.len() == 0 {
        0
    } else {
        kills(steps.drop_last()) + if steps.last() is Kill {
            1nat
        } else {
            0nat
        }
    }
}

impl Runner {
    /// Begins the execution of `code` in `language` under the identifier
    /// `id`. The first request is the creation of the container, under the
    /// isolation policy and with `runtime` as its hardened runtime.
    pub fn begin(
        language: &Languages,
        code: &str,
        id: u32,
        runtime: Option<String>,
        deadline_secs: u64,
        empty_output: EmptyOutput,
    ) -> (res: (Runner, Action))
        ensures
            res.0@ == RunState::begin(*language, code@, id, deadline_secs, empty_output),
            res.1@ == Step::Create(container_policy(*language, id, optional_text(runtime))),
    {
        let runner = Runner {
            phase: Phase::Creating,
            language: *language,
            id,
            code: String::from_str(code),
            deadline_secs,
            empty_output,
            output: Vec::new(),
            failure: None,
        };
        assert(chunks(runner.output@) =~= Seq::empty());
        (runner, Action::Create(container_spec(language, id, runtime)))
    }

    /// Where the execution stands.
    pub fn phase(&self) -> (res: Phase)
        ensures
            res == self@.phase,
    {
        self.phase
    }

    /// The identifier of the execution.
    pub fn id(&self) -> (res: u32)
        ensures
            res == self@.id,
    {
        self.id
    }

    /// The language of the execution.
    pub fn language(&self) -> (res: Languages)
        ensures
            res == self@.language,
    {
        self.language
    }

    /// Whether nothing is left to do.
    pub fn finished(&self) -> (res: bool)
        ensures
            res == (self@.phase == Phase::Finished),
    {
        match self.phase {
            Phase::Finished => true,
            _ => false,
        }
    }

    fn fail(&mut self, error: ExecError) -> (action: Action)
        ensures
            (final(self)@, action@) == old(self)@.fail(error@),
    {
        match self.phase {
            Phase::Creating => {
                self.phase = Phase::Finished;
                self.failure = Some(error);
                Action::Finish
            },
            Phase::Killing => {
                self.phase = Phase::Finished;
                Action::Finish
            },
            Phase::Finished => Action::Finish,
            _ => {
                self.phase = Phase::Killing;
                self.failure = Some(error);
                Action::Kill(container_name(&self.language, self.id))
            },
        }
    }

    fn advance(&mut self) -> (action: Action)
        ensures
            (final(self)@, action@) == old(self)@.advance(),
    {
        let name = container_name(&self.language, self.id);
        match self.phase {
            Phase::Creating => {
                self.phase = Phase::Starting;
                Action::Start(name)
            },
            Phase::Starting => {
                self.phase = Phase::MakingRoot;
                Action::Exec(name, make_root())
            },
            Phase::MakingRoot => {
                self.phase = Phase::OpeningRoot;
                Action::Exec(name, open_root())
            },
            Phase::OpeningRoot => {
                self.phase = Phase::MakingScratch;
                Action::Exec(name, make_scratch(self.id))
            },
            Phase::MakingScratch => {
                self.phase = Phase::OpeningScratch;
                Action::Exec(name, open_scratch(self.id))
            },
            Phase::OpeningScratch => {
                self.phase = Phase::Running;
                Action::Run(name, run_script(self.code.as_str(), self.id), self.deadline_secs)
            },
            Phase::Running => {
                self.phase = Phase::Killing;
                Action::Kill(name)
            },
            Phase::Killing => {
                self.phase = Phase::Finished;
                Action::Finish
            },
            Phase::Finished => Action::Finish,
        }
    }

    /// Takes in what came of the request under way and says what to do next.
    ///
    /// A request that succeeds leads to the next one. A chunk is kept while
    /// the program runs and dropped while the container is being set up. A
    /// rejected request, a broken connection and a passed deadline end the
    /// execution with [`ExecError::Docker`], [`ExecError::DockerConnection`]
    /// and [`ExecError::Timeout`]; if the container exists by then, it is
    /// killed before the execution finishes. The kill's own outcome changes
    /// nothing.
    pub fn step(&mut self, event: Event) -> (action: Action)
        ensures
            (final(self)@, action@) == old(self)@.step(event@),
    {
        match event {
            Event::Done => self.advance(),
            Event::Output(chunk) => {
                match self.phase {
                    Phase::Finished => Action::Finish,
                    Phase::Running => {
                        self.output.push(chunk);
                        assert(chunks(self.output@) =~= chunks(old(self).output@).push(chunk@));
                        Action::Await
                    },
                    _ => Action::Await,
                }
            },
            Event::Rejected(detail) => self.fail(ExecError::Docker(detail)),
            Event::Broken(detail) => self.fail(ExecError::DockerConnection(detail)),
            Event::Expired => self.fail(ExecError::Timeout),
        }
    }

    /// Takes in a run of events, one after the other, and says what was
    /// asked for in answer to each.
    pub fn feed(&mut self, events: Vec<Event>) -> (actions: Vec<Action>)
        ensures
            final(self)@ == old(self)@.after(signals(events@)),
            steps(actions@) == old(self)@.asked(signals(events@)),
    {
        let mut actions: Vec<Action> = Vec::new();
        let ghost start = self@;
        let ghost all = signals(events@);
        assert(all.take(0) =~= Seq::<Signal>::empty());
        for event in it: events
            invariant
                it.seq() == events@,
                all == signals(events@),
                self@ == start.after(all.take(it.index() as int)),
                steps(actions@) == start.asked(all.take(it.index() as int)),
        {
            let ghost before = steps(actions@);
            let ghost seen = all.take(it.index() as int);
            let ghost now = all.take(it.index() + 1);
            assert(now.drop_last() =~= seen);
            assert(now.last() == event@);
            let action = self.step(event);
            actions.push(action);
            assert(steps(actions@) =~= before.push(action@));
        }
        assert(all.take(events@.len() as int) =~= all);
        actions
    }

    /// The result of the execution, once it has finished: the failure if
    /// there was one, else the chunks in order of arrival.
    pub fn finish(self) -> (res: Option<Result<Vec<Chunk>, ExecError>>)
        ensures
            self@.phase != Phase::Finished ==> res is None,
            self@.phase == Phase::Finished ==> res is Some && result_view(res->0)
                == self@.outcome(),
    {
        match self.phase {
            Phase::Finished => {},
            _ => {
                return None;
            },
        }
        match self.failure {
            Some(error) => Some(Err(error)),
            None => {
                if self.output.len() == 0 {
                    match self.empty_output {
                        EmptyOutput::Fails => {
                            return Some(Err(ExecError::Empty));
                        },
                        EmptyOutput::Succeeds => {},
                    }
                }
                Some(Ok(self.output))
            },
        }
    }
}

/// What holds of an execution after any events at all: its container is
/// started at most once and killed at most once, never killed before it was
/// started, and, while the runner holds it, not killed yet.
pub open spec fn torn_down_once(end: RunState, steps: Seq<Step>) -> bool {
    &&& kills(steps) <= starts(steps) <= 1
    &&& end.phase == Phase::Creating ==> starts(steps) == 0
    &&& end.holds_container() ==> starts(steps) == 1 && kills(steps) == 0
    &&& end.phase == Phase::Killing ==> kills(steps) == 1
    &&& end.phase == Phase::Finished ==> kills(steps) == starts(steps)
}

/// Teardown on every path. Whatever the daemon answers and in whatever order,
/// an execution that has finished has killed its container exactly once if
/// the container was ever created, and never otherwise; and every start and
/// every kill names the container of this execution.
pub proof fn law_teardown(start: RunState, events: Seq<Signal>)
    requires
        start.phase == Phase::Creating,
    ensures
        torn_down_once(start.after(events), start.asked(events)),
        start.after(events).language == start.language,
        start.after(events).id == start.id,
        start.after(events).code == start.code,
        start.asked(events).len() == events.len(),
        forall|i: int|
            0 <= i < events.len() ==> (#[trigger] start.asked(events)[i] matches Step::Kill(name)
                ==> name == start.container()),
        forall|i: int|
            0 <= i < events.len() ==> (#[trigger] start.asked(events)[i] matches Step::Start(name)
                ==> name == start.container()),
    decreases events.len(),
{
    if events.len() > 0 {
        law_teardown(start, events.drop_last());
        let before = start.asked(events.drop_last());
        let now = start.asked(events);
        assert(now.drop_last() =~= before);
        assert forall|i: int| 0 <= i < events.len() implies (#[trigger] now[i] matches Step::Kill(
            name,
        ) ==> name == start.container()) by {
            if i < events.len() - 1 {
                assert(now[i] == before[i]);
            }
        }
        assert forall|i: int| 0 <= i < events.len() implies (#[trigger] now[i] matches Step::Start(
            name,
        ) ==> name == start.container()) by {
            if i < events.len() - 1 {
                assert(now[i] == before[i]);
            }
        }
    }
}

/// Output keeps its order. While the program runs, the chunks that arrive
/// are appended one by one, each with its tag and its bytes, and nothing else
/// about the execution changes.
pub proof fn law_output_in_order(run: RunState, arrived: Seq<(Source, Seq<u8>)>)
    requires
        run.phase == Phase::Running,
    ensures
        run.after(arrived.map_values(|chunk: (Source, Seq<u8>)| Signal::Output(chunk)))
            == (RunState { output: run.output + arrived, ..run }),
    decreases arrived.len(),
{
    let events = arrived.map_values(|chunk: (Source, Seq<u8>)| Signal::Output(chunk));
    if arrived.len() == 0 {
        assert(run.output + arrived =~= run.output);
    } else {
        law_output_in_order(run, arrived.drop_last());
        assert(events.drop_last() =~= arrived.drop_last().map_values(
            |chunk: (Source, Seq<u8>)| Signal::Output(chunk),
        ));
        assert(events.last() == Signal::Output(arrived.last()));
        assert((run.output + arrived.drop_last()).push(arrived.last()) =~= run.output + arrived);
    }
}

/// The events of an execution in which every request succeeds and the
/// program prints `arrived`: six requests carried out, the chunks, the end of
/// the stream, and the answer to the kill.
pub open spec fn smooth_run(arrived: Seq<(Source, Seq<u8>)>, kill_reply: Signal) -> Seq<Signal> {
    seq![Signal::Done, Signal::Done, Signal::Done, Signal::Done, Signal::Done, Signal::Done]
        + arrived.map_values(|chunk: (Source, Seq<u8>)| Signal::Output(chunk)) + seq![
        Signal::Done,
        kill_reply,
    ]
}

/// A program that prints and exits gets its output back verbatim: the result
/// holds exactly the chunks that arrived, in order of arrival, each under the
/// tag it came with. Only a program that printed no chunk can fail, and only
/// where an empty stream counts as a failure.
pub proof fn law_output_verbatim(
    start: RunState,
    arrived: Seq<(Source, Seq<u8>)>,
    kill_reply: Signal,
)
    requires
        start.phase == Phase::Creating,
        start.output.len() == 0,
        start.failure is None,
        !(kill_reply is Output),
    ensures
        start.after(smooth_run(arrived, kill_reply)).phase == Phase::Finished,
        start.after(smooth_run(arrived, kill_reply)).outcome() == if arrived.len() == 0
            && start.empty_output == EmptyOutput::Fails {
            Err::<Seq<(Source, Seq<u8>)>, Failure>(Failure::Empty)
        } else {
            Ok(arrived)
        },
{
    let setup = seq![
        Signal::Done,
        Signal::Done,
        Signal::Done,
        Signal::Done,
        Signal::Done,
        Signal::Done,
    ];
    let output = arrived.map_values(|chunk: (Source, Seq<u8>)| Signal::Output(chunk));
    let running = RunState { phase: Phase::Running, ..start };
    lemma_after_each(start, setup.take(0), Signal::Done);
    lemma_after_each(start, setup.take(1), Signal::Done);
    lemma_after_each(start, setup.take(2), Signal::Done);
    lemma_after_each(start, setup.take(3), Signal::Done);
    lemma_after_each(start, setup.take(4), Signal::Done);
    lemma_after_each(start, setup.take(5), Signal::Done);
    assert(setup.take(0).push(Signal::Done) =~= setup.take(1));
    assert(setup.take(1).push(Signal::Done) =~= setup.take(2));
    assert(setup.take(2).push(Signal::Done) =~= setup.take(3));
    assert(setup.take(3).push(Signal::Done) =~= setup.take(4));
    assert(setup.take(4).push(Signal::Done) =~= setup.take(5));
    assert(setup.take(5).push(Signal::Done) =~= setup);
    assert(start.after(setup.take(0)) == start);
    assert(start.after(setup) == running);
    lemma_after_then(start, setup, output);
    law_output_in_order(running, arrived);
    assert(start.output + arrived =~= arrived);
    let printed = RunState { output: arrived, ..running };
    assert(start.after(setup + output) == printed);
    lemma_after_each(start, setup + output, Signal::Done);
    lemma_after_each(start, (setup + output).push(Signal::Done), kill_reply);
    assert((setup + output).push(Signal::Done).push(kill_reply) =~= smooth_run(
        arrived,
        kill_reply,
    ));
}

/// One more event after `events`.
pub proof fn lemma_after_each(start: RunState, events: Seq<Signal>, event: Signal)
    ensures
        start.after(events.push(event)) == start.after(events).step(event).0,
{
    assert(events.push(event).drop_last() =~= events);
}

/// Events in two runs are events in one.
pub proof fn lemma_after_then(start: RunState, first: Seq<Signal>, second: Seq<Signal>)
    ensures
        start.after(first + second) == start.after(first).after(second),
    decreases second.len(),
{
    if second.len() == 0 {
        assert(first + second =~= first);
    } else {
        lemma_after_then(start, first, second.drop_last());
        assert((first + second).drop_last() =~= first + second.drop_last());
    }
}

/// A program that outlives the deadline. The runner asks for the kill of its
/// container at once, and whatever the kill comes to, the execution finishes
/// with [`Failure::Timeout`].
pub proof fn law_timeout(run: RunState, kill_reply: Signal)
    requires
        run.phase == Phase::Running,
        !(kill_reply is Output),
    ensures
        run.step(Signal::Expired).1 == Step::Kill(run.container()),
        run.step(Signal::Expired).0.phase == Phase::Killing,
        run.step(Signal::Expired).0.step(kill_reply).1 == Step::Finish,
        run.step(Signal::Expired).0.step(kill_reply).0.phase == Phase::Finished,
        run.step(Signal::Expired).0.step(kill_reply).0.outcome() == Err::<
            Seq<(Source, Seq<u8>)>,
            Failure,
        >(Failure::Timeout),
{
}

/// A kill may fail. Whether the daemon carries the kill out, rejects it
/// because the container is gone, or never answers, the execution finishes
/// with the outcome it had before.
pub proof fn law_kill_tolerated(run: RunState, kill_reply: Signal)
    requires
        run.phase == Phase::Killing,
        !(kill_reply is Output),
    ensures
        run.step(kill_reply) == (RunState { phase: Phase::Finished, ..run }, Step::Finish),
        run.step(kill_reply).0.outcome() == run.outcome(),
{
}

/// A finished execution stays finished: no event changes it, and no event
/// makes it ask for anything but the collection of its result.
pub proof fn law_finished_final(run: RunState, event: Signal)
    requires
        run.phase == Phase::Finished,
    ensures
        run.step(event) == (run, Step::Finish),
{
}

/// A failure is reported as it came. A rejected request ends the execution
/// with the daemon's diagnostic, a broken connection with the transport's,
/// and a container that exists by then is killed before the execution
/// finishes.
pub proof fn law_failure_kinds(run: RunState, detail: Seq<char>, kill_reply: Signal)
    requires
        run.holds_container(),
        !(kill_reply is Output),
    ensures
        run.step(Signal::Rejected(detail)).1 == Step::Kill(run.container()),
        run.step(Signal::Rejected(detail)).0.step(kill_reply).0.outcome() == Err::<
            Seq<(Source, Seq<u8>)>,
            Failure,
        >(Failure::Docker(detail)),
        run.step(Signal::Broken(detail)).1 == Step::Kill(run.container()),
        run.step(Signal::Broken(detail)).0.step(kill_reply).0.outcome() == Err::<
            Seq<(Source, Seq<u8>)>,
            Failure,
        >(Failure::DockerConnection(detail)),
{
}

/// Several executions at once. Each event of `schedule` is for the execution
/// whose position it names and reaches the runner of that execution alone;
/// the events of different executions may come in any order.
pub open spec fn together(starts: Seq<RunState>, schedule: Seq<(int, Signal)>) -> Seq<RunState>
    decreases schedule.len(),
{
    if schedule.len() == 0 {
        starts
    } else {
        let before = together(starts, schedule.drop_last());
        let k = schedule.last().0;
        if 0 <= k < before.len() {
            before.update(k, before[k].step(schedule.last().1).0)
        } else {
            before
        }
    }
}

/// The events of `schedule` that are for execution `k`, in their order.
pub open spec fn events_for(schedule: Seq<(int, Signal)>, k: int) -> Seq<Signal>
    decreases schedule.len(),
{
    if schedule.len() == 0 {
        Seq::empty()
    } else if schedule.last().0 == k {
        events_for(schedule.drop_last(), k).push(schedule.last().1)
    } else {
        events_for(schedule.drop_last(), k)
    }
}

/// An execution among others goes as it would alone: its state after a
/// schedule is its state after its own events, whatever the others did in
/// between.
pub proof fn lemma_together_is_alone(starts: Seq<RunState>, schedule: Seq<(int, Signal)>, k: int)
    ensures
        together(starts, schedule).len() == starts.len(),
        0 <= k < starts.len() ==> together(starts, schedule)[k] == starts[k].after(
            events_for(schedule, k),
        ),
    decreases schedule.len(),
{
    if schedule.len() > 0 {
        lemma_together_is_alone(starts, schedule.drop_last(), k);
        if schedule.last().0 == k {
            lemma_after_each(starts[k], events_for(schedule.drop_last(), k), schedule.last().1);
        }
    }
}

/// Executions at once do not mix. Any number of executions of one language
/// under pairwise distinct identifiers, each for its own program, may run at
/// once with their events interleaved in any order. If every request of each
/// succeeds, each execution finishes with exactly the chunks its own program
/// printed, in their order: none of another execution's chunks is among them
/// and none of its own is missing. No two of the executions share a
/// container or a scratch directory.
pub proof fn law_executions_apart(
    language: Languages,
    codes: Seq<Seq<char>>,
    ids: Seq<u32>,
    deadline_secs: u64,
    empty_output: EmptyOutput,
    arrived: Seq<Seq<(Source, Seq<u8>)>>,
    kill_replies: Seq<Signal>,
    schedule: Seq<(int, Signal)>,
)
    requires
        codes.len() == ids.len(),
        arrived.len() == ids.len(),
        kill_replies.len() == ids.len(),
        forall|j: int, k: int| 0 <= j < k < ids.len() ==> ids[j] != ids[k],
        forall|k: int| 0 <= k < ids.len() ==> !((#[trigger] kill_replies[k]) is Output),
        forall|k: int|
            0 <= k < ids.len() ==> #[trigger] events_for(schedule, k) == smooth_run(
                arrived[k],
                kill_replies[k],
            ),
    ensures
        ({
            let starts = Seq::new(
                ids.len(),
                |k: int| RunState::begin(language, codes[k], ids[k], deadline_secs, empty_output),
            );
            let ends = together(starts, schedule);
            &&& ends.len() == ids.len()
            &&& forall|k: int|
                0 <= k < ids.len() ==> (#[trigger] ends[k]).phase == Phase::Finished && ends[k].code
                    == codes[k] && ends[k].outcome() == if arrived[k].len() == 0 && empty_output
                    == EmptyOutput::Fails {
                    Err::<Seq<(Source, Seq<u8>)>, Failure>(Failure::Empty)
                } else {
                    Ok(arrived[k])
                }
            &&& forall|j: int, k: int|
                0 <= j < k < ids.len() ==> #[trigger] container_name_spec(language, ids[j])
                    != #[trigger] container_name_spec(language, ids[k])
            &&& forall|j: int, k: int|
                0 <= j < k < ids.len() ==> #[trigger] scratch_dir_spec(ids[j])
                    != #[trigger] scratch_dir_spec(ids[k])
        }),
{
    let starts = Seq::new(
        ids.len(),
        |k: int| RunState::begin(language, codes[k], ids[k], deadline_secs, empty_output),
    );
    let ends = together(starts, schedule);
    lemma_together_is_alone(starts, schedule, 0);
    assert forall|k: int| 0 <= k < ids.len() implies (#[trigger] ends[k]).phase == Phase::Finished
        && ends[k].code == codes[k] && ends[k].outcome() == if arrived[k].len() == 0
        && empty_output == EmptyOutput::Fails {
        Err::<Seq<(Source, Seq<u8>)>, Failure>(Failure::Empty)
    } else {
        Ok(arrived[k])
    } by {
        lemma_together_is_alone(starts, schedule, k);
        assert(events_for(schedule, k) == smooth_run(arrived[k], kill_replies[k]));
        law_output_verbatim(starts[k], arrived[k], kill_replies[k]);
        law_teardown(starts[k], smooth_run(arrived[k], kill_replies[k]));
    }
    assert forall|j: int, k: int| 0 <= j < k < ids.len() implies #[trigger] container_name_spec(
        language,
        ids[j],
    ) != #[trigger] container_name_spec(language, ids[k]) by {
        if container_name_spec(language, ids[j]) == container_name_spec(language, ids[k]) {
            law_containers_apart(language, ids[j], language, ids[k]);
        }
    }
    assert forall|j: int, k: int| 0 <= j < k < ids.len() implies #[trigger] scratch_dir_spec(
        ids[j],
    ) != #[trigger] scratch_dir_spec(ids[k]) by {
        if scratch_dir_spec(ids[j]) == scratch_dir_spec(ids[k]) {
            law_scratch_apart(ids[j], ids[k]);
        }
    }
}

} // verus!
