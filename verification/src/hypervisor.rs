//! The sandbox supervisor: what to ask of the container daemon for each
//! execution, and what to make of its answers.

use crate::config::Config;
use crate::text::{
    decimal_spec, decode_lossy, join, join_spec, optional_text, push_decimal, texts, utf8_lossy,
};
use languages::Languages;
use rand::Rng;
use requests::{
    container_name, container_name_spec, container_policy, container_spec, make_root,
    make_root_spec, open_root, open_root_spec, ContainerSpec, ImageBuild, DEADLINE_SECS,
};
use runner::{steps, Action, EmptyOutput, RunState, Runner, Step};
use startup::{image_build, image_build_spec, Startup, StartupAction, StartupState};
use vstd::prelude::*;
use vstd::utf8::{decode_utf8, valid_utf8};

pub mod exec_error;
pub mod languages;
pub mod requests;
pub mod runner;
pub mod startup;

verus! {

/// How many characters of output a reply shows before it is cut short.
pub const OUTPUT_BUDGET: usize = 1500;

/// The supervisor of the sandbox: the one entry point for building the
/// images, running a snippet and cleaning up at shutdown. It holds the
/// configuration it was made with and never changes it.
pub struct Hypervisor {
    /// The process configuration.
    pub config: Config,
    /// Seconds a program may spend producing output.
    pub deadline_secs: u64,
    /// What an output stream without a single chunk means.
    pub empty_output: EmptyOutput,
}

/// Draws a number with `rand::thread_rng().gen_range(low..high)`. Which
/// number comes back is left open; it lies in the range asked for.
#[verifier::external_body]
fn random_between(low: u32, high: u32) -> (res: u32)
    requires
        low < high,
    ensures
        low <= res < high,
{
    rand::thread_rng().gen_range(low..high)
}

/// A copy of an optional string.
fn copy_optional(item: &Option<String>) -> (res: Option<String>)
    ensures
        res == *item,
{
    match item {
        Some(text) => Some(text.clone()),
        None => None,
    }
}

/// The name a container is killed by, given a name the daemon lists it
/// under: the listed name without its leading slash, if it has one.
pub open spec fn kill_target_spec(listed: Seq<char>) -> Seq<char> {
    if listed.len() > 0 && listed[0] == '/' {
        listed.skip(1)
    } else {
        listed
    }
}

/// The names to kill, given the names each listed container goes by: the
/// first name of each container that has one, in the order listed.
pub open spec fn kill_targets_spec(listed: Seq<Vec<String>>) -> Seq<Seq<char>>
    decreases listed.len(),
{
    if listed.len() == 0 {
        Seq::empty()
    } else if listed.last()@.len() > 0 {
        kill_targets_spec(listed.drop_last()).push(kill_target_spec(listed.last()@[0]@))
    } else {
        kill_targets_spec(listed.drop_last())
    }
}

/// The views of a sequence of byte chunks.
pub open spec fn bytes_of(code_result: Seq<Vec<u8>>) -> Seq<Seq<u8>> {
    Seq::new(code_result.len(), |i: int| code_result[i]@)
}

/// What each chunk of bytes decodes to.
pub open spec fn decoded(code_result: Seq<Vec<u8>>) -> Seq<Seq<char>> {
    Seq::new(code_result.len(), |i: int| utf8_lossy(code_result[i]@))
}

/// Whether the chunks hold no byte at all: there is no chunk, or every chunk
/// is empty.
pub open spec fn silent(chunks: Seq<Seq<u8>>) -> bool {
    forall|i: int| 0 <= i < chunks.len() ==> (#[trigger] chunks[i]).len() == 0
}

/// Whether the lines hold no character at all: there is no line, or every
/// line is empty.
pub open spec fn blank(lines: Seq<Seq<char>>) -> bool {
    forall|i: int| 0 <= i < lines.len() ==> (#[trigger] lines[i]).len() == 0
}

/// What each chunk of bytes stands for where it is valid UTF-8.
pub open spec fn plain(code_result: Seq<Vec<u8>>) -> Seq<Seq<char>> {
    Seq::new(code_result.len(), |i: int| decode_utf8(code_result[i]@))
}

/// Whether every chunk of bytes is valid UTF-8.
pub open spec fn all_valid(code_result: Seq<Vec<u8>>) -> bool {
    forall|i: int| 0 <= i < code_result.len() ==> valid_utf8(#[trigger] code_result[i]@)
}

/// How output is shown. Text of more than `budget` characters is cut to its
/// first `budget` characters, followed by a note of how many were left out;
/// empty text is shown as `No output`; any other text is shown as it is.
pub open spec fn render_spec(text: Seq<char>, budget: nat) -> Seq<char> {
    if text.len() > budget {
        text.take(budget as int) + "...("@ + decimal_spec((text.len() - budget) as nat)
            + " more characters)"@
    } else if text.len() == 0 {
        "No output"@
    } else {
        text
    }
}

/// How lines of output are shown within `budget` characters. Lines without
/// a single character are shown as `No output`, however many they are; any
/// others are joined by newlines and shown as [`render_spec`] says.
pub open spec fn lines_spec(lines: Seq<Seq<char>>, budget: nat) -> Seq<char> {
    if blank(lines) {
        "No output"@
    } else {
        render_spec(join_spec(lines, "\n"@), budget)
    }
}

/// How the output of an execution is shown within `budget` characters.
/// Output without a single byte is shown as `No output`, however many chunks
/// it came in; any other output is decoded leniently chunk by chunk, joined
/// by newlines and shown as [`render_spec`] says.
pub open spec fn output_spec(chunks: Seq<Seq<u8>>, budget: nat) -> Seq<char> {
    if silent(chunks) {
        "No output"@
    } else {
        render_spec(
            join_spec(chunks.map_values(|bytes: Seq<u8>| utf8_lossy(bytes)), "\n"@),
            budget,
        )
    }
}

/// The name a container is killed by, given a name the daemon lists it
/// under.
pub fn kill_target(listed: &str) -> (res: String)
    ensures
        res@ == kill_target_spec(listed@),
{
    let len = listed.unicode_len();
    if len > 0 && listed.get_char(0) == '/' {
        let rest = listed.substring_char(1, len);
        assert(rest@ =~= listed@.skip(1));
        String::from_str(rest)
    } else {
        String::from_str(listed)
    }
}

/// Shows `text` within `budget` characters.
pub fn format_text(text: &str, budget: usize) -> (res: String)
    ensures
        res@ == render_spec(text@, budget as nat),
{
    let len = text.unicode_len();
    if len > budget {
        let kept = text.substring_char(0, budget);
        assert(kept@ =~= text@.take(budget as int));
        let mut out = String::from_str(kept);
        out.append("...(");
        push_decimal(&mut out, (len - budget) as u64);
        out.append(" more characters)");
        out
    } else if len == 0 {
        String::from_str("No output")
    } else {
        String::from_str(text)
    }
}

/// Whether none of `lines` holds a character.
pub fn is_blank(lines: &Vec<String>) -> (res: bool)
    ensures
        res == blank(texts(lines@)),
{
    let mut i: usize = 0;
    while i < lines.len()
        invariant
            i <= lines.len(),
            forall|j: int| 0 <= j < i ==> lines@[j]@.len() == 0,
        decreases lines.len() - i,
    {
        if lines[i].as_str().unicode_len() != 0 {
            assert(texts(lines@)[i as int].len() != 0);
            return false;
        }
        i += 1;
    }
    true
}

/// Whether none of `code_result` holds a byte.
pub fn is_silent(code_result: &Vec<Vec<u8>>) -> (res: bool)
    ensures
        res == silent(bytes_of(code_result@)),
{
    let mut i: usize = 0;
    while i < code_result.len()
        invariant
            i <= code_result.len(),
            forall|j: int| 0 <= j < i ==> code_result@[j]@.len() == 0,
        decreases code_result.len() - i,
    {
        if code_result[i].len() != 0 {
            assert(bytes_of(code_result@)[i as int].len() != 0);
            return false;
        }
        i += 1;
    }
    true
}

/// Shows the lines of an execution's output within `budget` characters:
/// `No output` where no line holds a character, else the lines joined by
/// newlines, cut short as [`render_spec`] says.
pub fn format_lines(lines: &Vec<String>, budget: usize) -> (res: String)
    ensures
        res@ == lines_spec(texts(lines@), budget as nat),
{
    if is_blank(lines) {
        return String::from_str("No output");
    }
    let text = join(lines, "\n");
    format_text(text.as_str(), budget)
}

/// Decodes each chunk of bytes leniently: valid UTF-8 becomes the text it
/// stands for, and nothing else about it changes.
pub fn decode_all(code_result: &Vec<Vec<u8>>) -> (res: Vec<String>)
    ensures
        texts(res@) == decoded(code_result@),
        all_valid(code_result@) ==> texts(res@) == plain(code_result@),
{
    let mut lines: Vec<String> = Vec::new();
    let mut i: usize = 0;
    while i < code_result.len()
        invariant
            i <= code_result.len(),
            lines@.len() == i,
            forall|j: int| 0 <= j < i ==> lines@[j]@ == utf8_lossy(code_result@[j]@),
            forall|j: int|
                0 <= j < i && valid_utf8(code_result@[j]@) ==> lines@[j]@ == decode_utf8(
                    code_result@[j]@,
                ),
        decreases code_result.len() - i,
    {
        lines.push(decode_lossy(code_result[i].as_slice()));
        i += 1;
    }
    assert(texts(lines@) =~= decoded(code_result@));
    proof {
        if all_valid(code_result@) {
            assert(texts(lines@) =~= plain(code_result@));
        }
    }
    lines
}

/// Formats the output of a code execution for a chat reply.
///
/// Output without a single byte is shown as `No output`, whether it came in
/// no chunk or in several empty ones. Any other output is decoded leniently
/// chunk by chunk and joined by newlines. Output longer than
/// [`OUTPUT_BUDGET`] characters is cut to that many and followed by
/// `...(N more characters)`, where `N` is the number of characters left out.
/// Output that is valid UTF-8 is shown as the text it stands for.
pub fn format_output(code_result: Vec<Vec<u8>>) -> (res: String)
    ensures
        res@ == output_spec(bytes_of(code_result@), OUTPUT_BUDGET as nat),
        silent(bytes_of(code_result@)) ==> res@ == "No output"@,
        !silent(bytes_of(code_result@)) ==> res@ == render_spec(
            join_spec(decoded(code_result@), "\n"@),
            OUTPUT_BUDGET as nat,
        ),
        !silent(bytes_of(code_result@)) && all_valid(code_result@) ==> res@ == render_spec(
            join_spec(plain(code_result@), "\n"@),
            OUTPUT_BUDGET as nat,
        ),
{
    assert(bytes_of(code_result@).map_values(|bytes: Seq<u8>| utf8_lossy(bytes)) =~= decoded(
        code_result@,
    ));
    if is_silent(&code_result) {
        return String::from_str("No output");
    }
    let lines = decode_all(&code_result);
    let text = join(&lines, "\n");
    format_text(text.as_str(), OUTPUT_BUDGET)
}

/// Silence is shown as `No output`. Output without a single byte reads
/// `No output`, in however many chunks it came and whatever the budget.
pub proof fn law_silence_is_no_output(chunks: Seq<Seq<u8>>, budget: nat)
    ensures
        chunks.len() == 0 ==> output_spec(chunks, budget) == "No output"@,
        silent(chunks) ==> output_spec(chunks, budget) == "No output"@,
        blank(Seq::<Seq<char>>::empty()),
        forall|lines: Seq<Seq<char>>| blank(lines) ==> lines_spec(lines, budget) == "No output"@,
{
}

/// Output formatting. Output within the budget is shown unchanged, unless it
/// is empty, which is shown as `No output`. Longer output keeps exactly its
/// first `budget` characters, and the number in the note that follows them
/// is exactly the number of characters that were removed.
pub proof fn law_output_budget(text: Seq<char>, budget: nat)
    ensures
        text.len() == 0 ==> render_spec(text, budget) == "No output"@,
        0 < text.len() <= budget ==> render_spec(text, budget) == text,
        text.len() > budget ==> {
            let kept = text.take(budget as int);
            let removed = (text.len() - kept.len()) as nat;
            &&& kept.len() == budget
            &&& kept + text.skip(budget as int) == text
            &&& removed == text.skip(budget as int).len()
            &&& render_spec(text, budget) == kept + "...("@ + decimal_spec(removed)
                + " more characters)"@
        },
{
    if text.len() > budget {
        assert(text.take(budget as int) + text.skip(budget as int) =~= text);
    }
}

impl Hypervisor {
    /// A supervisor under `config`, with a deadline of [`DEADLINE_SECS`]
    /// seconds, for which a program that prints nothing has succeeded.
    pub fn new(config: Config) -> (res: Self)
        ensures
            res.config == config,
            res.deadline_secs == DEADLINE_SECS,
            res.empty_output == EmptyOutput::Succeeds,
    {
        Hypervisor { config, deadline_secs: DEADLINE_SECS, empty_output: EmptyOutput::Succeeds }
    }

    /// The same supervisor with another deadline.
    pub fn with_deadline(self, deadline_secs: u64) -> (res: Self)
        ensures
            res.config == self.config,
            res.deadline_secs == deadline_secs,
            res.empty_output == self.empty_output,
    {
        Hypervisor { config: self.config, deadline_secs, empty_output: self.empty_output }
    }

    /// The same supervisor with another reading of an empty output stream.
    pub fn with_empty_output(self, empty_output: EmptyOutput) -> (res: Self)
        ensures
            res.config == self.config,
            res.deadline_secs == self.deadline_secs,
            res.empty_output == empty_output,
    {
        Hypervisor { config: self.config, deadline_secs: self.deadline_secs, empty_output }
    }

    /// Begins the startup: the images of the configured languages are built
    /// one after the other, one for each configured name and in the order
    /// configured, from the build contexts under `cwd`. A name that is the
    /// display name of no language ends the startup when its turn comes, and
    /// so does the first build that fails.
    pub fn init(&self, cwd: &str) -> (res: (Startup, StartupAction))
        ensures
            (res.0@, res.1@) == StartupState::begin(cwd@, texts(self.config.languages@)),
    {
        Startup::begin(cwd, &self.config.languages)
    }

    /// The pattern that the names of all sandbox containers match.
    pub fn stop_filter() -> (res: String)
        ensures
            res@ == "run.sh_*"@,
    {
        String::from_str("run.sh_*")
    }

    /// The containers to kill at shutdown, given the names that each
    /// container matching [`Hypervisor::stop_filter`] is listed under: each
    /// by its first name, without the leading slash. A container listed
    /// without a name is passed over. Each kill stands alone: one that fails,
    /// because its container is already gone, takes nothing from the others.
    pub fn stop(&self, listed: &Vec<Vec<String>>) -> (res: Vec<String>)
        ensures
            texts(res@) == kill_targets_spec(listed@),
    {
        let mut res: Vec<String> = Vec::new();
        let mut i: usize = 0;
        assert(listed@.take(0) =~= Seq::<Vec<String>>::empty());
        while i < listed.len()
            invariant
                i <= listed.len(),
                texts(res@) == kill_targets_spec(listed@.take(i as int)),
            decreases listed.len() - i,
        {
            let names = &listed[i];
            proof {
                assert(listed@.take(i + 1).drop_last() =~= listed@.take(i as int));
                assert(listed@.take(i + 1).last() == listed@[i as int]);
            }
            if names.len() > 0 {
                let ghost before = texts(res@);
                let target = kill_target(names[0].as_str());
                res.push(target);
                assert(texts(res@) =~= before.push(target@));
            }
            i += 1;
        }
        assert(listed@.take(listed@.len() as int) =~= listed@);
        res
    }

    /// The image to build for `language`: its build context is the directory
    /// of the language under `cwd`, and the result is stored under the tag of
    /// the language.
    pub fn build_image(&self, language: &Languages, cwd: &str) -> (res: ImageBuild)
        ensures
            res@ == image_build_spec(cwd@, *language),
    {
        image_build(cwd, language)
    }

    /// Begins the execution of `code` in `language` under the identifier
    /// `id`: the runner that will see it through, and its first request, the
    /// creation of its container.
    pub fn run(&self, language: &Languages, code: &str, id: u32) -> (res: (Runner, Action))
        ensures
            res.0@ == RunState::begin(*language, code@, id, self.deadline_secs, self.empty_output),
            res.1@ == Step::Create(
                container_policy(*language, id, optional_text(self.config.docker_runtime)),
            ),
    {
        Runner::begin(
            language,
            code,
            id,
            copy_optional(&self.config.docker_runtime),
            self.deadline_secs,
            self.empty_output,
        )
    }

    /// What follows the creation of the container of execution `id` of
    /// `language`: it is started, and the root of the scratch directories is
    /// created and opened to the restricted identity.
    pub fn start_container(&self, language: &Languages, id: u32) -> (res: Vec<Action>)
        ensures
            steps(res@) == seq![
                Step::Start(container_name_spec(*language, id)),
                Step::Exec(container_name_spec(*language, id), make_root_spec()),
                Step::Exec(container_name_spec(*language, id), open_root_spec()),
            ],
    {
        let mut res: Vec<Action> = Vec::new();
        res.push(Action::Start(container_name(language, id)));
        res.push(Action::Exec(container_name(language, id), make_root()));
        res.push(Action::Exec(container_name(language, id), open_root()));
        assert(steps(res@) =~= seq![
            Step::Start(container_name_spec(*language, id)),
            Step::Exec(container_name_spec(*language, id), make_root_spec()),
            Step::Exec(container_name_spec(*language, id), open_root_spec()),
        ]);
        res
    }

    /// How the container of execution `id` of `language` is created: under
    /// the isolation policy, with the configured runtime.
    pub fn create_container(&self, language: &Languages, id: u32) -> (res: ContainerSpec)
        ensures
            res@ == container_policy(*language, id, optional_text(self.config.docker_runtime)),
    {
        container_spec(language, id, copy_optional(&self.config.docker_runtime))
    }

    /// Begins the execution of `code` in `language` under a freshly drawn
    /// identifier. Which identifier is drawn is left to chance; whichever it
    /// is, the execution begins as [`Hypervisor::run`] begins it.
    pub fn exec(&self, language: &Languages, code: &str) -> (res: (Runner, Action))
        ensures
            res.0@.id < u32::MAX,
            res.0@ == RunState::begin(
                *language,
                code@,
                res.0@.id,
                self.deadline_secs,
                self.empty_output,
            ),
            res.1@ == Step::Create(
                container_policy(*language, res.0@.id, optional_text(self.config.docker_runtime)),
            ),
    {
        let id = random_between(u32::MIN, u32::MAX);
        self.run(language, code, id)
    }
}

} // verus!
