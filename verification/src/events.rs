//! What the chat front door makes of a message: whether it holds code to
//! run, what to answer, and what to remember of an execution.

use crate::config::Config;
use crate::hypervisor::exec_error::{ExecError, Failure};
use crate::hypervisor::languages::Languages;
use crate::hypervisor::runner::{payloads, Chunk, Source};
use crate::hypervisor::{bytes_of, format_output, output_spec, OUTPUT_BUDGET};
use crate::parsers::{match_code, match_code_spec, MatchedCode};
use crate::text::{decimal, decimal_spec};
use vstd::prelude::*;

pub mod message_create;
pub mod message_update;
pub mod thread_create;

verus! {

/// What a message asks for.
#[derive(Debug, Clone, PartialEq, Eq)]
pub enum Triage {
    /// The message holds no code.
    Unparsed,
    /// The message holds code under a tag that names no enabled language; the
    /// text is the tag as written.
    Unsupported(String),
    /// The message holds code in an enabled language.
    Execute(Languages, String),
}

/// A [`Triage`] with its strings as characters.
pub enum Request {
    Unparsed,
    Unsupported(Seq<char>),
    Execute(Languages, Seq<char>),
}

impl View for Triage {
    type V = Request;

    open spec fn view(&self) -> Request {
        match self {
            Triage::Unparsed => Request::Unparsed,
            Triage::Unsupported(tag) => Request::Unsupported(tag@),
            Triage::Execute(language, code) => Request::Execute(*language, code@),
        }
    }
}

/// What a front door does about a message.
#[derive(Debug, Clone, PartialEq, Eq)]
pub enum Plan {
    /// Nothing.
    Ignore,
    /// Answer with the text and stop.
    Reply(String),
    /// Run the code in the language and answer with what comes of it.
    Execute(Languages, String),
}

/// A [`Plan`] with its strings as characters.
pub enum Intent {
    Ignore,
    Reply(Seq<char>),
    Execute(Languages, Seq<char>),
}

impl View for Plan {
    type V = Intent;

    open spec fn view(&self) -> Intent {
        match self {
            Plan::Ignore => Intent::Ignore,
            Plan::Reply(text) => Intent::Reply(text@),
            Plan::Execute(language, code) => Intent::Execute(*language, code@),
        }
    }
}

/// The answer to an execution.
#[derive(Debug, Clone, PartialEq, Eq)]
pub struct Answer {
    /// The text to post.
    pub text: String,
    /// Whether the execution succeeded. Only a success goes into the log of
    /// executions, and only a success replaces an answer already given.
    pub succeeded: bool,
}

/// One row of the log of executions, which lets an edited message be run
/// again and its answer be replaced.
#[derive(Debug, Clone, PartialEq, Eq)]
pub struct ExecutionRecord {
    pub channel_id: String,
    pub message_id: String,
    pub language: String,
    pub reply_id: String,
}

/// What a message asks for, given the code found in it: code under a tag
/// that resolves to an enabled language is to be run; code under any other
/// tag is unsupported.
pub open spec fn triage_spec(found: Option<(Seq<char>, Seq<char>)>, config: Config) -> Request {
    match found {
        None => Request::Unparsed,
        Some((tag, code)) => match Languages::resolve(tag) {
            None => Request::Unsupported(tag),
            Some(language) => if config.enables(language) {
                Request::Execute(language, code)
            } else {
                Request::Unsupported(tag)
            },
        },
    }
}

/// The answer to code under a tag that names no enabled language.
pub open spec fn unsupported_spec(tag: Seq<char>) -> Seq<char> {
    "Unsupported language `"@ + tag + "`"@
}

/// The answer to an execution that failed. It names the kind of failure and
/// keeps the daemon's diagnostic to itself.
pub open spec fn failure_spec(failure: Failure) -> Seq<char> {
    "Failed to execute code: "@ + failure.message_spec()
}

/// The answer to an execution that succeeded: the output in a code fence
/// tagged with the language, and below it, if `hint` is set, a note that an
/// edit of the message runs the code again.
pub open spec fn success_spec(language: Languages, output: Seq<char>, hint: bool) -> Seq<char> {
    let fenced = "```"@ + language.name_spec() + "\n"@ + output + "\n```"@;
    if hint {
        fenced + "\n-# ℹ️ Edit your message and the output will update"@
    } else {
        fenced
    }
}

/// How the output of an execution is shown: `No output` where it holds no
/// byte at all, else each chunk decoded leniently, the chunks joined by
/// newlines, the whole within the output budget.
pub open spec fn shown(output: Seq<(Source, Seq<u8>)>) -> Seq<char> {
    output_spec(output.map_values(|chunk: (Source, Seq<u8>)| chunk.1), OUTPUT_BUDGET as nat)
}

/// Nothing is run that was not asked for in an enabled language: where a
/// message is to be run, its tag is an alias of the language, the language is
/// enabled, and the code is the code found in the message.
pub proof fn law_runs_enabled_only(tag: Seq<char>, code: Seq<char>, config: Config)
    ensures
        triage_spec(None, config) == Request::Unparsed,
        triage_spec(Some((tag, code)), config) matches Request::Execute(language, program) ==> {
            &&& language.accepts(tag)
            &&& config.enables(language)
            &&& program == code
        },
{
    if Languages::known(tag) {
        let chosen = choose|language: Languages| language.accepts(tag);
        Languages::law_known_alias_resolves(chosen, tag);
    }
}

/// What a message asks for, given the code found in it.
pub fn triage(found: Option<MatchedCode<'_>>, config: &Config) -> (res: Triage)
    ensures
        res@ == triage_spec(crate::parsers::optional_match(found), *config),
{
    match found {
        None => Triage::Unparsed,
        Some(code) => match Languages::from_codeblock_language(code.language) {
            None => Triage::Unsupported(String::from_str(code.language)),
            Some(language) => if language.enabled(config) {
                Triage::Execute(language, String::from_str(code.code))
            } else {
                Triage::Unsupported(String::from_str(code.language))
            },
        },
    }
}

/// What the message `content` asks for.
pub fn sort_message(content: &str, no_prefix: bool, config: &Config) -> (res: Triage)
    ensures
        res@ == triage_spec(match_code_spec(content@, no_prefix), *config),
{
    triage(match_code(content, no_prefix), config)
}

/// The answer to code under a tag that names no enabled language.
pub fn unsupported_reply(tag: &str) -> (res: String)
    ensures
        res@ == unsupported_spec(tag@),
{
    let mut out = String::from_str("Unsupported language `");
    out.append(tag);
    out.append("`");
    out
}

/// The answer to an execution that failed.
pub fn failure_reply(error: &ExecError) -> (res: String)
    ensures
        res@ == failure_spec(error@),
{
    let mut out = String::from_str("Failed to execute code: ");
    out.append(error.message().as_str());
    out
}

/// The answer to an execution that succeeded with the shown output `output`.
pub fn success_reply(language: &Languages, output: &str, hint: bool) -> (res: String)
    ensures
        res@ == success_spec(*language, output@, hint),
{
    let mut out = String::from_str("```");
    out.append(language.name());
    out.append("\n");
    out.append(output);
    out.append("\n```");
    if hint {
        out.append("\n-# ℹ️ Edit your message and the output will update");
    }
    out
}

/// The answer to an execution, and whether the execution succeeded.
pub fn execution_reply(
    language: &Languages,
    result: Result<Vec<Chunk>, ExecError>,
    hint: bool,
) -> (res: Answer)
    ensures
        match result {
            Ok(output) => res.succeeded && res.text@ == success_spec(
                *language,
                shown(crate::hypervisor::runner::chunks(output@)),
                hint,
            ),
            Err(error) => !res.succeeded && res.text@ == failure_spec(error@),
        },
{
    match result {
        Ok(output) => {
            let ghost arrived = crate::hypervisor::runner::chunks(output@);
            let bytes = payloads(output);
            assert(bytes_of(bytes@) =~= arrived.map_values(|chunk: (Source, Seq<u8>)| chunk.1));
            let text = format_output(bytes);
            Answer { text: success_reply(language, text.as_str(), hint), succeeded: true }
        },
        Err(error) => Answer { text: failure_reply(&error), succeeded: false },
    }
}

/// The row that logs an execution: the channel and the message that asked
/// for it, the display name of the language, and the message that answered
/// it, or `interaction` where the answer was to a command.
pub fn execution_record(
    channel_id: u64,
    message_id: u64,
    language: &Languages,
    reply_id: Option<u64>,
) -> (res: ExecutionRecord)
    ensures
        res.channel_id@ == decimal_spec(channel_id as nat),
        res.message_id@ == decimal_spec(message_id as nat),
        res.language@ == language.name_spec(),
        res.reply_id@ == match reply_id {
            Some(id) => decimal_spec(id as nat),
            None => "interaction"@,
        },
{
    ExecutionRecord {
        channel_id: decimal(channel_id),
        message_id: decimal(message_id),
        language: String::from_str(language.name()),
        reply_id: match reply_id {
            Some(id) => decimal(id),
            None => String::from_str("interaction"),
        },
    }
}

} // verus!
