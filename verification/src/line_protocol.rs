//! The line protocol of the test server: a client sends `<language> <code>`
//! on one line and gets back either a refusal or the program's output.

use crate::config::Config;
use crate::hypervisor::exec_error::{ExecError, Failure};
use crate::hypervisor::languages::Languages;
use crate::hypervisor::runner::{chunks, payloads, Chunk, Source};
use crate::hypervisor::decode_all;
use crate::text::{join, join_spec, split_once, split_once_spec, texts, trimmed, utf8_lossy};
use vstd::prelude::*;

verus! {

/// What a line asks for.
#[derive(Debug, Clone, PartialEq, Eq)]
pub enum Line {
    /// The line holds no space, so it does not name a language and a program.
    Malformed,
    /// The line is answered with the text and nothing is run.
    Refused(String),
    /// The program is to be run in the language.
    Run(Languages, String),
}

/// A [`Line`] with its strings as characters.
pub enum LineRequest {
    Malformed,
    Refused(Seq<char>),
    Run(Languages, Seq<char>),
}

impl View for Line {
    type V = LineRequest;

    open spec fn view(&self) -> LineRequest {
        match self {
            Line::Malformed => LineRequest::Malformed,
            Line::Refused(text) => LineRequest::Refused(text@),
            Line::Run(language, code) => LineRequest::Run(*language, code@),
        }
    }
}

/// What the server says to a client that has connected.
pub open spec fn greeting_spec(config: Config) -> Seq<char> {
    "Hello! This is the test server.\n\nEnabled languages: "@ + join_spec(
        texts(config.languages@),
        ", "@,
    )
        + "\nTo add more, edit your `LANGUAGES` environment variable.\n\nTo execute code, send the code in the following format:\n<language> <code>\n"@
}

/// What a request for `code` under the tag `tag` comes to: a tag that names
/// no language and a language that is not enabled are refused; anything else
/// is run.
pub open spec fn request_spec(tag: Seq<char>, code: Seq<char>, config: Config) -> LineRequest {
    match Languages::resolve(tag) {
        None => LineRequest::Refused("Invalid language"@),
        Some(language) => if config.enables(language) {
            LineRequest::Run(language, code)
        } else {
            LineRequest::Refused("Language not enabled"@)
        },
    }
}

/// What a line asks for: the text before its first space names the language,
/// the text after it is the program, both without the whitespace around
/// them.
pub open spec fn on_line_spec(line: Seq<char>, config: Config) -> LineRequest {
    match split_once_spec(line, ' ') {
        None => LineRequest::Malformed,
        Some((tag, code)) => request_spec(trimmed(tag), trimmed(code), config),
    }
}

/// What the client gets back for an execution: the chunks of output, decoded
/// leniently and joined by newlines, or a line that names the kind of
/// failure.
pub open spec fn line_reply_spec(result: Result<Seq<(Source, Seq<u8>)>, Failure>) -> Seq<char> {
    match result {
        Ok(output) => join_spec(
            output.map_values(|chunk: (Source, Seq<u8>)| utf8_lossy(chunk.1)),
            "\n"@,
        ),
        Err(failure) => "Error: "@ + failure.message_spec(),
    }
}

/// Nothing is run that was not asked for in an enabled language: where a
/// request is run, its tag is an alias of the language and the language is
/// enabled.
pub proof fn law_runs_enabled_only(tag: Seq<char>, code: Seq<char>, config: Config)
    ensures
        request_spec(tag, code, config) matches LineRequest::Run(language, program) ==> {
            &&& language.accepts(tag)
            &&& config.enables(language)
            &&& program == code
        },
{
    if Languages::known(tag) {
        let chosen = choose|language: Languages| language.accepts(tag);
        Languages::law_known_alias_resolves(chosen, tag);
    }
}

/// What the server says to a client that has connected.
pub fn greeting(config: &Config) -> (res: String)
    ensures
        res@ == greeting_spec(*config),
{
    let mut out = String::from_str("Hello! This is the test server.\n\nEnabled languages: ");
    out.append(join(&config.languages, ", ").as_str());
    out.append(
        "\nTo add more, edit your `LANGUAGES` environment variable.\n\nTo execute code, send the code in the following format:\n<language> <code>\n",
    );
    out
}

/// What the server says before it runs a program.
pub fn notice() -> (res: &'static str)
    ensures
        res@ == "Executing code..."@,
{
    "Executing code..."
}

/// What a request for `code` under the tag `tag` comes to.
pub fn request(tag: &str, code: &str, config: &Config) -> (res: Line)
    ensures
        res@ == request_spec(tag@, code@, *config),
{
    match Languages::from_codeblock_language(tag) {
        None => Line::Refused(String::from_str("Invalid language")),
        Some(language) => if language.enabled(config) {
            Line::Run(language, String::from_str(code))
        } else {
            Line::Refused(String::from_str("Language not enabled"))
        },
    }
}

/// What the line `line` asks for.
pub fn on_line(line: &str, config: &Config) -> (res: Line)
    ensures
        res@ == on_line_spec(line@, *config),
{
    match split_once(line, ' ') {
        None => Line::Malformed,
        Some((tag, code)) => request(tag.trim(), code.trim(), config),
    }
}

/// The lines of output as one text, joined by newlines.
pub fn output_text(lines: &Vec<String>) -> (res: String)
    ensures
        res@ == join_spec(texts(lines@), "\n"@),
{
    join(lines, "\n")
}

/// What the client gets back for an execution.
pub fn line_reply(result: Result<Vec<Chunk>, ExecError>) -> (res: String)
    ensures
        res@ == line_reply_spec(crate::hypervisor::runner::result_view(result)),
{
    match result {
        Ok(output) => {
            let ghost arrived = chunks(output@);
            let bytes = payloads(output);
            let lines = decode_all(&bytes);
            assert(texts(lines@) =~= arrived.map_values(
                |chunk: (Source, Seq<u8>)| utf8_lossy(chunk.1),
            ));
            output_text(&lines)
        },
        Err(error) => {
            let mut out = String::from_str("Error: ");
            out.append(error.message().as_str());
            out
        },
    }
}

} // verus!
