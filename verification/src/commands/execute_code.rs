//! The command that runs the code of a message picked in the chat client.

use crate::config::Config;
use crate::events::{sort_message, triage_spec, unsupported_reply, unsupported_spec, Intent, Plan, Request, Triage};
use crate::parsers::match_code_spec;
use vstd::prelude::*;

verus! {

/// What the command does, given what the picked message asks for: a message
/// without code and code in a language that is unknown or not enabled are
/// answered with a refusal; any other code is run.
pub open spec fn execute_code_spec(request: Request) -> Intent {
    match request {
        Request::Unparsed => Intent::Reply("Code input could not be parsed."@),
        Request::Unsupported(tag) => Intent::Reply(unsupported_spec(tag)),
        Request::Execute(language, code) => Intent::Execute(language, code),
    }
}

/// What the command does, given what the picked message asks for.
pub fn plan(request: Triage) -> (res: Plan)
    ensures
        res@ == execute_code_spec(request@),
{
    match request {
        Triage::Unparsed => Plan::Reply(String::from_str("Code input could not be parsed.")),
        Triage::Unsupported(tag) => Plan::Reply(unsupported_reply(tag.as_str())),
        Triage::Execute(language, code) => Plan::Execute(language, code),
    }
}

/// What the command does about the picked message `content`. Code counts
/// with or without the `$>` mark.
pub fn execute_code(content: &str, config: &Config) -> (res: Plan)
    ensures
        res@ == execute_code_spec(triage_spec(match_code_spec(content@, true), *config)),
{
    plan(sort_message(content, true, config))
}

} // verus!
