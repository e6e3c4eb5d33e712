//! A message was posted.

use crate::config::Config;
use crate::events::{sort_message, triage_spec, unsupported_reply, unsupported_spec, Intent, Plan, Request, Triage};
use crate::parsers::match_code_spec;
use vstd::prelude::*;

verus! {

/// What to do about a posted message, given what it asks for: messages of
/// bots and messages without code are passed over; code in a language that
/// is unknown or not enabled is answered with a refusal; any other code is
/// run.
pub open spec fn handle_spec(author_is_bot: bool, request: Request) -> Intent {
    if author_is_bot {
        Intent::Ignore
    } else {
        match request {
            Request::Unparsed => Intent::Ignore,
            Request::Unsupported(tag) => Intent::Reply(unsupported_spec(tag)),
            Request::Execute(language, code) => Intent::Execute(language, code),
        }
    }
}

/// What to do about a posted message, given what it asks for.
pub fn plan(author_is_bot: bool, request: Triage) -> (res: Plan)
    ensures
        res@ == handle_spec(author_is_bot, request@),
{
    if author_is_bot {
        return Plan::Ignore;
    }
    match request {
        Triage::Unparsed => Plan::Ignore,
        Triage::Unsupported(tag) => Plan::Reply(unsupported_reply(tag.as_str())),
        Triage::Execute(language, code) => Plan::Execute(language, code),
    }
}

/// What to do about the posted message `content`. Code counts only where it
/// is marked with `$>`.
pub fn handle(author_is_bot: bool, content: &str, config: &Config) -> (res: Plan)
    ensures
        res@ == handle_spec(author_is_bot, triage_spec(match_code_spec(content@, false), *config)),
{
    if author_is_bot {
        return Plan::Ignore;
    }
    plan(false, sort_message(content, false, config))
}

} // verus!
