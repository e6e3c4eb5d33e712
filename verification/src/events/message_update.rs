//! A message was edited.

use crate::config::Config;
use crate::events::{sort_message, triage_spec, unsupported_reply, unsupported_spec, Intent, Plan, Request, Triage};
use crate::parsers::match_code_spec;
use vstd::prelude::*;

verus! {

/// What to do about an edited message, given what it asks for. Only a
/// message whose execution is on record is looked at; its code is run again
/// and the answer on record replaced.
pub open spec fn handle_spec(on_record: bool, request: Request) -> Intent {
    if !on_record {
        Intent::Ignore
    } else {
        match request {
            Request::Unparsed => Intent::Ignore,
            Request::Unsupported(tag) => Intent::Reply(unsupported_spec(tag)),
            Request::Execute(language, code) => Intent::Execute(language, code),
        }
    }
}

/// What to do about an edited message, given what it asks for.
pub fn plan(on_record: bool, request: Triage) -> (res: Plan)
    ensures
        res@ == handle_spec(on_record, request@),
{
    if !on_record {
        return Plan::Ignore;
    }
    match request {
        Triage::Unparsed => Plan::Ignore,
        Triage::Unsupported(tag) => Plan::Reply(unsupported_reply(tag.as_str())),
        Triage::Execute(language, code) => Plan::Execute(language, code),
    }
}

/// What to do about the edited message `content`. `on_record` says whether
/// the log of executions holds a row for the message.
pub fn handle(on_record: bool, content: &str, config: &Config) -> (res: Plan)
    ensures
        res@ == handle_spec(on_record, triage_spec(match_code_spec(content@, false), *config)),
{
    if !on_record {
        return Plan::Ignore;
    }
    plan(true, sort_message(content, false, config))
}

} // verus!
