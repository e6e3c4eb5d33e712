//! A thread was created.

use vstd::prelude::*;

verus! {

/// Whether to join a thread: only one that belongs somewhere, to a parent
/// channel or to a guild, and that is known to be newly created.
pub open spec fn handle_spec(has_parent: bool, has_guild: bool, newly_created: Option<bool>) -> bool {
    (has_parent || has_guild) && newly_created == Some(true)
}

/// Whether to join the thread an event tells of.
pub fn handle(has_parent: bool, has_guild: bool, newly_created: Option<bool>) -> (res: bool)
    ensures
        res == handle_spec(has_parent, has_guild, newly_created),
{
    if !has_parent && !has_guild {
        return false;
    }
    match newly_created {
        Some(fresh) => fresh,
        None => false,
    }
}

} // verus!
