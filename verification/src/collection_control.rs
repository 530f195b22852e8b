//! Pausing, resuming and detaching the collection of data, for the whole
//! program. Domains and string handles are not affected by a pause; tasks,
//! events and regions are not collected while it lasts.
use vstd::prelude::*;
use crate::backend::{optional, Call, Dispatch, Table};

verus! {

/// Runs on without collecting data.
pub fn pause(table: &Table) -> (r: Dispatch)
    ensures
        r == optional(table@, Call::Pause),
{
    table.dispatch(Call::Pause)
}

/// Takes the collection of data up again.
pub fn resume(table: &Table) -> (r: Dispatch)
    ensures
        r == optional(table@, Call::Resume),
{
    table.dispatch(Call::Resume)
}

/// Detaches the collection of data: the program runs on, and nothing more is
/// collected.
pub fn detach(table: &Table) -> (r: Dispatch)
    ensures
        r == optional(table@, Call::Detach),
{
    table.dispatch(Call::Detach)
}

} // verus!
