//! Tasks: units of work that one thread carries out, each reported to the
//! backend as a begin and an end.
use vstd::prelude::*;
use crate::backend::{optional, Call, Dispatch, Table};
use crate::bracket::Bracket;
use crate::domain::Domain;
use crate::string::StringHandle;

verus! {

/// A task that has begun in a domain.
#[derive(Debug)]
pub struct Task<'a> {
    domain: &'a Domain,
    bracket: Bracket,
}

impl<'a> Task<'a> {
    /// The domain that the task runs in.
    pub closed spec fn domain(&self) -> Domain {
        *self.domain
    }

    /// Whether the end of the task is still owed.
    pub closed spec fn bracket(&self) -> Bracket {
        self.bracket
    }

    /// Starts a task named by `name` on the current thread. The begin goes to
    /// the backend where its entry point is wired, and is left out where it is
    /// absent; the task is open either way.
    pub fn begin(domain: &'a Domain, name: StringHandle, table: &Table) -> (r: (Task<'a>, Dispatch))
        ensures
            r.0.domain() == *domain,
            r.0.bracket() == Bracket::Open,
            r.1 == optional(table@, Call::TaskBegin { domain: domain@, name: name@ }),
    {
        let dispatch = table.dispatch(
            Call::TaskBegin { domain: domain.as_ptr(), name: name.as_ptr() },
        );
        (Task { domain, bracket: Bracket::Open }, dispatch)
    }

    /// Finishes the task. Only the first attempt can send the end; it is to be
    /// made at the latest when the task is given up.
    pub fn end(&mut self, table: &Table) -> (r: Dispatch)
        ensures
            final(self).domain() == old(self).domain(),
            (final(self).bracket(), r) == old(self).bracket().end(
                table@,
                Call::TaskEnd { domain: old(self).domain()@ },
            ),
    {
        if self.bracket.close() {
            table.dispatch(Call::TaskEnd { domain: self.domain.as_ptr() })
        } else {
            Dispatch::Skip
        }
    }
}

} // verus!
