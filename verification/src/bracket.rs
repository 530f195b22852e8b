//! The pairing of a begin with its end. A task, a started event and a marked
//! region each stand for one begin that has gone out, and owe the backend the
//! matching end: once, whether the end is asked for, or the value is given up,
//! or both.
use vstd::prelude::*;
use crate::backend::{optional, Call, Dispatch, Entry};

verus! {

/// Whether the end of a begin/end pair is still owed.
#[derive(Clone, Copy, Debug, PartialEq, Eq, Structural)]
pub enum Bracket {
    Open,
    Ended,
}

impl Bracket {
    /// An attempt to end the pair with `call`. The first attempt decides on
    /// the call by the optional policy and ends the pair, wired or not. Any
    /// later attempt finds the pair ended and sends nothing.
    pub open spec fn end(self, wired: Set<Entry>, call: Call) -> (Bracket, Dispatch) {
        match self {
            Bracket::Open => (Bracket::Ended, optional(wired, call)),
            Bracket::Ended => (Bracket::Ended, Dispatch::Skip),
        }
    }

    /// What a run of attempts to end the pair sends, one decision for each
    /// attempt, given the entry points that are wired at each.
    pub open spec fn ends(self, attempts: Seq<Set<Entry>>, call: Call) -> Seq<Dispatch>
        decreases attempts.len(),
    {
        if attempts.len() == 0 {
            Seq::empty()
        } else {
            let (next, dispatch) = self.end(attempts[0], call);
            seq![dispatch] + next.ends(attempts.drop_first(), call)
        }
    }

    /// Takes the end that is owed, if it still is: the result says whether this
    /// attempt is the one that ends the pair.
    pub fn close(&mut self) -> (first: bool)
        ensures
            first == (*old(self) == Bracket::Open),
            *final(self) == Bracket::Ended,
    {
        let first = match self {
            Bracket::Open => true,
            Bracket::Ended => false,
        };
        *self = Bracket::Ended;
        first
    }
}

/// A pair that has ended sends nothing, however often its end is attempted.
pub proof fn lemma_ended_stays_silent(attempts: Seq<Set<Entry>>, call: Call)
    ensures
        Bracket::Ended.ends(attempts, call).len() == attempts.len(),
        forall|i: int|
            0 <= i < attempts.len() ==> Bracket::Ended.ends(attempts, call)[i] == Dispatch::Skip,
    decreases attempts.len(),
{
    if attempts.len() > 0 {
        lemma_ended_stays_silent(attempts.drop_first(), call);
        let rest = Bracket::Ended.ends(attempts.drop_first(), call);
        assert forall|i: int| 0 <= i < attempts.len() implies Bracket::Ended.ends(
            attempts,
            call,
        )[i] == Dispatch::Skip by {
            if i > 0 {
                assert(Bracket::Ended.ends(attempts, call)[i] == rest[i - 1]);
            }
        }
    }
}

/// The end of an open pair goes out exactly once: the first attempt decides
/// on it, and no later attempt sends anything, whether there is one attempt
/// or many.
pub proof fn lemma_end_goes_out_once(attempts: Seq<Set<Entry>>, call: Call)
    requires
        attempts.len() > 0,
    ensures
        Bracket::Open.ends(attempts, call).len() == attempts.len(),
        Bracket::Open.ends(attempts, call)[0] == optional(attempts[0], call),
        forall|i: int|
            1 <= i < attempts.len() ==> Bracket::Open.ends(attempts, call)[i] == Dispatch::Skip,
{
    lemma_ended_stays_silent(attempts.drop_first(), call);
    let rest = Bracket::Ended.ends(attempts.drop_first(), call);
    assert forall|i: int| 1 <= i < attempts.len() implies Bracket::Open.ends(attempts, call)[i]
        == Dispatch::Skip by {
        assert(Bracket::Open.ends(attempts, call)[i] == rest[i - 1]);
    }
}

} // verus!
