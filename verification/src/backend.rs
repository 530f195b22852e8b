//! The backend's entry-point table, and what the facade sends through it.
//!
//! An entry point is either wired to an implementation or absent, and may
//! become wired at any moment: a collector can attach long after the process
//! started. So nothing here remembers a resolution. Each operation looks its
//! entry point up again, and the outcome of that lookup decides whether a call
//! is handed to the backend or silently left out.
use vstd::prelude::*;
use crate::jit::{EventTag, MethodLoad};
use crate::text::BackendString;

verus! {

/// Number of entry points in the table.
pub const ENTRY_COUNT: usize = 14;

/// The entry points that the backend declares, by name.
#[derive(Clone, Copy, Debug, PartialEq, Eq, Structural)]
pub enum Entry {
    Pause,
    Resume,
    Detach,
    DomainCreate,
    StringHandleCreate,
    TaskBegin,
    TaskEnd,
    EventCreate,
    EventStart,
    EventEnd,
    RegionCreate,
    RegionBegin,
    RegionEnd,
    NotifyEvent,
}

impl Entry {
    /// Position of the entry point in the table.
    pub open spec fn ordinal(self) -> int {
        match self {
            Entry::Pause => 0,
            Entry::Resume => 1,
            Entry::Detach => 2,
            Entry::DomainCreate => 3,
            Entry::StringHandleCreate => 4,
            Entry::TaskBegin => 5,
            Entry::TaskEnd => 6,
            Entry::EventCreate => 7,
            Entry::EventStart => 8,
            Entry::EventEnd => 9,
            Entry::RegionCreate => 10,
            Entry::RegionBegin => 11,
            Entry::RegionEnd => 12,
            Entry::NotifyEvent => 13,
        }
    }

    fn slot(self) -> (r: usize)
        ensures
            r == self.ordinal(),
            r < ENTRY_COUNT,
    {
        match self {
            Entry::Pause => 0,
            Entry::Resume => 1,
            Entry::Detach => 2,
            Entry::DomainCreate => 3,
            Entry::StringHandleCreate => 4,
            Entry::TaskBegin => 5,
            Entry::TaskEnd => 6,
            Entry::EventCreate => 7,
            Entry::EventStart => 8,
            Entry::EventEnd => 9,
            Entry::RegionCreate => 10,
            Entry::RegionBegin => 11,
            Entry::RegionEnd => 12,
            Entry::NotifyEvent => 13,
        }
    }
}

/// What looking an entry point up gives: a handle on the operation that can be
/// called, or nothing.
#[derive(Clone, Copy, Debug, PartialEq, Eq, Structural)]
pub enum Resolution {
    Resolved(Entry),
    Absent,
}

/// The state of the backend's table at one moment: which entry points are
/// wired. Its view is the set of wired entry points.
#[derive(Clone, Copy, Debug, PartialEq, Eq)]
pub struct Table {
    slots: [bool; ENTRY_COUNT],
}

impl View for Table {
    type V = Set<Entry>;

    closed spec fn view(&self) -> Set<Entry> {
        Set::new(|e: Entry| self.slots@[e.ordinal()])
    }
}

impl Table {
    /// The table of a process that no collector has attached to.
    pub fn unwired() -> (t: Table)
        ensures
            t@ == Set::<Entry>::empty(),
    {
        let t = Table { slots: [false; ENTRY_COUNT] };
        assert(t@ =~= Set::<Entry>::empty());
        t
    }

    /// The table of a process whose collector implements every entry point.
    pub fn wired() -> (t: Table)
        ensures
            t@ == Set::<Entry>::full(),
    {
        let t = Table { slots: [true; ENTRY_COUNT] };
        assert(t@ =~= Set::<Entry>::full());
        t
    }

    /// Records that the collector has wired `entry`. The others stay as they
    /// are.
    pub fn wire(&mut self, entry: Entry)
        ensures
            final(self)@ == old(self)@.insert(entry),
    {
        let i = entry.slot();
        self.slots[i] = true;
        assert(self@ =~= old(self)@.insert(entry));
    }

    /// Looks `entry` up.
    pub fn resolve(&self, entry: Entry) -> (r: Resolution)
        ensures
            r == resolution(self@, entry),
    {
        if self.slots[entry.slot()] {
            Resolution::Resolved(entry)
        } else {
            Resolution::Absent
        }
    }
}

/// The outcome of looking `entry` up in a table with the entry points `wired`.
pub open spec fn resolution(wired: Set<Entry>, entry: Entry) -> Resolution {
    if wired.contains(entry) {
        Resolution::Resolved(entry)
    } else {
        Resolution::Absent
    }
}

/// One call into the backend, with the arguments it is made with. Domains,
/// string handles, events and regions are named by the values the backend
/// gave out for them.
#[derive(Debug, PartialEq, Eq)]
#[allow(inconsistent_fields)]
pub enum Call {
    Pause,
    Resume,
    Detach,
    DomainCreate { name: BackendString },
    StringHandleCreate { name: BackendString },
    TaskBegin { domain: usize, name: usize },
    TaskEnd { domain: usize },
    EventCreate { name: BackendString, size: i32 },
    EventStart { event: i32 },
    EventEnd { event: i32 },
    RegionCreate { name: BackendString },
    RegionBegin { region: u8 },
    RegionEnd { region: u8 },
    NotifyEvent { tag: EventTag, payload: Option<MethodLoad> },
}

impl Call {
    /// The entry point that the call goes through.
    pub open spec fn spec_entry(&self) -> Entry {
        match self {
            Call::Pause => Entry::Pause,
            Call::Resume => Entry::Resume,
            Call::Detach => Entry::Detach,
            Call::DomainCreate { .. } => Entry::DomainCreate,
            Call::StringHandleCreate { .. } => Entry::StringHandleCreate,
            Call::TaskBegin { .. } => Entry::TaskBegin,
            Call::TaskEnd { .. } => Entry::TaskEnd,
            Call::EventCreate { .. } => Entry::EventCreate,
            Call::EventStart { .. } => Entry::EventStart,
            Call::EventEnd { .. } => Entry::EventEnd,
            Call::RegionCreate { .. } => Entry::RegionCreate,
            Call::RegionBegin { .. } => Entry::RegionBegin,
            Call::RegionEnd { .. } => Entry::RegionEnd,
            Call::NotifyEvent { .. } => Entry::NotifyEvent,
        }
    }

    /// The entry point that the call goes through.
    #[verifier::when_used_as_spec(spec_entry)]
    pub fn entry(&self) -> (e: Entry)
        ensures
            e == self.spec_entry(),
    {
        match self {
            Call::Pause => Entry::Pause,
            Call::Resume => Entry::Resume,
            Call::Detach => Entry::Detach,
            Call::DomainCreate { .. } => Entry::DomainCreate,
            Call::StringHandleCreate { .. } => Entry::StringHandleCreate,
            Call::TaskBegin { .. } => Entry::TaskBegin,
            Call::TaskEnd { .. } => Entry::TaskEnd,
            Call::EventCreate { .. } => Entry::EventCreate,
            Call::EventStart { .. } => Entry::EventStart,
            Call::EventEnd { .. } => Entry::EventEnd,
            Call::RegionCreate { .. } => Entry::RegionCreate,
            Call::RegionBegin { .. } => Entry::RegionBegin,
            Call::RegionEnd { .. } => Entry::RegionEnd,
            Call::NotifyEvent { .. } => Entry::NotifyEvent,
        }
    }
}

/// What an operation leaves for its caller to carry out: one call into the
/// backend, or nothing.
#[derive(Debug, PartialEq, Eq)]
pub enum Dispatch {
    Invoke(Call),
    Skip,
}

/// The value of an operation that needs the backend's answer: it is there at
/// once where the backend is not asked, and otherwise follows from the answer
/// to the call.
#[derive(Debug, PartialEq, Eq)]
pub enum Pending<T> {
    Ready(T),
    Awaiting(Call),
}

/// The policy of an operation whose entry point may be absent: the call is
/// made where the entry point is wired, and left out without a trace where it
/// is not.
pub open spec fn optional(wired: Set<Entry>, call: Call) -> Dispatch {
    if wired.contains(call.entry()) {
        Dispatch::Invoke(call)
    } else {
        Dispatch::Skip
    }
}

/// The policy of an operation that has to hand a value back: where the entry
/// point is absent, `fallback` stands in for what the backend would have
/// returned.
pub open spec fn required<T>(wired: Set<Entry>, call: Call, fallback: T) -> Pending<T> {
    if wired.contains(call.entry()) {
        Pending::Awaiting(call)
    } else {
        Pending::Ready(fallback)
    }
}

impl Table {
    /// Decides on `call` by the optional policy.
    pub fn dispatch(&self, call: Call) -> (r: Dispatch)
        ensures
            r == optional(self@, call),
    {
        match self.resolve(call.entry()) {
            Resolution::Resolved(_) => Dispatch::Invoke(call),
            Resolution::Absent => Dispatch::Skip,
        }
    }

    /// Decides on `call` by the required policy, with `fallback` as the value
    /// to go on with where the entry point is absent.
    pub fn request<T>(&self, call: Call, fallback: T) -> (r: Pending<T>)
        ensures
            r == required(self@, call, fallback),
    {
        match self.resolve(call.entry()) {
            Resolution::Resolved(_) => Pending::Awaiting(call),
            Resolution::Absent => Pending::Ready(fallback),
        }
    }
}

/// While no entry point is wired, no operation reaches the backend: the
/// optional policy leaves every call out, and the required policy goes on with
/// the fallback.
pub proof fn lemma_unwired_backend_is_never_called<T>(call: Call, fallback: T)
    ensures
        optional(Set::<Entry>::empty(), call) == Dispatch::Skip,
        required(Set::<Entry>::empty(), call, fallback) == Pending::Ready(fallback),
{
}

} // verus!
