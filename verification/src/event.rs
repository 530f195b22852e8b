//! Events: named points of interest whose occurrences are reported to the
//! backend as a start and an end. Unlike a task, an event does not tolerate a
//! backend that refuses the start or the end: that is fatal.
use vstd::prelude::*;
use vstd::utf8::encode_utf8;
use crate::backend::{Call, Dispatch, Entry, Pending, Resolution, Table};
use crate::bracket::Bracket;
use crate::text::{representable, BackendString};

verus! {

/// The value of an event that the backend did not create.
pub const NO_EVENT: i32 = -1;

/// A condition that nothing recovers from: the backend refused one half of an
/// event's start/end pair.
#[derive(Clone, Copy, Debug, PartialEq, Eq, Structural)]
pub enum Fatal {
    EventStart,
    EventEnd,
}

impl Fatal {
    /// The condition in words.
    pub fn message(&self) -> (text: &'static str)
        ensures
            text@ == match self {
                Fatal::EventStart => "unable to start event"@,
                Fatal::EventEnd => "unable to stop event"@,
            },
    {
        match self {
            Fatal::EventStart => "unable to start event",
            Fatal::EventEnd => "unable to stop event",
        }
    }
}

/// A named event. It holds the value that the backend gave out for the name,
/// which is also the event's view.
#[derive(Debug, PartialEq, Eq)]
pub struct Event {
    id: i32,
}

impl View for Event {
    type V = i32;

    closed spec fn view(&self) -> i32 {
        self.id
    }
}

/// An occurrence of an event that has started.
#[derive(Debug)]
pub struct StartedEvent<'a> {
    event: &'a Event,
    bracket: Bracket,
}

impl Event {
    /// Creates the event `name`. Where the entry point is wired the backend is
    /// asked, with the name and the number of its bytes: the name then has to
    /// be free of terminators, and the number has to fit the backend's signed
    /// 32-bit count. Where the entry point is absent the name is not looked at,
    /// and the event is the one that stands for none.
    pub fn new(name: &str, table: &Table) -> (r: Pending<Event>)
        requires
            table@.contains(Entry::EventCreate) ==> representable(name@),
            table@.contains(Entry::EventCreate) ==> name.len() <= i32::MAX,
        ensures
            match r {
                Pending::Awaiting(call) => {
                    &&& table@.contains(Entry::EventCreate)
                    &&& call matches Call::EventCreate { name: label, size }
                    &&& label@ == encode_utf8(name@)
                    &&& size == label@.len()
                },
                Pending::Ready(event) => {
                    &&& !table@.contains(Entry::EventCreate)
                    &&& event@ == NO_EVENT
                },
            },
    {
        match table.resolve(Entry::EventCreate) {
            Resolution::Resolved(_) => {
                let label = BackendString::new(name).expect(
                    "unable to create a CString; does it contain a 0 byte?",
                );
                let size = i32::try_from(label.len()).expect(
                    "unable to fit the name length into an i32",
                );
                Pending::Awaiting(Call::EventCreate { name: label, size })
            },
            Resolution::Absent => Pending::Ready(Event { id: NO_EVENT }),
        }
    }

    /// The event that the backend answered the creating call with.
    pub fn created(id: i32) -> (event: Event)
        ensures
            event@ == id,
    {
        Event { id }
    }

    /// Starts an occurrence of the event. Where the entry point is wired the
    /// backend is asked, and its answer decides whether the occurrence has
    /// started. Where it is absent the occurrence has started as it is.
    pub fn start<'a>(&'a self, table: &Table) -> (r: Pending<StartedEvent<'a>>)
        ensures
            match r {
                Pending::Awaiting(call) => {
                    &&& table@.contains(Entry::EventStart)
                    &&& call == Call::EventStart { event: self@ }
                },
                Pending::Ready(started) => {
                    &&& !table@.contains(Entry::EventStart)
                    &&& started.event() == *self
                    &&& started.bracket() == Bracket::Open
                },
            },
    {
        table.request(
            Call::EventStart { event: self.id },
            StartedEvent { event: self, bracket: Bracket::Open },
        )
    }

    /// Takes the backend's answer to the start: with the status zero the
    /// occurrence has started, with any other the start has failed for good.
    pub fn started<'a>(&'a self, status: i32) -> (r: Result<StartedEvent<'a>, Fatal>)
        ensures
            match r {
                Ok(started) => {
                    &&& status == 0
                    &&& started.event() == *self
                    &&& started.bracket() == Bracket::Open
                },
                Err(fatal) => status != 0 && fatal == Fatal::EventStart,
            },
    {
        if status == 0 {
            Ok(StartedEvent { event: self, bracket: Bracket::Open })
        } else {
            Err(Fatal::EventStart)
        }
    }
}

impl<'a> StartedEvent<'a> {
    /// The event that occurs.
    pub closed spec fn event(&self) -> Event {
        *self.event
    }

    /// Whether the end of the occurrence is still owed.
    pub closed spec fn bracket(&self) -> Bracket {
        self.bracket
    }

    /// Ends the occurrence. Only the first attempt can send the end; it is to
    /// be made at the latest when the occurrence is given up.
    pub fn end(&mut self, table: &Table) -> (r: Dispatch)
        ensures
            final(self).event() == old(self).event(),
            (final(self).bracket(), r) == old(self).bracket().end(
                table@,
                Call::EventEnd { event: old(self).event()@ },
            ),
    {
        if self.bracket.close() {
            table.dispatch(Call::EventEnd { event: self.event.id })
        } else {
            Dispatch::Skip
        }
    }

    /// Takes the backend's answer to the end: any status but zero is fatal.
    pub fn ended(status: i32) -> (r: Result<(), Fatal>)
        ensures
            r == if status == 0 {
                Ok::<(), Fatal>(())
            } else {
                Err(Fatal::EventEnd)
            },
    {
        if status == 0 {
            Ok(())
        } else {
            Err(Fatal::EventEnd)
        }
    }
}

} // verus!
