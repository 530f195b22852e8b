//! Processor-trace regions: named stretches of code, such as the body of a
//! tight loop, that are marked each time they run.
use vstd::prelude::*;
use vstd::utf8::encode_utf8;
use crate::backend::{optional, Call, Dispatch, Entry, Pending, Table};
use crate::bracket::Bracket;
use crate::text::{representable, BackendString};

verus! {

/// The value of a region that the backend did not create. The backend gives
/// this value out for no region.
pub const NO_REGION: u8 = 0xff;

/// A named region. It holds the value that the backend gave out for the name,
/// which is also the region's view.
#[derive(Debug, PartialEq, Eq)]
pub struct Region {
    id: u8,
}

impl View for Region {
    type V = u8;

    closed spec fn view(&self) -> u8 {
        self.id
    }
}

/// One run through a region, from its mark to its end.
#[derive(Debug)]
pub struct MarkedRegion<'a> {
    region: &'a Region,
    bracket: Bracket,
}

impl Region {
    /// Creates the region `name`: asks the backend for it where the entry
    /// point is wired, and goes on with the region that stands for none where
    /// it is absent. The name has to be free of terminators.
    pub fn new(name: &str, table: &Table) -> (r: Pending<Region>)
        requires
            representable(name@),
        ensures
            match r {
                Pending::Awaiting(call) => {
                    &&& table@.contains(Entry::RegionCreate)
                    &&& call matches Call::RegionCreate { name: label }
                    &&& label@ == encode_utf8(name@)
                },
                Pending::Ready(region) => {
                    &&& !table@.contains(Entry::RegionCreate)
                    &&& region@ == NO_REGION
                },
            },
    {
        let name = BackendString::new(name).expect(
            "unable to create a CString; does it contain a 0 byte?",
        );
        table.request(Call::RegionCreate { name }, Region { id: NO_REGION })
    }

    /// The region that the backend answered the creating call with.
    pub fn created(id: u8) -> (region: Region)
        ensures
            region@ == id,
    {
        Region { id }
    }

    /// Marks the beginning of a run through the region. The backend takes the
    /// mark of any region, the one that stands for none too, and answers
    /// nothing; so the mark goes out wherever its entry point is wired.
    pub fn mark<'a>(&'a self, table: &Table) -> (r: (MarkedRegion<'a>, Dispatch))
        ensures
            r.0.region() == *self,
            r.0.bracket() == Bracket::Open,
            r.1 == optional(table@, Call::RegionBegin { region: self@ }),
    {
        let dispatch = table.dispatch(Call::RegionBegin { region: self.id });
        (MarkedRegion { region: self, bracket: Bracket::Open }, dispatch)
    }
}

impl<'a> MarkedRegion<'a> {
    /// The region that is run through.
    pub closed spec fn region(&self) -> Region {
        *self.region
    }

    /// Whether the end of the run is still owed.
    pub closed spec fn bracket(&self) -> Bracket {
        self.bracket
    }

    /// Ends the run. Only the first attempt can send the end; it is to be made
    /// at the latest when the marked region is given up.
    pub fn end(&mut self, table: &Table) -> (r: Dispatch)
        ensures
            final(self).region() == old(self).region(),
            (final(self).bracket(), r) == old(self).bracket().end(
                table@,
                Call::RegionEnd { region: old(self).region()@ },
            ),
    {
        if self.bracket.close() {
            table.dispatch(Call::RegionEnd { region: self.region.id })
        } else {
            Dispatch::Skip
        }
    }
}

} // verus!
