//! Domains tag the trace data of one module or library of a program.
use vstd::prelude::*;
use vstd::utf8::encode_utf8;
use crate::backend::{Call, Entry, Pending, Table};
use crate::text::{representable, BackendString};

verus! {

/// The value of a domain that the backend did not create: the null address.
pub const NULL_DOMAIN: usize = 0;

/// A named tag for trace data. It holds the value that the backend gave out
/// for the name, which is also the domain's view, and is never changed.
#[derive(Debug, PartialEq, Eq)]
pub struct Domain {
    raw: usize,
}

impl View for Domain {
    type V = usize;

    closed spec fn view(&self) -> usize {
        self.raw
    }
}

impl Domain {
    /// Creates the domain `name`: asks the backend for it where the entry
    /// point is wired, and goes on with the null domain where it is absent.
    /// The name has to be free of terminators.
    pub fn new(name: &str, table: &Table) -> (r: Pending<Domain>)
        requires
            representable(name@),
        ensures
            match r {
                Pending::Awaiting(call) => {
                    &&& table@.contains(Entry::DomainCreate)
                    &&& call matches Call::DomainCreate { name: label }
                    &&& label@ == encode_utf8(name@)
                },
                Pending::Ready(domain) => {
                    &&& !table@.contains(Entry::DomainCreate)
                    &&& domain@ == NULL_DOMAIN
                },
            },
    {
        let name = BackendString::new(name).expect(
            "unable to create a CString; does it contain a 0 byte?",
        );
        table.request(Call::DomainCreate { name }, Domain { raw: NULL_DOMAIN })
    }

    /// The domain that the backend answered the creating call with.
    pub fn created(raw: usize) -> (domain: Domain)
        ensures
            domain@ == raw,
    {
        Domain { raw }
    }

    /// The value that the backend knows the domain by.
    pub fn as_ptr(&self) -> (raw: usize)
        ensures
            raw == self@,
    {
        self.raw
    }
}

} // verus!
