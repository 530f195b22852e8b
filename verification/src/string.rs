//! String handles name objects to the backend without passing the text each
//! time.
use vstd::prelude::*;
use vstd::utf8::{encode_utf8, encode_utf8_decode_utf8};
use crate::backend::{Call, Entry, Pending, Table};
use crate::text::{representable, BackendString};

verus! {

/// The value of a handle that the backend did not create: the null address.
pub const NULL_HANDLE: usize = 0;

/// The backend's handle on a label. It holds the value that the backend gave
/// out, which is also the handle's view; two handles are equal when they hold
/// the same value. So all the handles that were made without a backend are
/// equal, whatever their labels: each of them is the null handle.
#[derive(Debug, PartialEq, Eq, Structural)]
pub struct StringHandle {
    raw: usize,
}

impl View for StringHandle {
    type V = usize;

    closed spec fn view(&self) -> usize {
        self.raw
    }
}

impl StringHandle {
    /// `r` is what creating the handle for the label `name` comes to while
    /// the entry points `wired` are wired: the call that asks the backend
    /// for it, or the null handle where the backend cannot be asked.
    pub open spec fn creation(name: Seq<char>, wired: Set<Entry>, r: Pending<StringHandle>) -> bool {
        match r {
            Pending::Awaiting(call) => {
                &&& wired.contains(Entry::StringHandleCreate)
                &&& call matches Call::StringHandleCreate { name: label }
                &&& label@ == encode_utf8(name)
            },
            Pending::Ready(handle) => {
                &&& !wired.contains(Entry::StringHandleCreate)
                &&& handle@ == NULL_HANDLE
            },
        }
    }

    /// Creates the handle for `name`: asks the backend for it where the entry
    /// point is wired, and goes on with the null handle where it is absent.
    /// The name has to be free of terminators.
    pub fn new(name: &str, table: &Table) -> (r: Pending<StringHandle>)
        requires
            representable(name@),
        ensures
            StringHandle::creation(name@, table@, r),
    {
        let name = BackendString::new(name).expect(
            "unable to create a CString; does it contain a 0 byte?",
        );
        table.request(Call::StringHandleCreate { name }, StringHandle { raw: NULL_HANDLE })
    }

    /// Creates the handle for `name`, as `new` does.
    pub fn from(name: &str, table: &Table) -> (r: Pending<StringHandle>)
        requires
            representable(name@),
        ensures
            StringHandle::creation(name@, table@, r),
    {
        StringHandle::new(name, table)
    }

    /// The handle that the backend answered the creating call with.
    pub fn created(raw: usize) -> (handle: StringHandle)
        ensures
            handle@ == raw,
    {
        StringHandle { raw }
    }

    /// The value that the backend knows the label by.
    pub fn as_ptr(&self) -> (raw: usize)
        ensures
            raw == self@,
    {
        self.raw
    }
}

/// Handles are compared by the value that the backend gave out, and by
/// nothing else.
pub proof fn lemma_equal_by_value(a: StringHandle, b: StringHandle)
    ensures
        a == b <==> a@ == b@,
{
}

/// Where the backend interns, that is keeps one value for each text it has
/// been given and gives no value out for two texts, the handles `a` of the
/// label `x` and `b` of the label `y` are equal exactly when the labels are.
pub proof fn lemma_interning_identity(
    interned: Map<Seq<u8>, usize>,
    x: Seq<char>,
    y: Seq<char>,
    a: StringHandle,
    b: StringHandle,
)
    requires
        interned.is_injective(),
        interned.dom().contains(encode_utf8(x)),
        interned.dom().contains(encode_utf8(y)),
        a@ == interned[encode_utf8(x)],
        b@ == interned[encode_utf8(y)],
    ensures
        a == b <==> x == y,
{
    encode_utf8_decode_utf8(x);
    encode_utf8_decode_utf8(y);
}

} // verus!
