//! Text in the form the backend reads it: bytes that end at the first
//! terminator, so that a label may not hold one.
use vstd::prelude::*;
use vstd::utf8::{
    char_is_scalar, char_u32_cast, encode_scalar, encode_utf8, has_width_1_encoding, is_scalar,
    last_continuation_byte, leading_byte_width_1, leading_byte_width_2, leading_byte_width_3,
    leading_byte_width_4, second_last_continuation_byte, third_last_continuation_byte,
};

verus! {

/// The label can be handed to the backend as it is: none of its characters is
/// the terminator.
pub open spec fn representable(label: Seq<char>) -> bool {
    !label.contains('\0')
}

/// The terminator byte occurs somewhere in `bytes`.
pub open spec fn has_nul(bytes: Seq<u8>) -> bool {
    exists|i: int| 0 <= i < bytes.len() && bytes[i] == 0u8
}

/// `position` is where the first terminator byte of `bytes` stands.
pub open spec fn is_first_nul(bytes: Seq<u8>, position: int) -> bool {
    &&& 0 <= position < bytes.len()
    &&& bytes[position] == 0u8
    &&& forall|j: int| 0 <= j < position ==> bytes[j] != 0u8
}

proof fn lemma_scalar_bytes(v: u32)
    requires
        is_scalar(v),
    ensures
        has_nul(encode_scalar(v)) <==> v == 0,
{
    if has_width_1_encoding(v) {
        assert(leading_byte_width_1(v) == 0u8 <==> v == 0) by (bit_vector)
            requires
                has_width_1_encoding(v),
        ;
        if v == 0 {
            assert(encode_scalar(v)[0] == 0u8);
        }
    } else {
        assert(leading_byte_width_2(v) != 0u8) by (bit_vector);
        assert(leading_byte_width_3(v) != 0u8) by (bit_vector);
        assert(leading_byte_width_4(v) != 0u8) by (bit_vector);
        assert(last_continuation_byte(v) != 0u8) by (bit_vector);
        assert(second_last_continuation_byte(v) != 0u8) by (bit_vector);
        assert(third_last_continuation_byte(v) != 0u8) by (bit_vector);
    }
}

/// The encoding of a label holds a terminator byte exactly where the label
/// holds the terminator character: no other character is encoded with a zero
/// byte.
pub proof fn lemma_nul_byte_iff_nul_char(label: Seq<char>)
    ensures
        has_nul(encode_utf8(label)) <==> !representable(label),
    decreases label.len(),
{
    if label.len() > 0 {
        let head = encode_scalar(label[0] as u32);
        let rest = label.drop_first();
        let tail = encode_utf8(rest);
        char_is_scalar(label[0]);
        lemma_scalar_bytes(label[0] as u32);
        lemma_nul_byte_iff_nul_char(rest);
        assert(label[0] as u32 == 0 <==> label[0] == '\0') by {
            char_u32_cast(label[0], label[0] as u32);
        }
        assert(encode_utf8(label) == head + tail);
        if has_nul(head + tail) {
            let i = choose|i: int| 0 <= i < (head + tail).len() && (head + tail)[i] == 0u8;
            if i < head.len() {
                assert(head[i] == 0u8);
            } else {
                assert(tail[i - head.len()] == 0u8);
                let j = choose|j: int| 0 <= j < rest.len() && rest[j] == '\0';
                assert(label[j + 1] == '\0');
            }
        }
        if label.contains('\0') {
            let j = choose|j: int| 0 <= j < label.len() && label[j] == '\0';
            if j == 0 {
                let i = choose|i: int| 0 <= i < head.len() && head[i] == 0u8;
                assert((head + tail)[i] == 0u8);
            } else {
                assert(rest[j - 1] == '\0');
                let i = choose|i: int| 0 <= i < tail.len() && tail[i] == 0u8;
                assert((head + tail)[i + head.len()] == 0u8);
            }
        }
    }
}

/// Why a label cannot be handed to the backend: it holds a terminator.
#[derive(Clone, Copy, Debug, PartialEq, Eq, Structural)]
pub struct NulError {
    /// Index of the first terminator byte in the label's encoding.
    pub position: usize,
}

/// A label in the backend's string form: its UTF-8 bytes, none of them the
/// terminator.
#[derive(Debug, PartialEq, Eq)]
pub struct BackendString {
    bytes: Vec<u8>,
}

impl View for BackendString {
    type V = Seq<u8>;

    closed spec fn view(&self) -> Seq<u8> {
        self.bytes@
    }
}

impl BackendString {
    #[verifier::type_invariant]
    spec fn terminator_free(&self) -> bool {
        !has_nul(self.bytes@)
    }

    /// Converts a label, or says where its first terminator byte stands.
    pub fn new(label: &str) -> (r: Result<BackendString, NulError>)
        ensures
            match r {
                Ok(s) => representable(label@) && s@ == encode_utf8(label@),
                Err(e) => !representable(label@) && is_first_nul(
                    encode_utf8(label@),
                    e.position as int,
                ),
            },
    {
        let bytes = label.as_bytes();
        proof {
            lemma_nul_byte_iff_nul_char(label@);
        }
        let mut i: usize = 0;
        while i < bytes.len()
            invariant
                bytes@ == encode_utf8(label@),
                has_nul(bytes@) <==> !representable(label@),
                i <= bytes@.len(),
                forall|j: int| 0 <= j < i ==> bytes@[j] != 0u8,
            decreases bytes@.len() - i,
        {
            if bytes[i] == 0 {
                return Err(NulError { position: i });
            }
            i += 1;
        }
        Ok(BackendString { bytes: vstd::slice::slice_to_vec(bytes) })
    }

    /// The bytes of the label, without a terminator.
    pub fn as_bytes(&self) -> (r: &[u8])
        ensures
            r@ == self@,
            !has_nul(r@),
    {
        proof {
            use_type_invariant(self);
        }
        self.bytes.as_slice()
    }

    /// Number of bytes in the label.
    pub fn len(&self) -> (r: usize)
        ensures
            r == self@.len(),
    {
        self.bytes.len()
    }
}

} // verus!
