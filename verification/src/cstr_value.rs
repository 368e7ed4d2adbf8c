use vstd::prelude::*;

verus! {

/// The shape of a well-formed C string: at least the terminator, the last
/// byte is nul, and no byte before the terminator is nul.
pub open spec fn is_cstr_bytes(bytes: Seq<u8>) -> bool {
    &&& bytes.len() >= 1
    &&& bytes.last() == 0u8
    &&& forall|i: int| 0 <= i < bytes.len() - 1 ==> bytes[i] != 0u8
}

/// An immutable nul-terminated byte string: the textual payload held by
/// [`crate::atomic_static_cstr::AtomicStaticCStr`].
///
/// The view is the full byte sequence, terminator included; every value of
/// this type satisfies [`is_cstr_bytes`] of its view, which
/// [`Self::from_bytes_with_nul`] checks once on construction.
#[derive(Debug)]
pub struct CStrValue {
    bytes: Vec<u8>,
}

impl View for CStrValue {
    type V = Seq<u8>;

    closed spec fn view(&self) -> Seq<u8> {
        self.bytes@
    }
}

impl CStrValue {
    /// Every constructed `CStrValue` is a well-formed C string; Verus
    /// checks this at every construction and grants it at every use.
    #[verifier::type_invariant]
    pub open spec fn well_formed(self) -> bool {
        is_cstr_bytes(self@)
    }

    /// Build a `CStrValue` from a byte vector that must already carry its
    /// nul terminator. Returns `None` exactly when the bytes are not a
    /// well-formed C string: empty, not ending in nul, or holding an
    /// interior nul.
    pub fn from_bytes_with_nul(bytes: Vec<u8>) -> (result: Option<CStrValue>)
        ensures
            result is Some <==> is_cstr_bytes(bytes@),
            (match result {
                Option::Some(value) => value@ == bytes@,
                Option::None => true,
            }),
    {
        if bytes.len() == 0 {
            return Option::None;
        }
        if bytes[bytes.len() - 1] != 0u8 {
            return Option::None;
        }
        let mut i: usize = 0;
        while i < bytes.len() - 1
            invariant
                bytes@.len() >= 1,
                i <= bytes@.len() - 1,
                bytes@.last() == 0u8,
                forall|j: int| 0 <= j < i ==> bytes@[j] != 0u8,
            decreases bytes@.len() - 1 - i,
        {
            if bytes[i] == 0u8 {
                return Option::None;
            }
            i = i + 1;
        }
        Option::Some(CStrValue { bytes })
    }

    /// The stored bytes, terminator included. The result always satisfies
    /// [`is_cstr_bytes`]: the invariant established on construction.
    pub fn as_bytes_with_nul(&self) -> (bytes: &Vec<u8>)
        ensures
            bytes@ == self@,
            is_cstr_bytes(self@),
    {
        proof {
            use_type_invariant(self);
        }
        &self.bytes
    }
}

} // verus!
