use vstd::prelude::*;
use crate::cstr_value::{CStrValue, is_cstr_bytes};
use crate::holder::AtomicStaticRef;
use crate::ordering::MemoryOrdering;

verus! {

/// A holder for one always-present, immutable C string.
///
/// This is the non-optional instantiation of [`AtomicStaticRef`]: the
/// register always carries a real [`CStrValue`], never a sentinel, so every
/// read yields a valid string. The view is the current string's bytes,
/// terminator included.
#[derive(Debug)]
pub struct AtomicStaticCStr {
    inner: AtomicStaticRef<CStrValue>,
}

impl View for AtomicStaticCStr {
    type V = Seq<u8>;

    closed spec fn view(&self) -> Seq<u8> {
        self.inner@@
    }
}

impl AtomicStaticCStr {
    /// Construct the holder seeded with `initial`.
    pub fn new(initial: CStrValue) -> (holder: Self)
        ensures
            holder@ == initial@,
    {
        AtomicStaticCStr { inner: AtomicStaticRef::new(initial) }
    }

    /// Read the current string. Returns the whole string most recently put
    /// into the holder, always a well-formed C string.
    pub fn load(&self, ordering: MemoryOrdering) -> (current: &CStrValue)
        ensures
            current@ == self@,
            is_cstr_bytes(self@),
    {
        let current = self.inner.load(ordering);
        proof {
            use_type_invariant(current);
        }
        current
    }

    /// Overwrite the current string with `value`, discarding the previous
    /// string.
    pub fn store(&mut self, value: CStrValue, ordering: MemoryOrdering)
        ensures
            final(self)@ == value@,
    {
        self.inner.store(value, ordering);
    }

    /// Write `value` and return the previous string, as one indivisible
    /// read-and-replace step.
    pub fn swap(&mut self, value: CStrValue, ordering: MemoryOrdering) -> (previous: CStrValue)
        ensures
            previous@ == old(self)@,
            final(self)@ == value@,
    {
        self.inner.swap(value, ordering)
    }
}

} // verus!
