use vstd::prelude::*;
use crate::holder::AtomicStaticRef;
use crate::location::Location;
use crate::ordering::MemoryOrdering;
use crate::slot::{Slot, decode, decode_ref, encode, spec_decode};

verus! {

/// A holder for an optional, immutable source location.
///
/// This is the optional instantiation of [`AtomicStaticRef`]: the register
/// word is a [`Slot`], whose `Absent` tag is the reserved sentinel encoding
/// of "no value". The view is the optional location the register currently
/// decodes to.
#[derive(Debug)]
pub struct AtomicStaticLocation {
    inner: AtomicStaticRef<Slot<Location>>,
}

impl View for AtomicStaticLocation {
    type V = Option<Location>;

    closed spec fn view(&self) -> Option<Location> {
        spec_decode(self.inner@)
    }
}

impl Default for AtomicStaticLocation {
    /// Construct an empty holder: the register starts on the sentinel.
    fn default() -> (holder: Self)
        ensures
            holder@ == Option::<Location>::None,
    {
        AtomicStaticLocation::new(Option::None)
    }
}

impl AtomicStaticLocation {
    /// Construct the holder seeded with `initial`; `None` seeds the
    /// sentinel.
    pub fn new(initial: Option<Location>) -> (holder: Self)
        ensures
            holder@ == initial,
    {
        AtomicStaticLocation { inner: AtomicStaticRef::new(encode(initial)) }
    }

    /// Read the current location. Returns `None` exactly when the register
    /// holds the sentinel, else the whole location most recently put into
    /// the holder.
    pub fn load(&self, ordering: MemoryOrdering) -> (current: Option<&Location>)
        ensures
            (match current {
                Option::Some(location) => self@ == Option::Some(*location),
                Option::None => self@ == Option::<Location>::None,
            }),
    {
        decode_ref(self.inner.load(ordering))
    }

    /// Overwrite the current location with `value`, discarding the previous
    /// one; `None` stores the sentinel.
    pub fn store(&mut self, value: Option<Location>, ordering: MemoryOrdering)
        ensures
            final(self)@ == value,
    {
        self.inner.store(encode(value), ordering);
    }

    /// Write `value` and return the previous location, as one indivisible
    /// read-and-replace step; `None` is returned exactly when the register
    /// held the sentinel.
    pub fn swap(&mut self, value: Option<Location>, ordering: MemoryOrdering) -> (previous: Option<
        Location,
    >)
        ensures
            previous == old(self)@,
            final(self)@ == value,
    {
        decode(self.inner.swap(encode(value), ordering))
    }
}

} // verus!
