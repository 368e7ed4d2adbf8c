use vstd::prelude::*;
use crate::ordering::MemoryOrdering;

verus! {

/// The core holder: a single-cell register for one word of payload `W`.
///
/// The cell stands for a machine-word atomic slot: each operation reads or
/// replaces the whole word as one indivisible step, so a read can never
/// observe a torn or mixed value — the contracts say that `load` returns
/// exactly the word most recently put there by `new`, `store` or `swap`.
/// The register never owns more than the one current word; replacing it hands
/// the previous word back (`swap`) or discards it (`store`).
///
/// Every operation takes the caller's [`MemoryOrdering`]; the result is the
/// same for every choice (see [`crate::ordering`]).
#[derive(Debug)]
pub struct AtomicStaticRef<W> {
    word: W,
}

impl<W> View for AtomicStaticRef<W> {
    type V = W;

    closed spec fn view(&self) -> W {
        self.word
    }
}

impl<W> AtomicStaticRef<W> {
    /// Construct the register seeded with `initial`.
    pub fn new(initial: W) -> (holder: Self)
        ensures
            holder@ == initial,
    {
        AtomicStaticRef { word: initial }
    }

    /// Read the current word. Returns the most recently stored word, whole.
    pub fn load(&self, _ordering: MemoryOrdering) -> (current: &W)
        ensures
            *current == self@,
    {
        &self.word
    }

    /// Overwrite the current word with `value`, discarding the previous word.
    pub fn store(&mut self, value: W, _ordering: MemoryOrdering)
        ensures
            final(self)@ == value,
    {
        self.word = value;
    }

    /// Write `value` and return the previous word, as one indivisible
    /// read-and-replace step.
    pub fn swap(&mut self, value: W, _ordering: MemoryOrdering) -> (previous: W)
        ensures
            previous == old(self)@,
            final(self)@ == value,
    {
        let mut previous = value;
        core::mem::swap(&mut self.word, &mut previous);
        previous
    }
}

} // verus!
