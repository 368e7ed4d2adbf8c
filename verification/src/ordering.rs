use vstd::prelude::*;

verus! {

/// The memory-ordering constraint that a caller selects for one access to the
/// holder. The holder imposes no ordering of its own: every operation takes
/// the caller's choice as an argument and its result is the same for every
/// choice, which the contracts show by never mentioning it. The register is
/// specified sequentially, so atomicity of the single cell is what every
/// ordering guarantees; the stronger orderings only add cross-thread
/// visibility constraints that lie outside the register's own semantics.
#[derive(Clone, Copy, PartialEq, Eq, Structural, Debug)]
pub enum MemoryOrdering {
    Relaxed,
    Acquire,
    Release,
    AcqRel,
    SeqCst,
}

} // verus!
