use vstd::prelude::*;
use crate::slot::{Slot, spec_decode, spec_encode};

verus! {

/// The trace model of the register in [`crate::holder`].
///
/// A run of the register is its seed `initial` (the word given to
/// `AtomicStaticRef::new`) followed by `writes`: the words handed to its
/// `store` and `swap` calls, one entry per call, in the order the calls took
/// effect. By the contracts of `new`, `store` and `swap`, the register's view
/// after such a run is exactly [`register_after`]; by the contract of `load`,
/// that view is exactly what any later `load` returns. The laws below are
/// stated over this model.
pub open spec fn register_after<W>(initial: W, writes: Seq<W>) -> W {
    if writes.len() == 0 {
        initial
    } else {
        writes.last()
    }
}

/// The words a run of `swap` calls hands back: by `swap`'s contract each call
/// returns the word the register held just before it, so a run with writes
/// w1..wn returns the seed followed by w1..w(n-1).
pub open spec fn swap_returns<W>(initial: W, writes: Seq<W>) -> Seq<W> {
    (seq![initial] + writes).drop_last()
}

/// Atomicity: whatever a `load` observes after any run is a whole word that
/// was actually put into the register — the seed or one of the written
/// words — never a torn or mixed value.
pub proof fn lemma_load_observes_a_stored_word<W>(initial: W, writes: Seq<W>)
    ensures
        register_after(initial, writes) == initial || writes.contains(
            register_after(initial, writes),
        ),
{
    if writes.len() > 0 {
        assert(writes[writes.len() - 1] == writes.last());
    }
}

/// Swap linearizability: over any run made entirely of `swap` calls, each
/// word ever put into the register is handed back as a "previous word" by
/// exactly one call, except the word written last, which alone stays behind
/// for `load`: the returned words plus the final word are, as a multiset,
/// exactly the seed plus the written words.
pub proof fn lemma_swap_linearizability<W>(initial: W, writes: Seq<W>)
    ensures
        swap_returns(initial, writes).to_multiset().insert(register_after(initial, writes))
            =~= (seq![initial] + writes).to_multiset(),
{
    broadcast use vstd::seq_lib::group_to_multiset_ensures;

    let all = seq![initial] + writes;
    assert(all.len() == 1 + writes.len());
    if writes.len() == 0 {
        assert(all.last() == initial);
    } else {
        assert(all.last() == writes[writes.len() - 1]);
    }
    assert(all.last() == register_after(initial, writes));
    assert(all =~= all.drop_last().push(all.last()));
    assert(all.drop_last().push(all.last()).to_multiset() =~= all.drop_last().to_multiset().insert(
        all.last(),
    ));
}

/// Read-your-write: a `load` that follows a `store` or `swap` of `value`,
/// with no later write in between, observes exactly `value` — whatever the
/// orderings chosen, since no contract of the register depends on them.
pub proof fn lemma_read_your_write<W>(initial: W, writes: Seq<W>, value: W)
    ensures
        register_after(initial, writes.push(value)) == value,
{
    assert(writes.push(value).last() == value);
}

/// Optional round-trip: for the optional holder, whose words are [`Slot`]
/// encodings, writing `None` and then loading yields `None`, and writing
/// `Some(x)` and then loading yields `Some(x)` with `x` unchanged.
pub proof fn lemma_optional_round_trip<T>(initial: Slot<T>, writes: Seq<Slot<T>>, value: Option<T>)
    ensures
        spec_decode(register_after(initial, writes.push(spec_encode(value)))) == value,
{
    lemma_read_your_write(initial, writes, spec_encode(value));
}

} // verus!
