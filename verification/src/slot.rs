use vstd::prelude::*;

verus! {

/// The encoding of an optional payload into a single register word.
///
/// An atomic pointer slot represents "no value" as a reserved sentinel
/// address (the null encoding) that no real value's address can equal. Here
/// the same role is played by a dedicated tag: `Absent` is the sentinel word,
/// `Present(t)` carries a real value, and the two can never coincide
/// ([`lemma_sentinel_never_a_value`]).
#[derive(Debug)]
pub enum Slot<T> {
    /// The sentinel word: no value is stored.
    Absent,
    /// A real stored value.
    Present(T),
}

/// What an optional payload looks like once encoded into a register word.
pub open spec fn spec_encode<T>(value: Option<T>) -> Slot<T> {
    match value {
        Option::None => Slot::Absent,
        Option::Some(t) => Slot::Present(t),
    }
}

/// What a register word decodes back to.
pub open spec fn spec_decode<T>(slot: Slot<T>) -> Option<T> {
    match slot {
        Slot::Absent => Option::None,
        Slot::Present(t) => Option::Some(t),
    }
}

/// Encode an optional payload into a register word.
pub fn encode<T>(value: Option<T>) -> (slot: Slot<T>)
    ensures
        slot == spec_encode(value),
{
    match value {
        Option::None => Slot::Absent,
        Option::Some(t) => Slot::Present(t),
    }
}

/// Decode a register word back into an optional payload.
pub fn decode<T>(slot: Slot<T>) -> (value: Option<T>)
    ensures
        value == spec_decode(slot),
{
    match slot {
        Slot::Absent => Option::None,
        Slot::Present(t) => Option::Some(t),
    }
}

/// Decode a borrowed register word without taking it out of the register.
pub fn decode_ref<T>(slot: &Slot<T>) -> (value: Option<&T>)
    ensures
        (match value {
            Option::Some(t) => *slot == Slot::Present(*t),
            Option::None => *slot == Slot::Absent::<T>,
        }),
{
    match slot {
        Slot::Absent => Option::None,
        Slot::Present(t) => Option::Some(t),
    }
}

/// The sentinel never leaks as a real value, and no real value is mistaken
/// for the sentinel: the absent encoding differs from the encoding of every
/// present value.
pub proof fn lemma_sentinel_never_a_value<T>()
    ensures
        forall|t: T| Slot::Present(t) != Slot::Absent::<T>,
        forall|t: T| spec_encode(Option::Some(t)) != spec_encode(Option::<T>::None),
{
}

/// Round trip of the optional encoding: encoding an absent or present payload
/// and decoding it again yields the payload unchanged, and re-encoding a
/// decoded word yields the word unchanged.
pub proof fn lemma_encode_decode_round_trip<T>(value: Option<T>, slot: Slot<T>)
    ensures
        spec_decode(spec_encode(value)) == value,
        spec_encode(spec_decode(slot)) == slot,
{
}

} // verus!
