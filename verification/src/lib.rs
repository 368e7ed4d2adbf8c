//! A holder for a single piece of rarely-changing, immutable data: a
//! "current value" register that can be read, overwritten, or exchanged as
//! one indivisible step, in the manner of an atomic pointer slot.
//!
//! The core is the generic single-cell register [`holder::AtomicStaticRef`].
//! Two instantiations are provided: [`atomic_static_cstr::AtomicStaticCStr`]
//! for a nul-terminated byte string, and
//! [`atomic_static_location::AtomicStaticLocation`] for an optional source
//! location, whose absent state is a reserved sentinel encoding
//! ([`slot::Slot::Absent`]) that no present value can collide with.

pub mod ordering;
pub mod holder;
pub mod slot;
pub mod cstr_value;
pub mod location;
pub mod atomic_static_cstr;
pub mod atomic_static_location;
pub mod laws;
