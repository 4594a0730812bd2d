//! Length-bounded validation for string-like and sequence-like values.
//!
//! A value's "length" is measured under one of three policies — storage-unit
//! (byte) count, Unicode scalar count, or a type-intrinsic element count —
//! and the measured count is checked against an inclusive `[min, max]` bound.
//! An absent optional value passes every policy without being measured.

use vstd::prelude::*;

pub mod bytes;
pub mod chars;
pub mod simple;

verus! {

/// A range violation: the measured count lies outside the inclusive
/// `[min, max]` bound. Carries the bound and the offending count so a
/// caller can render a message such as "expected length between `min`
/// and `max`, got `actual`".
#[derive(Clone, Copy, Debug, PartialEq, Eq, Structural)]
pub struct Error {
    pub min: usize,
    pub max: usize,
    pub actual: usize,
}

/// The outcome of checking a measured count against an inclusive bound:
/// success exactly when `min <= count <= max`, and otherwise a failure
/// recording the bound and the count.
pub open spec fn len_outcome(count: usize, min: usize, max: usize) -> Result<(), Error> {
    if min <= count && count <= max {
        Ok(())
    } else {
        Err((Error { min, max, actual: count }))
    }
}

/// The outcome of a whole validation call: an absent value (`None`
/// measurement) passes unconditionally; a present measurement is held to
/// the bound by `len_outcome`.
pub open spec fn measured_outcome(measure: Option<usize>, min: usize, max: usize) -> Result<
    (),
    Error,
> {
    match measure {
        Some(count) => len_outcome(count, min, max),
        None => Ok(()),
    }
}

/// The terminal range check shared by every policy. Both ends of the bound
/// are inclusive, and no ordering of `min` and `max` is required: with
/// `min > max` every count fails, which is a failure value, not a panic.
pub fn check_len(count: usize, min: usize, max: usize) -> (r: Result<(), Error>)
    ensures
        r == len_outcome(count, min, max),
{
    if min <= count && count <= max {
        Ok(())
    } else {
        Err(Error { min, max, actual: count })
    }
}

/// Both bound ends are inclusive: any count with `min <= count <= max`,
/// the endpoints included, passes the range check.
pub proof fn lemma_bounds_inclusive(count: usize, min: usize, max: usize)
    requires
        min <= count,
        count <= max,
    ensures
        len_outcome(count, min, max) == Ok::<(), Error>(()),
{
}

/// An empty range rejects everything: with `min > max` no count — zero
/// included — can pass the range check.
pub proof fn lemma_empty_range_rejects(count: usize, min: usize, max: usize)
    requires
        min > max,
    ensures
        len_outcome(count, min, max) == Err::<(), Error>((Error { min, max, actual: count })),
{
}

} // verus!
