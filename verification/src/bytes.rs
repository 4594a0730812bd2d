//! Storage-unit (byte) length policy.
//!
//! Implemented by types for which the number of storage units — UTF-8 code
//! units for text, raw octets for byte buffers — can be retrieved. For text
//! this is the encoded byte length, not the number of Unicode scalar values:
//! a multi-byte scalar counts as several units.
//!
//! Reference-counted buffers (`Rc`, `Arc`) carry no adapter here: vstd gives
//! them no view of their unsized contents to state a measurement over.

use vstd::prelude::*;
use crate::{check_len, measured_outcome, Error};
use vstd::utf8::encode_utf8;
use std::borrow::Cow;

verus! {

/// Entry point for the byte policy: measure `v` in storage units and hold
/// the count to the inclusive bound `(min, max)`.
pub fn apply<T: Bytes>(v: &T, bound: (usize, usize)) -> (r: Result<(), Error>)
    ensures
        r == measured_outcome(v.byte_measure(), bound.0, bound.1),
{
    let (min, max) = bound;
    v.validate_num_bytes(min, max)
}

/// The byte policy. A value's measurement is `None` when the value is
/// absent (exempt from the check) and `Some(count)` when it measures
/// `count` storage units.
pub trait Bytes {
    /// What the byte policy measures on this value, if anything.
    spec fn byte_measure(&self) -> Option<usize>;

    /// Check this value's storage-unit count against the inclusive bound.
    fn validate_num_bytes(&self, min: usize, max: usize) -> (r: Result<(), Error>)
        ensures
            r == measured_outcome(self.byte_measure(), min, max),
    ;
}

/// A type that can report its storage-unit count directly.
pub trait HasBytes {
    /// The storage-unit count of this value.
    spec fn spec_num_bytes(&self) -> usize;

    /// Retrieve the storage-unit count.
    fn num_bytes(&self) -> (n: usize)
        ensures
            n == self.spec_num_bytes(),
    ;
}

impl<T: HasBytes> Bytes for T {
    open spec fn byte_measure(&self) -> Option<usize> {
        Some(self.spec_num_bytes())
    }

    fn validate_num_bytes(&self, min: usize, max: usize) -> (r: Result<(), Error>) {
        check_len(self.num_bytes(), min, max)
    }
}

impl<T: Bytes> Bytes for Option<T> {
    open spec fn byte_measure(&self) -> Option<usize> {
        match self {
            Some(v) => v.byte_measure(),
            None => None,
        }
    }

    fn validate_num_bytes(&self, min: usize, max: usize) -> (r: Result<(), Error>) {
        match self {
            Some(v) => v.validate_num_bytes(min, max),
            None => Ok(()),
        }
    }
}

/// Absence is policy-exempt: an absent optional value passes the byte
/// policy for every bound, even one that no measured count could satisfy.
pub proof fn lemma_absent_passes_bytes<T: Bytes>(min: usize, max: usize)
    ensures
        measured_outcome(Option::<T>::None.byte_measure(), min, max) == Ok::<(), Error>(()),
{
}

/// Presence delegates: a present optional value's outcome under the byte
/// policy equals the inner value's outcome, for every value and bound.
pub proof fn lemma_present_delegates_bytes<T: Bytes>(v: T, min: usize, max: usize)
    ensures
        measured_outcome(Some(v).byte_measure(), min, max) == measured_outcome(
            v.byte_measure(),
            min,
            max,
        ),
{
}

impl HasBytes for String {
    open spec fn spec_num_bytes(&self) -> usize {
        encode_utf8(self@).len() as usize
    }

    fn num_bytes(&self) -> (n: usize) {
        self.as_str().len()
    }
}

impl<'a> HasBytes for &'a String {
    open spec fn spec_num_bytes(&self) -> usize {
        encode_utf8(self@).len() as usize
    }

    fn num_bytes(&self) -> (n: usize) {
        self.as_str().len()
    }
}

impl<'a> HasBytes for &'a str {
    open spec fn spec_num_bytes(&self) -> usize {
        encode_utf8(self@).len() as usize
    }

    fn num_bytes(&self) -> (n: usize) {
        self.len()
    }
}

impl<'a> HasBytes for Cow<'a, str> {
    open spec fn spec_num_bytes(&self) -> usize {
        encode_utf8(self@).len() as usize
    }

    fn num_bytes(&self) -> (n: usize) {
        match self {
            Cow::Borrowed(s) => s.len(),
            Cow::Owned(s) => s.as_str().len(),
        }
    }
}

impl HasBytes for Box<str> {
    open spec fn spec_num_bytes(&self) -> usize {
        encode_utf8(self@).len() as usize
    }

    fn num_bytes(&self) -> (n: usize) {
        self.len()
    }
}

impl HasBytes for Box<[u8]> {
    open spec fn spec_num_bytes(&self) -> usize {
        self@.len() as usize
    }

    fn num_bytes(&self) -> (n: usize) {
        self.len()
    }
}

impl HasBytes for Vec<u8> {
    open spec fn spec_num_bytes(&self) -> usize {
        self@.len() as usize
    }

    fn num_bytes(&self) -> (n: usize) {
        self.len()
    }
}

impl<'a> HasBytes for &'a [u8] {
    open spec fn spec_num_bytes(&self) -> usize {
        self@.len() as usize
    }

    fn num_bytes(&self) -> (n: usize) {
        self.len()
    }
}

impl<const N: usize> HasBytes for [u8; N] {
    open spec fn spec_num_bytes(&self) -> usize {
        N
    }

    fn num_bytes(&self) -> (n: usize) {
        proof {
            broadcast use vstd::array::array_len_matches_n;

        }
        self.as_slice().len()
    }
}

} // verus!
