//! Type-intrinsic length policy.
//!
//! The meaning of "length" depends on the type family: for text types it is
//! the storage-unit (byte) count — the same measurement as the byte policy,
//! chosen as the low-cost default over the scalar count — and for ordered
//! and sequential collections it is the element count.
//!
//! Hash-based maps and sets are deliberately not given this policy: their
//! iteration order is unstable, so the policy covers ordered collections
//! only. Linked lists and priority heaps carry no adapter here: vstd gives
//! them no length specification to verify a measurement against.

use vstd::prelude::*;
use vstd::utf8::encode_utf8;
use crate::{check_len, measured_outcome, Error};
use crate::chars::Chars;
use std::collections::{BTreeMap, BTreeSet, VecDeque};
use std::borrow::Cow;

verus! {

/// Entry point for the simple-length policy: measure `v` by its intrinsic
/// length and hold the count to the inclusive bound `(min, max)`.
pub fn apply<T: Simple>(v: &T, bound: (usize, usize)) -> (r: Result<(), Error>)
    ensures
        r == measured_outcome(v.length_measure(), bound.0, bound.1),
{
    let (min, max) = bound;
    v.validate_length(min, max)
}

/// The simple-length policy. A value's measurement is `None` when the value
/// is absent (exempt from the check) and `Some(count)` when its intrinsic
/// length is `count`.
pub trait Simple {
    /// What the simple-length policy measures on this value, if anything.
    spec fn length_measure(&self) -> Option<usize>;

    /// Check this value's intrinsic length against the inclusive bound.
    fn validate_length(&self, min: usize, max: usize) -> (r: Result<(), Error>)
        ensures
            r == measured_outcome(self.length_measure(), min, max),
    ;
}

/// A type with a known intrinsic length.
pub trait HasSimpleLength {
    /// The intrinsic length of this value.
    spec fn spec_length(&self) -> usize;

    /// Retrieve the intrinsic length.
    fn length(&self) -> (n: usize)
        ensures
            n == self.spec_length(),
    ;
}

impl<T: HasSimpleLength> Simple for T {
    open spec fn length_measure(&self) -> Option<usize> {
        Some(self.spec_length())
    }

    fn validate_length(&self, min: usize, max: usize) -> (r: Result<(), Error>) {
        check_len(self.length(), min, max)
    }
}

impl<T: Simple> Simple for Option<T> {
    open spec fn length_measure(&self) -> Option<usize> {
        match self {
            Some(v) => v.length_measure(),
            None => None,
        }
    }

    fn validate_length(&self, min: usize, max: usize) -> (r: Result<(), Error>) {
        match self {
            Some(v) => v.validate_length(min, max),
            None => Ok(()),
        }
    }
}

/// Absence is policy-exempt: an absent optional value passes the
/// simple-length policy for every bound, even one that no measured count
/// could satisfy.
pub proof fn lemma_absent_passes_simple<T: Simple>(min: usize, max: usize)
    ensures
        measured_outcome(Option::<T>::None.length_measure(), min, max) == Ok::<(), Error>(()),
{
}

/// Presence delegates: a present optional value's outcome under the
/// simple-length policy equals the inner value's outcome, for every value
/// and bound.
pub proof fn lemma_present_delegates_simple<T: Simple>(v: T, min: usize, max: usize)
    ensures
        measured_outcome(Some(v).length_measure(), min, max) == measured_outcome(
            v.length_measure(),
            min,
            max,
        ),
{
}

/// Sequence consistency: a resizable sequence of `n` scalar elements
/// measures `n` under both the scalar policy and the simple-length policy —
/// no decoding enters either measurement.
pub proof fn lemma_sequence_measures_agree_vec(v: Vec<char>)
    ensures
        v.char_measure() == Some((v@.len() as usize)),
        v.length_measure() == Some((v@.len() as usize)),
{
}

/// Sequence consistency for a borrowed slice of `n` scalar elements: both
/// the scalar policy and the simple-length policy measure `n`.
pub proof fn lemma_sequence_measures_agree_slice(v: &[char])
    ensures
        v.char_measure() == Some((v@.len() as usize)),
        v.length_measure() == Some((v@.len() as usize)),
{
}

/// Sequence consistency for a fixed-size array of `n` scalar elements:
/// both the scalar policy and the simple-length policy measure `n`.
pub proof fn lemma_sequence_measures_agree_array<const N: usize>(v: [char; N])
    ensures
        v.char_measure() == Some(N),
        v.length_measure() == Some(N),
{
}

/// An ordered map whose key comparison obeys its specification measures
/// the cardinality of its view under the simple-length policy: one unit
/// per entry, exactly.
pub proof fn lemma_ordered_map_measures_entries<K, V>(m: &BTreeMap<K, V>)
    requires
        vstd::std_specs::btree::key_obeys_cmp_spec::<K>(),
    ensures
        m.length_measure() == Some((m@.len() as usize)),
{
    broadcast use vstd::std_specs::btree::axiom_spec_btree_map_len;

}

/// An ordered set whose key comparison obeys its specification measures
/// the cardinality of its view under the simple-length policy: one unit
/// per element, exactly.
pub proof fn lemma_ordered_set_measures_elements<K>(s: &BTreeSet<K>)
    requires
        vstd::std_specs::btree::key_obeys_cmp_spec::<K>(),
    ensures
        s.length_measure() == Some((s@.len() as usize)),
{
    broadcast use vstd::std_specs::btree::axiom_spec_btree_set_len;

}

impl HasSimpleLength for String {
    open spec fn spec_length(&self) -> usize {
        encode_utf8(self@).len() as usize
    }

    fn length(&self) -> (n: usize) {
        self.as_str().len()
    }
}

impl<'a> HasSimpleLength for &'a String {
    open spec fn spec_length(&self) -> usize {
        encode_utf8(self@).len() as usize
    }

    fn length(&self) -> (n: usize) {
        self.as_str().len()
    }
}

impl<'a> HasSimpleLength for &'a str {
    open spec fn spec_length(&self) -> usize {
        encode_utf8(self@).len() as usize
    }

    fn length(&self) -> (n: usize) {
        self.len()
    }
}

impl<'a> HasSimpleLength for Cow<'a, str> {
    open spec fn spec_length(&self) -> usize {
        encode_utf8(self@).len() as usize
    }

    fn length(&self) -> (n: usize) {
        match self {
            Cow::Borrowed(s) => s.len(),
            Cow::Owned(s) => s.as_str().len(),
        }
    }
}

impl HasSimpleLength for Box<str> {
    open spec fn spec_length(&self) -> usize {
        encode_utf8(self@).len() as usize
    }

    fn length(&self) -> (n: usize) {
        self.len()
    }
}

impl<T> HasSimpleLength for Vec<T> {
    open spec fn spec_length(&self) -> usize {
        self@.len() as usize
    }

    fn length(&self) -> (n: usize) {
        self.len()
    }
}

impl<'a, T> HasSimpleLength for &'a Vec<T> {
    open spec fn spec_length(&self) -> usize {
        self@.len() as usize
    }

    fn length(&self) -> (n: usize) {
        self.len()
    }
}

impl<'a, T> HasSimpleLength for &'a [T] {
    open spec fn spec_length(&self) -> usize {
        self@.len() as usize
    }

    fn length(&self) -> (n: usize) {
        self.len()
    }
}

impl<T, const N: usize> HasSimpleLength for [T; N] {
    open spec fn spec_length(&self) -> usize {
        N
    }

    fn length(&self) -> (n: usize) {
        proof {
            broadcast use vstd::array::array_len_matches_n;

        }
        self.as_slice().len()
    }
}

impl<'a, T, const N: usize> HasSimpleLength for &'a [T; N] {
    open spec fn spec_length(&self) -> usize {
        N
    }

    fn length(&self) -> (n: usize) {
        proof {
            broadcast use vstd::array::array_len_matches_n;

        }
        self.as_slice().len()
    }
}

impl<T> HasSimpleLength for VecDeque<T> {
    open spec fn spec_length(&self) -> usize {
        self@.len() as usize
    }

    fn length(&self) -> (n: usize) {
        proof {
            broadcast use vstd::std_specs::vecdeque::axiom_spec_len;

        }
        self.len()
    }
}

impl<'a, T> HasSimpleLength for &'a VecDeque<T> {
    open spec fn spec_length(&self) -> usize {
        self@.len() as usize
    }

    fn length(&self) -> (n: usize) {
        proof {
            broadcast use vstd::std_specs::vecdeque::axiom_spec_len;

        }
        self.len()
    }
}

impl<K, V> HasSimpleLength for BTreeMap<K, V> {
    open spec fn spec_length(&self) -> usize {
        vstd::std_specs::btree::spec_btree_map_len(self)
    }

    fn length(&self) -> (n: usize) {
        self.len()
    }
}

impl<'a, K, V> HasSimpleLength for &'a BTreeMap<K, V> {
    open spec fn spec_length(&self) -> usize {
        vstd::std_specs::btree::spec_btree_map_len(self)
    }

    fn length(&self) -> (n: usize) {
        self.len()
    }
}

impl<K> HasSimpleLength for BTreeSet<K> {
    open spec fn spec_length(&self) -> usize {
        vstd::std_specs::btree::spec_btree_set_len(self)
    }

    fn length(&self) -> (n: usize) {
        self.len()
    }
}

impl<'a, K> HasSimpleLength for &'a BTreeSet<K> {
    open spec fn spec_length(&self) -> usize {
        vstd::std_specs::btree::spec_btree_set_len(self)
    }

    fn length(&self) -> (n: usize) {
        self.len()
    }
}

} // verus!
