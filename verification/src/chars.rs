//! Unicode scalar count policy.
//!
//! Implemented by string-like types for which the number of Unicode scalar
//! values can be retrieved, and by sequences whose elements already are
//! individual scalar values. For text this is the decoded scalar count —
//! distinct from the byte policy whenever the text holds a multi-byte
//! scalar — and costs a full decode pass; for a sequence of `char` it is
//! simply the element count.

use vstd::prelude::*;
use vstd::string::StrSliceExecFns;
use vstd::utf8::{encode_scalar, encode_utf8};
use crate::{check_len, measured_outcome, Error};
use crate::bytes::Bytes;
use std::borrow::Cow;

verus! {

/// Entry point for the scalar policy: measure `v` in Unicode scalar values
/// and hold the count to the inclusive bound `(min, max)`.
pub fn apply<T: Chars>(v: &T, bound: (usize, usize)) -> (r: Result<(), Error>)
    ensures
        r == measured_outcome(v.char_measure(), bound.0, bound.1),
{
    let (min, max) = bound;
    v.validate_num_chars(min, max)
}

/// The scalar policy. A value's measurement is `None` when the value is
/// absent (exempt from the check) and `Some(count)` when it decodes to
/// `count` Unicode scalar values.
pub trait Chars {
    /// What the scalar policy measures on this value, if anything.
    spec fn char_measure(&self) -> Option<usize>;

    /// Check this value's scalar count against the inclusive bound.
    fn validate_num_chars(&self, min: usize, max: usize) -> (r: Result<(), Error>)
        ensures
            r == measured_outcome(self.char_measure(), min, max),
    ;
}

/// A type that can report its Unicode scalar count directly.
pub trait HasChars {
    /// The Unicode scalar count of this value.
    spec fn spec_num_chars(&self) -> usize;

    /// Retrieve the Unicode scalar count.
    fn num_chars(&self) -> (n: usize)
        ensures
            n == self.spec_num_chars(),
    ;
}

impl<T: HasChars> Chars for T {
    open spec fn char_measure(&self) -> Option<usize> {
        Some(self.spec_num_chars())
    }

    fn validate_num_chars(&self, min: usize, max: usize) -> (r: Result<(), Error>) {
        check_len(self.num_chars(), min, max)
    }
}

impl<T: Chars> Chars for Option<T> {
    open spec fn char_measure(&self) -> Option<usize> {
        match self {
            Some(v) => v.char_measure(),
            None => None,
        }
    }

    fn validate_num_chars(&self, min: usize, max: usize) -> (r: Result<(), Error>) {
        match self {
            Some(v) => v.validate_num_chars(min, max),
            None => Ok(()),
        }
    }
}

/// Absence is policy-exempt: an absent optional value passes the scalar
/// policy for every bound, even one that no measured count could satisfy.
pub proof fn lemma_absent_passes_chars<T: Chars>(min: usize, max: usize)
    ensures
        measured_outcome(Option::<T>::None.char_measure(), min, max) == Ok::<(), Error>(()),
{
}

/// Presence delegates: a present optional value's outcome under the scalar
/// policy equals the inner value's outcome, for every value and bound.
pub proof fn lemma_present_delegates_chars<T: Chars>(v: T, min: usize, max: usize)
    ensures
        measured_outcome(Some(v).char_measure(), min, max) == measured_outcome(
            v.char_measure(),
            min,
            max,
        ),
{
}

/// A Unicode scalar never encodes to fewer than one storage unit, so a
/// text's scalar count is at most its storage-unit count: the byte policy
/// can never measure less than the scalar policy on the same text.
pub proof fn lemma_scalar_count_le_storage_units(s: Seq<char>)
    ensures
        s.len() <= encode_utf8(s).len(),
    decreases s.len(),
{
    if s.len() > 0 {
        lemma_scalar_count_le_storage_units(s.drop_first());
        assert(encode_scalar(s[0] as u32).len() >= 1);
    }
}

/// A text holding at least one multi-unit-encoded scalar has strictly more
/// storage units than scalar values.
pub proof fn lemma_multibyte_scalar_diverges(s: Seq<char>)
    requires
        exists|i: int| 0 <= i < s.len() && encode_scalar(s[i] as u32).len() > 1,
    ensures
        s.len() < encode_utf8(s).len(),
    decreases s.len(),
{
    let i = choose|i: int| 0 <= i < s.len() && encode_scalar(s[i] as u32).len() > 1;
    if i == 0 {
        lemma_scalar_count_le_storage_units(s.drop_first());
    } else {
        assert(0 <= i - 1 < s.drop_first().len() && encode_scalar(
            s.drop_first()[i - 1] as u32,
        ).len() > 1);
        lemma_multibyte_scalar_diverges(s.drop_first());
        assert(encode_scalar(s[0] as u32).len() >= 1);
    }
}

/// On a text with at least one multi-unit scalar the two text policies can
/// disagree: with the scalar count itself as both ends of the bound, the
/// scalar policy accepts the text while the byte policy rejects it.
pub proof fn lemma_policies_diverge_on_multibyte(s: String)
    requires
        exists|i: int| 0 <= i < s@.len() && encode_scalar(s@[i] as u32).len() > 1,
        encode_utf8(s@).len() <= usize::MAX,
    ensures
        measured_outcome(s.char_measure(), s@.len() as usize, s@.len() as usize) == Ok::<
            (),
            Error,
        >(()),
        measured_outcome(s.byte_measure(), s@.len() as usize, s@.len() as usize) is Err,
{
    lemma_multibyte_scalar_diverges(s@);
}

impl HasChars for String {
    open spec fn spec_num_chars(&self) -> usize {
        self@.len() as usize
    }

    fn num_chars(&self) -> (n: usize) {
        self.as_str().unicode_len()
    }
}

impl<'a> HasChars for &'a String {
    open spec fn spec_num_chars(&self) -> usize {
        self@.len() as usize
    }

    fn num_chars(&self) -> (n: usize) {
        self.as_str().unicode_len()
    }
}

impl<'a> HasChars for &'a str {
    open spec fn spec_num_chars(&self) -> usize {
        self@.len() as usize
    }

    fn num_chars(&self) -> (n: usize) {
        self.unicode_len()
    }
}

impl<'a> HasChars for Cow<'a, str> {
    open spec fn spec_num_chars(&self) -> usize {
        self@.len() as usize
    }

    fn num_chars(&self) -> (n: usize) {
        match self {
            Cow::Borrowed(s) => s.unicode_len(),
            Cow::Owned(s) => s.as_str().unicode_len(),
        }
    }
}

impl HasChars for Box<str> {
    open spec fn spec_num_chars(&self) -> usize {
        self@.len() as usize
    }

    fn num_chars(&self) -> (n: usize) {
        self.unicode_len()
    }
}

impl HasChars for Box<[char]> {
    open spec fn spec_num_chars(&self) -> usize {
        self@.len() as usize
    }

    fn num_chars(&self) -> (n: usize) {
        self.len()
    }
}

impl HasChars for Vec<char> {
    open spec fn spec_num_chars(&self) -> usize {
        self@.len() as usize
    }

    fn num_chars(&self) -> (n: usize) {
        self.len()
    }
}

impl<'a> HasChars for &'a [char] {
    open spec fn spec_num_chars(&self) -> usize {
        self@.len() as usize
    }

    fn num_chars(&self) -> (n: usize) {
        self.len()
    }
}

impl<const N: usize> HasChars for [char; N] {
    open spec fn spec_num_chars(&self) -> usize {
        N
    }

    fn num_chars(&self) -> (n: usize) {
        proof {
            broadcast use vstd::array::array_len_matches_n;

        }
        self.as_slice().len()
    }
}

} // verus!
