use length_rules::bytes;
use length_rules::chars;
use length_rules::simple;
use length_rules::bytes::Bytes;
use length_rules::chars::Chars;
use length_rules::simple::Simple;
use length_rules::{check_len, Error};
use std::borrow::Cow;
use std::collections::{BTreeMap, BTreeSet, VecDeque};

#[test]
fn range_check_accepts_inclusive_endpoints() {
    assert_eq!(check_len(1, 1, 3), Ok(()));
    assert_eq!(check_len(2, 1, 3), Ok(()));
    assert_eq!(check_len(3, 1, 3), Ok(()));
    assert_eq!(check_len(2, 2, 2), Ok(()));
    assert_eq!(check_len(0, 0, 0), Ok(()));
}

#[test]
fn range_check_reports_bound_and_count() {
    assert_eq!(
        check_len(0, 1, 3),
        Err(Error {
            min: 1,
            max: 3,
            actual: 0
        })
    );
    assert_eq!(
        check_len(4, 1, 3),
        Err(Error {
            min: 1,
            max: 3,
            actual: 4
        })
    );
}

#[test]
fn empty_range_rejects_every_count() {
    assert_eq!(
        check_len(0, 5, 2),
        Err(Error {
            min: 5,
            max: 2,
            actual: 0
        })
    );
    assert_eq!(
        check_len(3, 5, 2),
        Err(Error {
            min: 5,
            max: 2,
            actual: 3
        })
    );
    assert_eq!(
        check_len(usize::MAX, 5, 2),
        Err(Error {
            min: 5,
            max: 2,
            actual: usize::MAX
        })
    );
}

#[test]
fn byte_policy_counts_storage_units_of_text() {
    // One scalar encoded as four storage units.
    let clef = String::from("\u{1D11E}");
    assert_eq!(
        bytes::apply(&clef, (1, 3)),
        Err(Error {
            min: 1,
            max: 3,
            actual: 4
        })
    );
    assert_eq!(bytes::apply(&clef, (1, 4)), Ok(()));
}

#[test]
fn scalar_policy_counts_decoded_scalars_of_text() {
    let clef = String::from("\u{1D11E}");
    assert_eq!(chars::apply(&clef, (1, 1)), Ok(()));
    let mixed = String::from("h\u{e9}llo");
    assert_eq!(chars::apply(&mixed, (5, 5)), Ok(()));
    assert_eq!(
        bytes::apply(&mixed, (5, 5)),
        Err(Error {
            min: 5,
            max: 5,
            actual: 6
        })
    );
}

#[test]
fn byte_policy_on_borrowed_text() {
    assert_eq!(bytes::apply(&"abc", (3, 3)), Ok(()));
    assert_eq!(
        bytes::apply(&"", (1, 9)),
        Err(Error {
            min: 1,
            max: 9,
            actual: 0
        })
    );
    let owned = String::from("abcd");
    assert_eq!(bytes::apply(&&owned, (4, 4)), Ok(()));
}

#[test]
fn byte_policy_on_byte_buffers() {
    let v: Vec<u8> = vec![10, 20, 30];
    assert_eq!(bytes::apply(&v, (3, 3)), Ok(()));
    let s: &[u8] = &v[..];
    assert_eq!(bytes::apply(&s, (0, 2)), Err(Error { min: 0, max: 2, actual: 3 }));
    let a: [u8; 5] = [1, 2, 3, 4, 5];
    assert_eq!(bytes::apply(&a, (5, 5)), Ok(()));
}

#[test]
fn scalar_policy_on_scalar_sequences() {
    let v: Vec<char> = vec!['a', '\u{e9}', 'z'];
    assert_eq!(chars::apply(&v, (3, 3)), Ok(()));
    let s: &[char] = &v[..];
    assert_eq!(chars::apply(&s, (4, 9)), Err(Error { min: 4, max: 9, actual: 3 }));
    let a: [char; 2] = ['\u{1D11E}', 'x'];
    assert_eq!(chars::apply(&a, (2, 2)), Ok(()));
}

#[test]
fn simple_policy_on_text_uses_storage_units() {
    // Intrinsic length of text is its byte count, not its scalar count.
    let mixed = String::from("h\u{e9}llo");
    assert_eq!(simple::apply(&mixed, (6, 6)), Ok(()));
    assert_eq!(
        simple::apply(&mixed, (5, 5)),
        Err(Error {
            min: 5,
            max: 5,
            actual: 6
        })
    );
    assert_eq!(simple::apply(&"h\u{e9}llo", (6, 6)), Ok(()));
}

#[test]
fn simple_policy_on_ordered_sequence_of_five() {
    let v: Vec<i64> = vec![1, 2, 3, 4, 5];
    assert_eq!(simple::apply(&v, (5, 5)), Ok(()));
    assert_eq!(
        simple::apply(&v, (0, 4)),
        Err(Error {
            min: 0,
            max: 4,
            actual: 5
        })
    );
}

#[test]
fn simple_policy_on_arrays_and_slices() {
    let a: [u32; 4] = [9, 8, 7, 6];
    assert_eq!(simple::apply(&a, (4, 4)), Ok(()));
    assert_eq!(simple::apply(&&a, (4, 4)), Ok(()));
    let s: &[u32] = &a[..];
    assert_eq!(simple::apply(&s, (5, 8)), Err(Error { min: 5, max: 8, actual: 4 }));
}

#[test]
fn simple_policy_on_ordered_collections() {
    let mut dq: VecDeque<u8> = VecDeque::new();
    dq.push_back(1);
    dq.push_back(2);
    assert_eq!(simple::apply(&dq, (2, 2)), Ok(()));

    let mut m: BTreeMap<u32, u32> = BTreeMap::new();
    m.insert(1, 10);
    m.insert(2, 20);
    m.insert(3, 30);
    assert_eq!(simple::apply(&m, (3, 3)), Ok(()));
    assert_eq!(simple::apply(&m, (4, 9)), Err(Error { min: 4, max: 9, actual: 3 }));

    let mut st: BTreeSet<u32> = BTreeSet::new();
    st.insert(7);
    assert_eq!(simple::apply(&st, (1, 1)), Ok(()));
    assert_eq!(simple::apply(&st, (2, 2)), Err(Error { min: 2, max: 2, actual: 1 }));
}

#[test]
fn absent_optional_passes_every_policy() {
    let none_text: Option<String> = None;
    assert_eq!(bytes::apply(&none_text, (10, 10)), Ok(()));
    assert_eq!(chars::apply(&none_text, (1, 1)), Ok(()));
    assert_eq!(simple::apply(&none_text, (10, 10)), Ok(()));
    let none_seq: Option<Vec<u8>> = None;
    assert_eq!(bytes::apply(&none_seq, (5, 2)), Ok(()));
    assert_eq!(simple::apply(&none_seq, (1, 1)), Ok(()));
}

#[test]
fn present_optional_delegates_to_inner_value() {
    let text = String::from("abc");
    let some_text: Option<String> = Some(text.clone());
    assert_eq!(bytes::apply(&some_text, (1, 2)), bytes::apply(&text, (1, 2)));
    assert_eq!(bytes::apply(&some_text, (1, 3)), bytes::apply(&text, (1, 3)));
    assert_eq!(chars::apply(&some_text, (3, 3)), chars::apply(&text, (3, 3)));
    assert_eq!(simple::apply(&some_text, (0, 0)), simple::apply(&text, (0, 0)));
    assert_eq!(
        bytes::apply(&some_text, (4, 9)),
        Err(Error {
            min: 4,
            max: 9,
            actual: 3
        })
    );
}

#[test]
fn nested_optional_composes() {
    let inner_none: Option<Option<String>> = Some(None);
    assert_eq!(bytes::apply(&inner_none, (2, 2)), Ok(()));
    let nested: Option<Option<String>> = Some(Some(String::from("ab")));
    assert_eq!(bytes::apply(&nested, (2, 2)), Ok(()));
    assert_eq!(
        bytes::apply(&nested, (3, 3)),
        Err(Error {
            min: 3,
            max: 3,
            actual: 2
        })
    );
}

#[test]
fn scalar_and_simple_measurements_agree_on_sequences() {
    let v: Vec<char> = vec!['q', 'w', 'e', 'r'];
    assert_eq!(chars::apply(&v, (4, 4)), Ok(()));
    assert_eq!(simple::apply(&v, (4, 4)), Ok(()));
    let a: [char; 3] = ['x', 'y', 'z'];
    assert_eq!(chars::apply(&a, (3, 3)), Ok(()));
    assert_eq!(simple::apply(&a, (3, 3)), Ok(()));
    let empty: Vec<char> = Vec::new();
    assert_eq!(chars::apply(&empty, (0, 0)), Ok(()));
    assert_eq!(simple::apply(&empty, (0, 0)), Ok(()));
}

#[test]
fn policies_on_boxed_and_copy_on_write_values() {
    let b: Box<str> = String::from("h\u{e9}llo").into_boxed_str();
    assert_eq!(bytes::apply(&b, (6, 6)), Ok(()));
    assert_eq!(chars::apply(&b, (5, 5)), Ok(()));
    assert_eq!(simple::apply(&b, (6, 6)), Ok(()));
    let c: Cow<str> = Cow::Borrowed("h\u{e9}llo");
    assert_eq!(bytes::apply(&c, (6, 6)), Ok(()));
    assert_eq!(chars::apply(&c, (5, 5)), Ok(()));
    assert_eq!(simple::apply(&c, (6, 6)), Ok(()));
    let co: Cow<str> = Cow::Owned(String::from("ab"));
    assert_eq!(
        bytes::apply(&co, (3, 4)),
        Err(Error {
            min: 3,
            max: 4,
            actual: 2
        })
    );
    let bb: Box<[u8]> = vec![1u8, 2, 3].into_boxed_slice();
    assert_eq!(bytes::apply(&bb, (3, 3)), Ok(()));
    let bc: Box<[char]> = vec!['a', 'b'].into_boxed_slice();
    assert_eq!(chars::apply(&bc, (2, 2)), Ok(()));
}

#[test]
fn policy_trait_methods_match_entry_points() {
    let text = String::from("h\u{e9}");
    assert_eq!(text.validate_num_bytes(3, 3), bytes::apply(&text, (3, 3)));
    assert_eq!(text.validate_num_chars(2, 2), chars::apply(&text, (2, 2)));
    assert_eq!(text.validate_length(3, 3), simple::apply(&text, (3, 3)));
    assert_eq!(text.validate_num_bytes(3, 3), Ok(()));
    assert_eq!(text.validate_num_chars(2, 2), Ok(()));
    assert_eq!(text.validate_length(3, 3), Ok(()));
}
