//! Comparison of text, exact and with ASCII letter case folded.

use vstd::prelude::*;
use vstd::std_specs::iter::IteratorSpec;
use vstd::string::*;

verus! {

/// The upper-case form of an ASCII lower-case letter; every other character
/// stands for itself.
pub open spec fn upper_char(c: char) -> char {
    if 'a' <= c && c <= 'z' {
        ((c as u8 - 32) as u8) as char
    } else {
        c
    }
}

/// A text with each of its characters folded by [`upper_char`].
pub open spec fn upper_text(text: Seq<char>) -> Seq<char> {
    Seq::new(text.len(), |i: int| upper_char(text[i]))
}

/// Whether two texts are equal once ASCII letter case is folded away.
pub open spec fn same_ignoring_case(a: Seq<char>, b: Seq<char>) -> bool {
    upper_text(a) == upper_text(b)
}

/// Folds one character to upper case.
pub fn to_upper(c: char) -> (r: char)
    ensures
        r == upper_char(c),
{
    if 'a' <= c && c <= 'z' {
        let code: u8 = c as u8;
        (code - 32) as char
    } else {
        c
    }
}

/// Compares two texts character by character.
pub fn same_text(a: &str, b: &str) -> (same: bool)
    ensures
        same == (a@ == b@),
{
    broadcast use {axiom_spec_iter, next_postcondition};

    let mut left = a.chars();
    let mut right = b.chars();
    let ghost mut i: int = 0;
    loop
        invariant
            0 <= i <= a@.len(),
            i <= b@.len(),
            left.remaining() == a@.skip(i),
            right.remaining() == b@.skip(i),
            forall|j: int| 0 <= j < i ==> a@[j] == b@[j],
        decreases a@.len() - i,
    {
        match (left.next(), right.next()) {
            (Some(x), Some(y)) => {
                if x != y {
                    assert(a@[i] != b@[i]);
                    return false;
                }
                proof {
                    assert(a@.skip(i).drop_first() =~= a@.skip(i + 1));
                    assert(b@.skip(i).drop_first() =~= b@.skip(i + 1));
                    i = i + 1;
                }
            },
            (None, None) => {
                assert(a@ =~= b@);
                return true;
            },
            _ => {
                return false;
            },
        }
    }
}

/// Compares a text, with ASCII letter case folded to upper case, against a
/// pattern taken as it is.
pub fn folds_to(text: &str, pattern: &str) -> (same: bool)
    ensures
        same == (upper_text(text@) == pattern@),
{
    broadcast use {axiom_spec_iter, next_postcondition};

    let mut left = text.chars();
    let mut right = pattern.chars();
    let ghost mut i: int = 0;
    loop
        invariant
            0 <= i <= text@.len(),
            i <= pattern@.len(),
            left.remaining() == text@.skip(i),
            right.remaining() == pattern@.skip(i),
            forall|j: int| 0 <= j < i ==> upper_char(text@[j]) == pattern@[j],
        decreases text@.len() - i,
    {
        match (left.next(), right.next()) {
            (Some(x), Some(y)) => {
                if to_upper(x) != y {
                    assert(upper_text(text@)[i] != pattern@[i]);
                    return false;
                }
                proof {
                    assert(text@.skip(i).drop_first() =~= text@.skip(i + 1));
                    assert(pattern@.skip(i).drop_first() =~= pattern@.skip(i + 1));
                    i = i + 1;
                }
            },
            (None, None) => {
                assert(upper_text(text@) =~= pattern@);
                return true;
            },
            _ => {
                return false;
            },
        }
    }
}

} // verus!
