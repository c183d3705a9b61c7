//! Reading the characters of a string.

use vstd::prelude::*;
use vstd::std_specs::iter::IteratorSpec;

verus! {

/// The first character of `text`, if it has one.
pub fn first_char(text: &str) -> (first: Option<char>)
    ensures
        first == (if text@.len() > 0 {
            Some(text@[0])
        } else {
            None
        }),
{
    broadcast use vstd::string::group_string_axioms;

    let mut chars = text.chars();
    chars.next()
}

/// The characters of `text`, in order.
pub fn chars_of(text: &str) -> (list: Vec<char>)
    ensures
        list@ == text@,
{
    broadcast use vstd::string::group_string_axioms;

    let mut chars = text.chars();
    let mut list: Vec<char> = Vec::new();
    loop
        invariant
            list@.len() <= text@.len(),
            chars.obeys_prophetic_iter_laws(),
            chars.remaining() == text@.skip(list@.len() as int),
            list@ == text@.take(list@.len() as int),
        decreases text@.len() - list@.len(),
    {
        let ghost seen = list@.len() as int;
        match chars.next() {
            Some(c) => {
                list.push(c);
                proof {
                    assert(text@.skip(seen).drop_first() =~= text@.skip(seen + 1));
                    assert(list@ =~= text@.take(seen + 1));
                }
            },
            None => {
                assert(text@.take(seen) =~= text@);
                return list;
            },
        }
    }
}

/// Whether `text` holds the character `wanted`.
pub fn contains_char(text: &str, wanted: char) -> (found: bool)
    ensures
        found == text@.contains(wanted),
{
    broadcast use vstd::string::group_string_axioms;

    let mut chars = text.chars();
    let ghost mut seen: int = 0;
    loop
        invariant
            0 <= seen <= text@.len(),
            chars.obeys_prophetic_iter_laws(),
            chars.remaining() == text@.skip(seen),
            forall|i: int| 0 <= i < seen ==> text@[i] != wanted,
        decreases text@.len() - seen,
    {
        match chars.next() {
            Some(c) => {
                if c == wanted {
                    assert(text@[seen] == wanted);
                    return true;
                }
                proof {
                    assert(text@.skip(seen).drop_first() =~= text@.skip(seen + 1));
                    seen = seen + 1;
                }
            },
            None => {
                return false;
            },
        }
    }
}

} // verus!
