//! Reading a range as a start offset and a length.

use vstd::prelude::*;
use crate::value::{Term, Value};

verus! {

/// The number of items that a range spans: from its begin up to its end,
/// and the end itself where the range includes it. A range that ends before
/// it begins spans nothing.
pub open spec fn span_len(begin: int, end: int, exclusive: bool) -> int {
    let last = if exclusive {
        end
    } else {
        end + 1
    };
    if last < begin {
        0
    } else {
        last - begin
    }
}

/// A number of items as the machine counts it: a number beyond the largest
/// count stands for that count, which no sequence exceeds.
pub open spec fn counted(len: int) -> usize {
    if len > usize::MAX {
        usize::MAX
    } else {
        len as usize
    }
}

/// The start offset and the length that a value selects when it is read as
/// a range, and `None` for a value that is no range.
///
/// The start is the begin of the range as it is given: an offset below zero
/// counts from the end of the sequence that the selection is applied to.
pub open spec fn start_len_spec(term: Term) -> Option<(i64, usize)> {
    match term {
        Term::Range { begin, end, exclusive } => Some(
            (begin, counted(span_len(begin as int, end as int, exclusive))),
        ),
        _ => None,
    }
}

/// Reads `range` as a start offset and a length.
pub fn range_start_len(range: &Value) -> (selected: Option<(i64, usize)>)
    ensures
        selected == start_len_spec(range@),
{
    match range {
        Value::Range { begin, end, exclusive } => {
            let first: i128 = *begin as i128;
            let last: i128 = if *exclusive {
                *end as i128
            } else {
                *end as i128 + 1
            };
            let len: usize = if last < first {
                0
            } else if last - first > usize::MAX as i128 {
                usize::MAX
            } else {
                (last - first) as usize
            };
            Some((*begin, len))
        },
        _ => None,
    }
}

} // verus!
