//! `MatchData`: the result of matching a pattern against a string.

use vstd::prelude::*;
use vstd::string::StringSliceAdditionalSpecFns;
use vstd::utf8::{encode_utf8, is_char_boundary};

pub mod named_captures;

verus! {

/// The part of a string that a pattern is matched against, as the offsets of
/// its first byte and of the byte after its last.
#[derive(Clone, Copy, Debug, PartialEq, Eq, Hash, Structural)]
pub struct Region {
    pub start: usize,
    pub end: usize,
}

/// What a match holds of its pattern and of the text it was matched against.
///
/// The pattern itself belongs to the regular expression engine. This is what
/// the methods of `MatchData` read of it.
#[derive(Debug)]
pub struct MatchData {
    /// The string that the match was made in.
    pub string: String,
    /// The part of the string that the pattern is matched against.
    pub region: Region,
    /// The name of each group of the pattern, by the number of the group, and
    /// `None` for a group without a name; `None` for all of it where the
    /// pattern was never compiled.
    pub capture_names: Option<Vec<Option<String>>>,
    /// The text that each group matched in the region, by the number of the
    /// group, and `None` for a group that took no part in the match; `None`
    /// for all of it where the pattern does not match the region.
    pub captures: Option<Vec<Option<String>>>,
}

impl MatchData {
    /// The bytes of the string.
    pub open spec fn subject(self) -> Seq<u8> {
        encode_utf8(self.string@)
    }

    /// Whether the region lies in the string and begins and ends between two
    /// of its characters.
    pub open spec fn region_fits_spec(self) -> bool {
        &&& self.region.start <= self.region.end <= self.subject().len()
        &&& is_char_boundary(self.subject(), self.region.start as int)
        &&& is_char_boundary(self.subject(), self.region.end as int)
    }

    /// Whether the region lies in the string and begins and ends between two
    /// of its characters.
    pub fn region_fits(&self) -> (fits: bool)
        ensures
            fits == self.region_fits_spec(),
    {
        let string = self.string.as_str();
        let len = string.as_bytes().len();
        self.region.start <= self.region.end && self.region.end <= len && string.is_char_boundary(
            self.region.start,
        ) && string.is_char_boundary(self.region.end)
    }

    /// The part of the string that the pattern is matched against: the bytes
    /// of the string from the start of the region up to its end.
    pub fn match_against(&self) -> (part: &str)
        requires
            self.region_fits_spec(),
        ensures
            encode_utf8(part@) == self.subject().subrange(
                self.region.start as int,
                self.region.end as int,
            ),
    {
        let ghost subject = self.subject();
        let start = self.region.start;
        let end = self.region.end;
        let string = self.string.as_str();
        let (head, _) = string.split_at(end);
        proof {
            let front = subject.subrange(0, end as int);
            vstd::utf8::encode_utf8_valid_utf8(self.string@);
            vstd::utf8::valid_utf8_split(subject, end as int);
            assert(head.spec_bytes() == front);
            if start < end {
                vstd::utf8::is_char_boundary_iff_not_is_continuation_byte(subject, start as int);
                vstd::utf8::is_char_boundary_iff_not_is_continuation_byte(front, start as int);
            } else {
                vstd::utf8::is_char_boundary_start_end_of_seq(front);
            }
            assert(front.subrange(start as int, end as int) =~= subject.subrange(
                start as int,
                end as int,
            ));
        }
        let (_, part) = head.split_at(start);
        part
    }
}

} // verus!
