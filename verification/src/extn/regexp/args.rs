//! Arguments of the methods of `Regexp` and `MatchData`.

use vstd::prelude::*;
use crate::args::{terms, ArgSpec, Frame};
use crate::convert::{mismatch, Convert};
use crate::error::{ArtichokeError, Failure};
use crate::extn::regexp::{Encoding, Options};
use crate::range::{counted, range_start_len, span_len, start_len_spec};
use crate::types::Rust;
use crate::value::{Term, Value};

verus! {

/// The error of a call with `given` arguments where at least one and at most
/// `most` are admitted.
pub open spec fn arity_failure(given: nat, most: usize) -> Failure {
    Failure::ArgCount { given: given as usize, required: 1, admitted: Some(most) }
}

/// The arguments of `Regexp.new`: a pattern, and optionally its options and
/// its encoding.
pub struct RegexpNew {
    pub pattern: Value,
    pub options: Option<Options>,
    pub encoding: Option<Encoding>,
}

/// The model of the arguments of `Regexp.new`.
pub ghost struct RegexpNewTerms {
    pub pattern: Term,
    pub options: Option<Options>,
    pub encoding: Option<Encoding>,
}

impl View for RegexpNew {
    type V = RegexpNewTerms;

    open spec fn view(&self) -> RegexpNewTerms {
        RegexpNewTerms { pattern: self.pattern@, options: self.options, encoding: self.encoding }
    }
}

impl RegexpNew {
    /// The encoding that a call names: that of the third argument where there
    /// is one, else that of the second, which also gives the options.
    pub open spec fn encoding_spec(args: Seq<Term>) -> Result<Encoding, Failure> {
        if args.len() == 3 {
            Encoding::from_value_spec(args[2], false)
        } else {
            Encoding::from_value_spec(args[1], true)
        }
    }

    /// What the arguments of a call are read as.
    ///
    /// Each argument that is given is read: the second as the options, and
    /// the encoding from the third, or from the second where there is no
    /// third. With the pattern alone, neither is set. The options are read
    /// first, and the error of a reading is the error of the call.
    pub open spec fn extract_spec(args: Seq<Term>) -> Result<RegexpNewTerms, Failure> {
        if args.len() < 1 || args.len() > 3 {
            Err(arity_failure(args.len(), 3))
        } else if args.len() == 1 {
            Ok(RegexpNewTerms { pattern: args[0], options: None, encoding: None })
        } else {
            match Options::from_value_spec(args[1]) {
                Err(failure) => Err(failure),
                Ok(options) => match Self::encoding_spec(args) {
                    Err(failure) => Err(failure),
                    Ok(encoding) => Ok(
                        RegexpNewTerms {
                            pattern: args[0],
                            options: Some(options),
                            encoding: Some(encoding),
                        },
                    ),
                },
            }
        }
    }

    /// Reads the arguments of `Regexp.new` from the frame of a call.
    pub fn extract(frame: &Frame) -> (result: Result<Self, ArtichokeError>)
        ensures
            match result {
                Ok(args) => Self::extract_spec(frame.arg_terms()) == Ok::<RegexpNewTerms, Failure>(
                    args@,
                ),
                Err(error) => Self::extract_spec(frame.arg_terms()) == Err::<
                    RegexpNewTerms,
                    Failure,
                >(error@),
            },
    {
        let args = match ArgSpec::new().required(1).optional(2).extract(frame) {
            Ok(args) => args,
            Err(error) => {
                return Err(error);
            },
        };
        let ghost all = frame.arg_terms();
        assert(args@.required.len() == 1 && args@.required[0] == all[0]);
        assert(args@.optional.len() == 2);
        assert(args@.optional[0] == (if 1 < all.len() {
            Some(all[1])
        } else {
            None
        }));
        assert(args@.optional[1] == (if 2 < all.len() {
            Some(all[2])
        } else {
            None
        }));
        let pattern = args.required[0].clone();
        let opts = match &args.optional[0] {
            Some(opts) => opts,
            None => {
                return Ok(RegexpNew { pattern, options: None, encoding: None });
            },
        };
        let options = match Options::from_value(opts) {
            Ok(options) => options,
            Err(error) => {
                return Err(error);
            },
        };
        let read = match &args.optional[1] {
            Some(enc) => Encoding::from_value(enc, false),
            None => Encoding::from_value(opts, true),
        };
        match read {
            Ok(encoding) => Ok(
                RegexpNew { pattern, options: Some(options), encoding: Some(encoding) },
            ),
            Err(error) => Err(error),
        }
    }
}

/// All the arguments of a call, whatever their number.
pub struct Rest {
    pub rest: Vec<Value>,
}

impl Rest {
    /// Reads all the arguments from the frame of a call.
    pub fn extract(frame: &Frame) -> (result: Result<Self, ArtichokeError>)
        ensures
            result matches Ok(args) && terms(args.rest@) == frame.arg_terms(),
    {
        match ArgSpec::new().rest().extract(frame) {
            Ok(args) => {
                assert(args@.rest =~= frame.arg_terms());
                Ok(Rest { rest: args.rest })
            },
            Err(error) => Err(error),
        }
    }
}

/// The arguments of `Regexp#match`: the string to match against, and
/// optionally the position to start from.
#[derive(Debug, Clone, PartialEq, Eq)]
pub struct Match {
    pub string: String,
    pub pos: Option<usize>,
}

impl Match {
    /// What the arguments of a call are read as: a string of valid UTF-8, and
    /// where a second argument is given, an integer that is not negative.
    pub open spec fn extract_spec(args: Seq<Term>) -> Result<(Seq<char>, Option<usize>), Failure> {
        if args.len() < 1 || args.len() > 2 {
            Err(arity_failure(args.len(), 2))
        } else {
            match String::decode(args[0]) {
                Err(error) => Err(Failure::ConvertToRust(error)),
                Ok(string) => if args.len() == 2 {
                    match usize::decode(args[1]) {
                        Err(error) => Err(Failure::ConvertToRust(error)),
                        Ok(pos) => Ok((string, Some(pos))),
                    }
                } else {
                    Ok((string, None))
                },
            }
        }
    }

    /// Reads the arguments of `Regexp#match` from the frame of a call.
    pub fn extract(frame: &Frame) -> (result: Result<Self, ArtichokeError>)
        ensures
            match result {
                Ok(args) => Self::extract_spec(frame.arg_terms()) == Ok::<
                    (Seq<char>, Option<usize>),
                    Failure,
                >((args.string@, args.pos)),
                Err(error) => Self::extract_spec(frame.arg_terms()) == Err::<
                    (Seq<char>, Option<usize>),
                    Failure,
                >(error@),
            },
    {
        let args = match ArgSpec::new().required(1).optional(1).extract(frame) {
            Ok(args) => args,
            Err(error) => {
                return Err(error);
            },
        };
        let ghost all = frame.arg_terms();
        assert(args@.required.len() == 1 && args@.required[0] == all[0]);
        assert(args@.optional.len() == 1);
        assert(args@.optional[0] == (if 1 < all.len() {
            Some(all[1])
        } else {
            None
        }));
        let string = match String::try_convert(&args.required[0]) {
            Ok(string) => string,
            Err(error) => {
                return Err(ArtichokeError::ConvertToRust(error));
            },
        };
        let pos = match &args.optional[0] {
            None => None,
            Some(pos) => match usize::try_convert(pos) {
                Ok(pos) => Some(pos),
                Err(error) => {
                    return Err(ArtichokeError::ConvertToRust(error));
                },
            },
        };
        Ok(Match { string, pos })
    }
}

/// What selects a part of a match: the index of a group, the name of a
/// group, or a start offset and a length.
#[derive(Debug, Clone, PartialEq, Eq)]
pub enum MatchIndex {
    Index(i64),
    Name(String),
    StartLen(i64, usize),
}

/// The model of a [`MatchIndex`].
pub ghost enum Selector {
    Index(i64),
    Name(Seq<char>),
    StartLen(i64, usize),
}

impl View for MatchIndex {
    type V = Selector;

    open spec fn view(&self) -> Selector {
        match self {
            MatchIndex::Index(index) => Selector::Index(*index),
            MatchIndex::Name(name) => Selector::Name(name@),
            MatchIndex::StartLen(start, len) => Selector::StartLen(*start, *len),
        }
    }
}

impl MatchIndex {
    /// What a single argument selects. It is read as a range first: every
    /// range selects from its begin, as it is given, as many items as it
    /// spans. A value that is no range is read as an integer, and failing that
    /// as a string of valid UTF-8. The error of a value that is none of these
    /// is that of the last reading.
    pub open spec fn resolve(arg: Term) -> Result<Selector, Failure> {
        match start_len_spec(arg) {
            Some((start, len)) => Ok(Selector::StartLen(start, len)),
            None => match i64::decode(arg) {
                Ok(index) => Ok(Selector::Index(index)),
                Err(_) => match String::decode(arg) {
                    Ok(name) => Ok(Selector::Name(name)),
                    Err(error) => Err(Failure::ConvertToRust(error)),
                },
            },
        }
    }

    /// What two arguments select: the first is the start offset, the second
    /// the length.
    pub open spec fn resolve_pair(start: Term, len: Term) -> Result<Selector, Failure> {
        match i64::decode(start) {
            Err(error) => Err(Failure::ConvertToRust(error)),
            Ok(start) => match usize::decode(len) {
                Err(error) => Err(Failure::ConvertToRust(error)),
                Ok(len) => Ok(Selector::StartLen(start, len)),
            },
        }
    }

    /// What the arguments of a call are read as.
    pub open spec fn extract_spec(args: Seq<Term>) -> Result<Selector, Failure> {
        if args.len() < 1 || args.len() > 2 {
            Err(arity_failure(args.len(), 2))
        } else if args.len() == 1 {
            Self::resolve(args[0])
        } else {
            Self::resolve_pair(args[0], args[1])
        }
    }

    /// Each argument list has exactly one reading, by a fixed priority: a
    /// start and a length where two arguments are given; for one argument, a
    /// range, whatever its begin, then an integer, then a string; and an error
    /// only for a value that is none of them.
    pub proof fn lemma_priority(first: Term, second: Term)
        ensures
            first is Fixnum && second is Fixnum && 0 <= second->Fixnum_0 <= usize::MAX
                ==> Self::extract_spec(seq![first, second]) == Ok::<Selector, Failure>(
                Selector::StartLen(first->Fixnum_0, second->Fixnum_0 as usize),
            ),
            first is Range ==> Self::extract_spec(seq![first]) == Ok::<Selector, Failure>(
                Selector::StartLen(
                    first->begin,
                    counted(span_len(first->begin as int, first->end as int, first->exclusive)),
                ),
            ),
            first is Fixnum ==> Self::extract_spec(seq![first]) == Ok::<Selector, Failure>(
                Selector::Index(first->Fixnum_0),
            ),
            first is String && vstd::utf8::valid_utf8(first->String_0) ==> Self::extract_spec(
                seq![first],
            ) == Ok::<Selector, Failure>(
                Selector::Name(vstd::utf8::decode_utf8(first->String_0)),
            ),
            Self::extract_spec(seq![first]) is Err ==> !(first is Range) && !(first is Fixnum) && !(
            first is String && vstd::utf8::valid_utf8(first->String_0)),
            !(first is Range) && !(first is Fixnum) && !(first is String) ==> Self::extract_spec(
                seq![first],
            ) == Err::<Selector, Failure>(
                Failure::ConvertToRust(mismatch(first.ruby_type(), Rust::String)),
            ),
    {
    }

    /// Reads the selector from the frame of a call.
    pub fn extract(frame: &Frame) -> (result: Result<Self, ArtichokeError>)
        ensures
            match result {
                Ok(index) => Self::extract_spec(frame.arg_terms()) == Ok::<Selector, Failure>(
                    index@,
                ),
                Err(error) => Self::extract_spec(frame.arg_terms()) == Err::<Selector, Failure>(
                    error@,
                ),
            },
    {
        let args = match ArgSpec::new().required(1).optional(1).extract(frame) {
            Ok(args) => args,
            Err(error) => {
                return Err(error);
            },
        };
        let ghost all = frame.arg_terms();
        assert(args@.required.len() == 1 && args@.required[0] == all[0]);
        assert(args@.optional.len() == 1);
        assert(args@.optional[0] == (if 1 < all.len() {
            Some(all[1])
        } else {
            None
        }));
        let first = &args.required[0];
        match &args.optional[0] {
            None => match range_start_len(first) {
                Some((start, len)) => Ok(MatchIndex::StartLen(start, len)),
                None => match i64::try_convert(first) {
                    Ok(index) => Ok(MatchIndex::Index(index)),
                    Err(_) => match String::try_convert(first) {
                        Ok(name) => Ok(MatchIndex::Name(name)),
                        Err(error) => Err(ArtichokeError::ConvertToRust(error)),
                    },
                },
            },
            Some(second) => {
                let start = match i64::try_convert(first) {
                    Ok(start) => start,
                    Err(error) => {
                        return Err(ArtichokeError::ConvertToRust(error));
                    },
                };
                let len = match usize::try_convert(second) {
                    Ok(len) => len,
                    Err(error) => {
                        return Err(ArtichokeError::ConvertToRust(error));
                    },
                };
                Ok(MatchIndex::StartLen(start, len))
            },
        }
    }
}

} // verus!
