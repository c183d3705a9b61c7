//! `Regexp`: the options and the encoding that a pattern is compiled with.

use vstd::prelude::*;
use vstd::string::StringExecFns;
use vstd::utf8::{decode_utf8, valid_utf8};
use crate::chars::{chars_of, contains_char};
use crate::convert::Convert;
use crate::error::{ArtichokeError, Failure};
use crate::value::{Term, Value};

pub mod args;

verus! {

/// Flag of a pattern that ignores case.
pub const IGNORECASE: i64 = 1;

/// Flag of a pattern in which whitespace and comments are ignored.
pub const EXTENDED: i64 = 2;

/// Flag of a pattern in which a dot matches a newline.
pub const MULTILINE: i64 = 4;

/// The three option flags together.
pub const ALL_REGEXP_OPTS: i64 = 7;

/// Flag of a pattern with a fixed encoding.
pub const FIXEDENCODING: i64 = 16;

/// Flag of a pattern without an encoding.
pub const NOENCODING: i64 = 32;

/// The two encoding flags together.
pub const ALL_ENCODING_OPTS: i64 = 48;

/// The options of a pattern.
#[derive(Clone, Copy, Debug, PartialEq, Eq, Hash, Structural)]
pub struct Options {
    pub ignore_case: bool,
    pub extended: bool,
    pub multiline: bool,
}

/// The encoding of a pattern.
#[derive(Clone, Copy, Debug, PartialEq, Eq, Hash, Structural)]
pub enum Encoding {
    /// The pattern keeps the encoding it was written in.
    Fixed,
    /// The pattern matches bytes.
    No,
    /// Nothing was said of the encoding.
    Unset,
}

/// The text of the error for option flags that are not known.
pub open spec fn invalid_flags() -> Failure {
    Failure::Exec("Invalid Regexp flags"@)
}

/// The text of the error for an encoding that is not known, or is given
/// twice.
pub open spec fn invalid_encoding() -> Failure {
    Failure::Exec("Invalid Regexp encoding"@)
}

impl Options {
    /// The options of a pattern that only ignores case.
    pub open spec fn only_ignore_case() -> Options {
        Options { ignore_case: true, extended: false, multiline: false }
    }

    /// No option set.
    pub open spec fn none() -> Options {
        Options { ignore_case: false, extended: false, multiline: false }
    }

    /// The options that a VM value stands for.
    ///
    /// An integer is a set of flags: it may hold the three option flags and
    /// the two encoding flags, and nothing else. `nil` and `false` set no
    /// option. A string of valid UTF-8 sets the options whose letters `i`,
    /// `x` and `m` it holds. Any other value makes the pattern ignore case.
    pub open spec fn from_value_spec(term: Term) -> Result<Options, Failure> {
        match term {
            Term::Fixnum(flags) => if flags & !(ALL_REGEXP_OPTS | ALL_ENCODING_OPTS) != 0 {
                Err(invalid_flags())
            } else {
                Ok(
                    Options {
                        ignore_case: flags & IGNORECASE != 0,
                        extended: flags & EXTENDED != 0,
                        multiline: flags & MULTILINE != 0,
                    },
                )
            },
            Term::Nil => Ok(Self::none()),
            Term::Bool(on) => if on {
                Ok(Self::only_ignore_case())
            } else {
                Ok(Self::none())
            },
            Term::String(bytes) => if valid_utf8(bytes) {
                let letters = decode_utf8(bytes);
                Ok(
                    Options {
                        ignore_case: letters.contains('i'),
                        extended: letters.contains('x'),
                        multiline: letters.contains('m'),
                    },
                )
            } else {
                Ok(Self::only_ignore_case())
            },
            _ => Ok(Self::only_ignore_case()),
        }
    }

    /// Reads the options from the second argument of `Regexp.new`.
    pub fn from_value(value: &Value) -> (result: Result<Options, ArtichokeError>)
        ensures
            match result {
                Ok(options) => Self::from_value_spec(value@) == Ok::<Options, Failure>(options),
                Err(error) => Self::from_value_spec(value@) == Err::<Options, Failure>(error@),
            },
    {
        match value {
            Value::Fixnum(flags) => {
                let flags = *flags;
                if flags & !(ALL_REGEXP_OPTS | ALL_ENCODING_OPTS) != 0 {
                    Err(ArtichokeError::Exec(String::from_str("Invalid Regexp flags")))
                } else {
                    Ok(
                        Options {
                            ignore_case: flags & IGNORECASE != 0,
                            extended: flags & EXTENDED != 0,
                            multiline: flags & MULTILINE != 0,
                        },
                    )
                }
            },
            Value::Nil => Ok(Options { ignore_case: false, extended: false, multiline: false }),
            Value::Bool(on) => Ok(Options { ignore_case: *on, extended: false, multiline: false }),
            Value::String(_) => match String::try_convert(value) {
                Ok(letters) => Ok(
                    Options {
                        ignore_case: contains_char(letters.as_str(), 'i'),
                        extended: contains_char(letters.as_str(), 'x'),
                        multiline: contains_char(letters.as_str(), 'm'),
                    },
                ),
                Err(_) => Ok(Options { ignore_case: true, extended: false, multiline: false }),
            },
            _ => Ok(Options { ignore_case: true, extended: false, multiline: false }),
        }
    }
}

/// What one letter of an encoding string says.
#[derive(Clone, Copy, Debug, PartialEq, Eq, Structural)]
pub enum Letter {
    /// The letter names an encoding.
    Names(Encoding),
    /// The letter is an option letter, which says nothing of the encoding.
    Flag,
    /// The letter is not known.
    Unknown,
}

/// What the letter `c` says: `u`, `s` and `e` name a fixed encoding, `n` names
/// no encoding, and `i`, `m`, `x` and `o` are option letters.
pub open spec fn letter_spec(c: char) -> Letter {
    if c == 'u' || c == 's' || c == 'e' {
        Letter::Names(Encoding::Fixed)
    } else if c == 'n' {
        Letter::Names(Encoding::No)
    } else if c == 'i' || c == 'm' || c == 'x' || c == 'o' {
        Letter::Flag
    } else {
        Letter::Unknown
    }
}

/// Whether a string of letters may stand for an encoding: each letter names an
/// encoding, or is an option letter where the string also gives the options.
pub open spec fn letters_admitted(letters: Seq<char>, from_options: bool) -> bool {
    forall|i: int|
        0 <= i < letters.len() ==> match letter_spec(#[trigger] letters[i]) {
            Letter::Names(_) => true,
            Letter::Flag => from_options,
            Letter::Unknown => false,
        }
}

/// The encodings that the letters of a string name, in order.
pub open spec fn named_encodings(letters: Seq<char>) -> Seq<Encoding>
    decreases letters.len(),
{
    if letters.len() == 0 {
        Seq::empty()
    } else {
        match letter_spec(letters.last()) {
            Letter::Names(encoding) => named_encodings(letters.drop_last()).push(encoding),
            _ => named_encodings(letters.drop_last()),
        }
    }
}

impl Encoding {
    /// The encoding that a VM value stands for.
    ///
    /// An integer is a set of flags, of which the option flags are not looked
    /// at: the rest is the flag of a fixed encoding, the flag of no encoding,
    /// or nothing. A string of valid UTF-8 names at most one encoding by its
    /// letters. Any other value names none.
    pub open spec fn from_value_spec(term: Term, from_options: bool) -> Result<Encoding, Failure> {
        match term {
            Term::Fixnum(flags) => {
                let encoding = flags & !ALL_REGEXP_OPTS;
                if encoding == FIXEDENCODING {
                    Ok(Encoding::Fixed)
                } else if encoding == NOENCODING {
                    Ok(Encoding::No)
                } else if encoding == 0 {
                    Ok(Encoding::Unset)
                } else {
                    Err(invalid_encoding())
                }
            },
            Term::String(bytes) => if valid_utf8(bytes) {
                let letters = decode_utf8(bytes);
                let named = named_encodings(letters);
                if !letters_admitted(letters, from_options) || named.len() > 1 {
                    Err(invalid_encoding())
                } else if named.len() == 1 {
                    Ok(named[0])
                } else {
                    Ok(Encoding::Unset)
                }
            } else {
                Ok(Encoding::Unset)
            },
            _ => Ok(Encoding::Unset),
        }
    }

    /// Reads the encoding from an argument of `Regexp.new`: from the third,
    /// or from the second, which also gives the options.
    pub fn from_value(value: &Value, from_options: bool) -> (result: Result<
        Encoding,
        ArtichokeError,
    >)
        ensures
            match result {
                Ok(encoding) => Self::from_value_spec(value@, from_options) == Ok::<
                    Encoding,
                    Failure,
                >(encoding),
                Err(error) => Self::from_value_spec(value@, from_options) == Err::<
                    Encoding,
                    Failure,
                >(error@),
            },
    {
        match value {
            Value::Fixnum(flags) => {
                let encoding = *flags & !ALL_REGEXP_OPTS;
                if encoding == FIXEDENCODING {
                    Ok(Encoding::Fixed)
                } else if encoding == NOENCODING {
                    Ok(Encoding::No)
                } else if encoding == 0 {
                    Ok(Encoding::Unset)
                } else {
                    Err(ArtichokeError::Exec(String::from_str("Invalid Regexp encoding")))
                }
            },
            Value::String(_) => match String::try_convert(value) {
                Ok(letters) => Self::from_letters(letters.as_str(), from_options),
                Err(_) => Ok(Encoding::Unset),
            },
            _ => Ok(Encoding::Unset),
        }
    }

    /// What the letter `c` says.
    fn letter(c: char) -> (letter: Letter)
        ensures
            letter == letter_spec(c),
    {
        if c == 'u' || c == 's' || c == 'e' {
            Letter::Names(Encoding::Fixed)
        } else if c == 'n' {
            Letter::Names(Encoding::No)
        } else if c == 'i' || c == 'm' || c == 'x' || c == 'o' {
            Letter::Flag
        } else {
            Letter::Unknown
        }
    }

    /// Reads the encoding that the letters of a string name.
    fn from_letters(letters: &str, from_options: bool) -> (result: Result<Encoding, ArtichokeError>)
        ensures
            !letters_admitted(letters@, from_options) || named_encodings(letters@).len() > 1
                ==> (result matches Err(error) && error@ == invalid_encoding()),
            letters_admitted(letters@, from_options) && named_encodings(letters@).len() == 1
                ==> result == Ok::<Encoding, ArtichokeError>(named_encodings(letters@)[0]),
            letters_admitted(letters@, from_options) && named_encodings(letters@).len() == 0
                ==> result == Ok::<Encoding, ArtichokeError>(Encoding::Unset),
    {
        let list = chars_of(letters);
        let mut named: Option<Encoding> = None;
        let mut i: usize = 0;
        while i < list.len()
            invariant
                i <= list.len(),
                list@ == letters@,
                letters_admitted(letters@.take(i as int), from_options),
                match named {
                    Some(encoding) => named_encodings(letters@.take(i as int)) == seq![encoding],
                    None => named_encodings(letters@.take(i as int)).len() == 0,
                },
            decreases list.len() - i,
        {
            let c = list[i];
            proof {
                assert(letters@.take(i + 1).drop_last() =~= letters@.take(i as int));
                assert(letters@.take(i + 1).last() == c);
                lemma_named_encodings_grow(letters@, i + 1);
            }
            match Self::letter(c) {
                Letter::Names(encoding) => {
                    if named.is_some() {
                        return Err(
                            ArtichokeError::Exec(String::from_str("Invalid Regexp encoding")),
                        );
                    }
                    named = Some(encoding);
                    assert(named_encodings(letters@.take(i + 1)) =~= seq![encoding]);
                },
                Letter::Flag => {
                    if !from_options {
                        assert(letters@[i as int] == c);
                        return Err(
                            ArtichokeError::Exec(String::from_str("Invalid Regexp encoding")),
                        );
                    }
                },
                Letter::Unknown => {
                    assert(letters@[i as int] == c);
                    return Err(ArtichokeError::Exec(String::from_str("Invalid Regexp encoding")));
                },
            }
            proof {
                assert forall|j: int| 0 <= j < i + 1 implies match letter_spec(
                    #[trigger] letters@.take(i + 1)[j],
                ) {
                    Letter::Names(_) => true,
                    Letter::Flag => from_options,
                    Letter::Unknown => false,
                } by {
                    if j < i {
                        assert(letters@.take(i as int)[j] == letters@.take(i + 1)[j]);
                    }
                }
            }
            i += 1;
        }
        assert(letters@.take(i as int) =~= letters@);
        match named {
            Some(encoding) => Ok(encoding),
            None => Ok(Encoding::Unset),
        }
    }
}

/// The encodings named by a prefix of a string are among those named by the
/// whole string.
proof fn lemma_named_encodings_grow(letters: Seq<char>, n: int)
    requires
        0 <= n <= letters.len(),
    ensures
        named_encodings(letters.take(n)).len() <= named_encodings(letters).len(),
    decreases letters.len(),
{
    if n < letters.len() {
        assert(letters.drop_last().take(n) =~= letters.take(n));
        lemma_named_encodings_grow(letters.drop_last(), n);
    } else {
        assert(letters.take(n) =~= letters);
    }
}

} // verus!
