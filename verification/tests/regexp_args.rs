use artichoke_backend::args::Frame;
use artichoke_backend::convert::Error;
use artichoke_backend::extn::regexp::args::{Match, MatchIndex, RegexpNew, Rest};
use artichoke_backend::extn::regexp::{Encoding, Options};
use artichoke_backend::types::{Ruby, Rust};
use artichoke_backend::value::Value;
use artichoke_backend::ArtichokeError;

fn text(s: &str) -> Value {
    Value::String(s.as_bytes().to_vec())
}

fn frame(args: Vec<Value>) -> Frame {
    Frame { args, block: None }
}

#[test]
fn match_index_start_and_length() {
    let index = MatchIndex::extract(&frame(vec![Value::Fixnum(1), Value::Fixnum(2)]));
    assert_eq!(index, Ok(MatchIndex::StartLen(1, 2)));
    let index = MatchIndex::extract(&frame(vec![Value::Fixnum(-3), Value::Fixnum(0)]));
    assert_eq!(index, Ok(MatchIndex::StartLen(-3, 0)));
}

#[test]
fn match_index_single_range() {
    let range = Value::Range { begin: 1, end: 3, exclusive: false };
    assert_eq!(MatchIndex::extract(&frame(vec![range])), Ok(MatchIndex::StartLen(1, 3)));
    let range = Value::Range { begin: 2, end: 5, exclusive: true };
    assert_eq!(MatchIndex::extract(&frame(vec![range])), Ok(MatchIndex::StartLen(2, 3)));
    let range = Value::Range { begin: 4, end: 1, exclusive: false };
    assert_eq!(MatchIndex::extract(&frame(vec![range])), Ok(MatchIndex::StartLen(4, 0)));
}

#[test]
fn match_index_single_range_with_negative_offsets() {
    let range = Value::Range { begin: -2, end: -1, exclusive: false };
    assert_eq!(MatchIndex::extract(&frame(vec![range])), Ok(MatchIndex::StartLen(-2, 2)));
    let range = Value::Range { begin: -2, end: 3, exclusive: false };
    assert_eq!(MatchIndex::extract(&frame(vec![range])), Ok(MatchIndex::StartLen(-2, 6)));
    let range = Value::Range { begin: -5, end: -2, exclusive: true };
    assert_eq!(MatchIndex::extract(&frame(vec![range])), Ok(MatchIndex::StartLen(-5, 3)));
    let range = Value::Range { begin: i64::MIN, end: i64::MAX, exclusive: false };
    assert_eq!(
        MatchIndex::extract(&frame(vec![range])),
        Ok(MatchIndex::StartLen(i64::MIN, usize::MAX))
    );
}

#[test]
fn match_index_bare_integer() {
    assert_eq!(
        MatchIndex::extract(&frame(vec![Value::Fixnum(5)])),
        Ok(MatchIndex::Index(5))
    );
    assert_eq!(
        MatchIndex::extract(&frame(vec![Value::Fixnum(-1)])),
        Ok(MatchIndex::Index(-1))
    );
}

#[test]
fn match_index_name() {
    assert_eq!(
        MatchIndex::extract(&frame(vec![text("year")])),
        Ok(MatchIndex::Name(String::from("year")))
    );
}

#[test]
fn match_index_none_of_the_readings() {
    assert_eq!(
        MatchIndex::extract(&frame(vec![Value::Nil])),
        Err(ArtichokeError::ConvertToRust(Error { from: Ruby::Nil, to: Rust::String }))
    );
    assert_eq!(
        MatchIndex::extract(&frame(vec![Value::String(vec![0xff])])),
        Err(ArtichokeError::ConvertToRust(Error { from: Ruby::String, to: Rust::String }))
    );
    assert_eq!(
        MatchIndex::extract(&frame(vec![Value::Array(vec![])])),
        Err(ArtichokeError::ConvertToRust(Error { from: Ruby::Array, to: Rust::String }))
    );
}

#[test]
fn match_index_pair_must_be_integers() {
    assert_eq!(
        MatchIndex::extract(&frame(vec![text("a"), Value::Fixnum(1)])),
        Err(ArtichokeError::ConvertToRust(Error { from: Ruby::String, to: Rust::SignedInt }))
    );
    assert_eq!(
        MatchIndex::extract(&frame(vec![Value::Fixnum(1), Value::Fixnum(-1)])),
        Err(ArtichokeError::ConvertToRust(Error { from: Ruby::Fixnum, to: Rust::UnsignedInt }))
    );
    let range = Value::Range { begin: 1, end: 3, exclusive: false };
    assert_eq!(
        MatchIndex::extract(&frame(vec![range, Value::Fixnum(1)])),
        Err(ArtichokeError::ConvertToRust(Error { from: Ruby::Range, to: Rust::SignedInt }))
    );
}

#[test]
fn match_index_arity() {
    assert_eq!(
        MatchIndex::extract(&frame(vec![])),
        Err(ArtichokeError::ArgCount { given: 0, required: 1, admitted: Some(2) })
    );
    assert_eq!(
        MatchIndex::extract(&frame(vec![Value::Nil, Value::Nil, Value::Nil])),
        Err(ArtichokeError::ArgCount { given: 3, required: 1, admitted: Some(2) })
    );
}

#[test]
fn match_with_and_without_position() {
    assert_eq!(
        Match::extract(&frame(vec![text("abc")])),
        Ok(Match { string: String::from("abc"), pos: None })
    );
    assert_eq!(
        Match::extract(&frame(vec![text("abc"), Value::Fixnum(2)])),
        Ok(Match { string: String::from("abc"), pos: Some(2) })
    );
}

#[test]
fn match_errors() {
    assert_eq!(
        Match::extract(&frame(vec![Value::Fixnum(1)])),
        Err(ArtichokeError::ConvertToRust(Error { from: Ruby::Fixnum, to: Rust::String }))
    );
    assert_eq!(
        Match::extract(&frame(vec![text("abc"), Value::Fixnum(-1)])),
        Err(ArtichokeError::ConvertToRust(Error { from: Ruby::Fixnum, to: Rust::UnsignedInt }))
    );
    assert_eq!(
        Match::extract(&frame(vec![Value::Nil, Value::Nil])),
        Err(ArtichokeError::ConvertToRust(Error { from: Ruby::Nil, to: Rust::String }))
    );
    assert_eq!(
        Match::extract(&frame(vec![])),
        Err(ArtichokeError::ArgCount { given: 0, required: 1, admitted: Some(2) })
    );
}

#[test]
fn rest_takes_every_argument() {
    let args = Rest::extract(&frame(vec![Value::Nil, Value::Fixnum(2)])).unwrap();
    assert_eq!(args.rest, vec![Value::Nil, Value::Fixnum(2)]);
    let args = Rest::extract(&frame(vec![])).unwrap();
    assert!(args.rest.is_empty());
}

#[test]
fn regexp_new_pattern_only() {
    let args = RegexpNew::extract(&frame(vec![text("a+")])).unwrap();
    assert_eq!(args.pattern, text("a+"));
    assert_eq!(args.options, None);
    assert_eq!(args.encoding, None);
}

#[test]
fn regexp_new_with_options() {
    let args = RegexpNew::extract(&frame(vec![text("a+"), Value::Fixnum(5)])).unwrap();
    assert_eq!(
        args.options,
        Some(Options { ignore_case: true, extended: false, multiline: true })
    );
    assert_eq!(args.encoding, Some(Encoding::Unset));
    let args = RegexpNew::extract(&frame(vec![text("a+"), Value::Fixnum(16 | 2)])).unwrap();
    assert_eq!(
        args.options,
        Some(Options { ignore_case: false, extended: true, multiline: false })
    );
    assert_eq!(args.encoding, Some(Encoding::Fixed));
}

#[test]
fn regexp_new_with_three_arguments_reads_options_and_encoding() {
    let args =
        RegexpNew::extract(&frame(vec![text("a+"), Value::Fixnum(1), text("n")])).unwrap();
    assert_eq!(
        args.options,
        Some(Options { ignore_case: true, extended: false, multiline: false })
    );
    assert_eq!(args.encoding, Some(Encoding::No));
    let args = RegexpNew::extract(&frame(vec![text("a+"), text("mx"), Value::Nil])).unwrap();
    assert_eq!(
        args.options,
        Some(Options { ignore_case: false, extended: true, multiline: true })
    );
    assert_eq!(args.encoding, Some(Encoding::Unset));
    let args =
        RegexpNew::extract(&frame(vec![text("a+"), Value::Nil, Value::Fixnum(16)])).unwrap();
    assert_eq!(
        args.options,
        Some(Options { ignore_case: false, extended: false, multiline: false })
    );
    assert_eq!(args.encoding, Some(Encoding::Fixed));
}

#[test]
fn regexp_new_with_three_arguments_takes_the_encoding_from_the_third() {
    let args =
        RegexpNew::extract(&frame(vec![text("a+"), Value::Fixnum(32), text("u")])).unwrap();
    assert_eq!(args.encoding, Some(Encoding::Fixed));
    let args = RegexpNew::extract(&frame(vec![text("a+"), text("n"), text("")])).unwrap();
    assert_eq!(args.encoding, Some(Encoding::Unset));
}

#[test]
fn regexp_new_errors() {
    assert_eq!(
        RegexpNew::extract(&frame(vec![])).err(),
        Some(ArtichokeError::ArgCount { given: 0, required: 1, admitted: Some(3) })
    );
    assert_eq!(
        RegexpNew::extract(&frame(vec![text("a"), Value::Fixnum(64)])).err(),
        Some(ArtichokeError::Exec(String::from("Invalid Regexp flags")))
    );
    assert_eq!(
        RegexpNew::extract(&frame(vec![text("a"), Value::Nil, text("i")])).err(),
        Some(ArtichokeError::Exec(String::from("Invalid Regexp encoding")))
    );
    assert_eq!(
        RegexpNew::extract(&frame(vec![text("a"), Value::Fixnum(64), text("n")])).err(),
        Some(ArtichokeError::Exec(String::from("Invalid Regexp flags")))
    );
    assert_eq!(
        RegexpNew::extract(&frame(vec![text("a"), Value::Fixnum(64), text("z")])).err(),
        Some(ArtichokeError::Exec(String::from("Invalid Regexp flags")))
    );
    assert_eq!(
        RegexpNew::extract(&frame(vec![text("a"), text("un")])).err(),
        Some(ArtichokeError::Exec(String::from("Invalid Regexp encoding")))
    );
}

#[test]
fn options_from_each_kind_of_value() {
    let none = Options { ignore_case: false, extended: false, multiline: false };
    let ignore_case = Options { ignore_case: true, extended: false, multiline: false };
    assert_eq!(Options::from_value(&Value::Nil), Ok(none));
    assert_eq!(Options::from_value(&Value::Bool(false)), Ok(none));
    assert_eq!(Options::from_value(&Value::Bool(true)), Ok(ignore_case));
    assert_eq!(Options::from_value(&Value::Fixnum(0)), Ok(none));
    assert_eq!(
        Options::from_value(&Value::Fixnum(7)),
        Ok(Options { ignore_case: true, extended: true, multiline: true })
    );
    assert_eq!(Options::from_value(&Value::Fixnum(32 | 1)), Ok(ignore_case));
    assert_eq!(
        Options::from_value(&text("mx")),
        Ok(Options { ignore_case: false, extended: true, multiline: true })
    );
    assert_eq!(Options::from_value(&text("")), Ok(none));
    assert_eq!(Options::from_value(&Value::String(vec![0xff])), Ok(ignore_case));
    assert_eq!(Options::from_value(&Value::Array(vec![])), Ok(ignore_case));
    assert_eq!(
        Options::from_value(&Value::Fixnum(8)),
        Err(ArtichokeError::Exec(String::from("Invalid Regexp flags")))
    );
    assert_eq!(
        Options::from_value(&Value::Fixnum(-1)),
        Err(ArtichokeError::Exec(String::from("Invalid Regexp flags")))
    );
}

#[test]
fn encoding_from_each_kind_of_value() {
    let invalid = Err(ArtichokeError::Exec(String::from("Invalid Regexp encoding")));
    assert_eq!(Encoding::from_value(&Value::Fixnum(16), false), Ok(Encoding::Fixed));
    assert_eq!(Encoding::from_value(&Value::Fixnum(32), false), Ok(Encoding::No));
    assert_eq!(Encoding::from_value(&Value::Fixnum(7), false), Ok(Encoding::Unset));
    assert_eq!(Encoding::from_value(&Value::Fixnum(32 | 4), true), Ok(Encoding::No));
    assert_eq!(Encoding::from_value(&Value::Fixnum(48), false), invalid);
    assert_eq!(Encoding::from_value(&Value::Fixnum(64), false), invalid);
    assert_eq!(Encoding::from_value(&text("u"), false), Ok(Encoding::Fixed));
    assert_eq!(Encoding::from_value(&text("s"), false), Ok(Encoding::Fixed));
    assert_eq!(Encoding::from_value(&text("e"), false), Ok(Encoding::Fixed));
    assert_eq!(Encoding::from_value(&text("n"), false), Ok(Encoding::No));
    assert_eq!(Encoding::from_value(&text(""), false), Ok(Encoding::Unset));
    assert_eq!(Encoding::from_value(&text("imxo"), true), Ok(Encoding::Unset));
    assert_eq!(Encoding::from_value(&text("in"), true), Ok(Encoding::No));
    assert_eq!(Encoding::from_value(&text("in"), false), invalid);
    assert_eq!(Encoding::from_value(&text("un"), true), invalid);
    assert_eq!(Encoding::from_value(&text("uu"), true), invalid);
    assert_eq!(Encoding::from_value(&text("z"), true), invalid);
    assert_eq!(Encoding::from_value(&Value::Nil, false), Ok(Encoding::Unset));
    assert_eq!(
        Encoding::from_value(&Value::String(vec![0xff]), false),
        Ok(Encoding::Unset)
    );
}
