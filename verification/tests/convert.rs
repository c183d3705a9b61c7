use artichoke_backend::convert::{Convert, Error};
use artichoke_backend::types::{Ruby, Rust};
use artichoke_backend::value::Value;

fn text(s: &str) -> Value {
    Value::String(s.as_bytes().to_vec())
}

#[test]
fn bool_converts_both_ways() {
    assert_eq!(true.convert(), Value::Bool(true));
    assert_eq!(false.convert(), Value::Bool(false));
    assert_eq!(bool::try_convert(&Value::Bool(true)), Ok(true));
    assert_eq!(bool::try_convert(&Value::Bool(false)), Ok(false));
}

#[test]
fn bool_rejects_other_tags() {
    assert_eq!(
        bool::try_convert(&Value::Nil),
        Err(Error { from: Ruby::Nil, to: Rust::Bool })
    );
    assert_eq!(
        bool::try_convert(&Value::Fixnum(1)),
        Err(Error { from: Ruby::Fixnum, to: Rust::Bool })
    );
}

#[test]
fn integers_convert_both_ways() {
    assert_eq!(7i64.convert(), Value::Fixnum(7));
    assert_eq!(i64::MIN.convert(), Value::Fixnum(i64::MIN));
    assert_eq!((-3i32).convert(), Value::Fixnum(-3));
    assert_eq!(u32::MAX.convert(), Value::Fixnum(4_294_967_295));
    assert_eq!(9u64.convert(), Value::Fixnum(9));
    assert_eq!(12usize.convert(), Value::Fixnum(12));
    assert_eq!(i64::try_convert(&Value::Fixnum(-5)), Ok(-5));
    assert_eq!(i32::try_convert(&Value::Fixnum(-5)), Ok(-5));
    assert_eq!(u32::try_convert(&Value::Fixnum(5)), Ok(5));
    assert_eq!(u64::try_convert(&Value::Fixnum(5)), Ok(5));
    assert_eq!(usize::try_convert(&Value::Fixnum(5)), Ok(5));
}

#[test]
fn integer_does_not_coerce_a_string() {
    assert_eq!(
        i64::try_convert(&text("12")),
        Err(Error { from: Ruby::String, to: Rust::SignedInt })
    );
}

#[test]
fn narrow_integers_reject_values_out_of_range() {
    assert_eq!(
        i32::try_convert(&Value::Fixnum(2_147_483_648)),
        Err(Error { from: Ruby::Fixnum, to: Rust::SignedInt })
    );
    assert_eq!(i32::try_convert(&Value::Fixnum(2_147_483_647)), Ok(i32::MAX));
    assert_eq!(
        u32::try_convert(&Value::Fixnum(-1)),
        Err(Error { from: Ruby::Fixnum, to: Rust::UnsignedInt })
    );
    assert_eq!(
        u32::try_convert(&Value::Fixnum(4_294_967_296)),
        Err(Error { from: Ruby::Fixnum, to: Rust::UnsignedInt })
    );
    assert_eq!(
        u64::try_convert(&Value::Fixnum(-1)),
        Err(Error { from: Ruby::Fixnum, to: Rust::UnsignedInt })
    );
    assert_eq!(
        usize::try_convert(&Value::Fixnum(-1)),
        Err(Error { from: Ruby::Fixnum, to: Rust::UnsignedInt })
    );
    assert_eq!(
        usize::try_convert(&Value::Float(0)),
        Err(Error { from: Ruby::Float, to: Rust::UnsignedInt })
    );
}

#[test]
fn string_converts_both_ways() {
    let host = String::from("héllo");
    let value = host.convert();
    assert_eq!(value, Value::String(vec![0x68, 0xc3, 0xa9, 0x6c, 0x6c, 0x6f]));
    assert_eq!(String::try_convert(&value), Ok(host));
}

#[test]
fn string_rejects_invalid_utf8() {
    let value = Value::String(vec![0xff, 0xfe]);
    assert_eq!(
        String::try_convert(&value),
        Err(Error { from: Ruby::String, to: Rust::String })
    );
    assert_eq!(Vec::<u8>::try_convert(&value), Ok(vec![0xff, 0xfe]));
}

#[test]
fn string_rejects_other_tags() {
    assert_eq!(
        String::try_convert(&Value::Fixnum(1)),
        Err(Error { from: Ruby::Fixnum, to: Rust::String })
    );
    assert_eq!(
        Vec::<u8>::try_convert(&Value::Array(vec![])),
        Err(Error { from: Ruby::Array, to: Rust::Bytes })
    );
}

#[test]
fn bytes_convert_to_a_string_value() {
    let host: Vec<u8> = vec![1, 2, 3];
    assert_eq!(host.convert(), Value::String(vec![1, 2, 3]));
}

#[test]
fn option_maps_none_to_nil() {
    assert_eq!(None::<i64>.convert(), Value::Nil);
    assert_eq!(Some(4i64).convert(), Value::Fixnum(4));
    assert_eq!(Option::<i64>::try_convert(&Value::Nil), Ok(None));
    assert_eq!(Option::<i64>::try_convert(&Value::Fixnum(4)), Ok(Some(4)));
    assert_eq!(
        Option::<i64>::try_convert(&Value::Bool(true)),
        Err(Error { from: Ruby::Bool, to: Rust::SignedInt })
    );
}

#[test]
fn nested_option_round_trips_through_the_vm() {
    let host: Option<Option<i64>> = Some(None);
    let value = host.convert();
    assert_eq!(value, Value::Nil);
    let back = Option::<Option<i64>>::try_convert(&value).unwrap();
    assert_eq!(back, None);
    assert_eq!(back.convert(), value);
}

#[test]
fn vec_keeps_the_order_of_its_elements() {
    let host: Vec<i64> = vec![3, 1, 2];
    let value = host.convert();
    assert_eq!(
        value,
        Value::Array(vec![Value::Fixnum(3), Value::Fixnum(1), Value::Fixnum(2)])
    );
    assert_eq!(Vec::<i64>::try_convert(&value), Ok(vec![3, 1, 2]));
}

#[test]
fn vec_fails_with_the_error_of_the_first_element_that_does_not_fit() {
    let value = Value::Array(vec![
        Value::Fixnum(1),
        Value::Bool(true),
        text("x"),
    ]);
    assert_eq!(
        Vec::<i64>::try_convert(&value),
        Err(Error { from: Ruby::Bool, to: Rust::SignedInt })
    );
    assert_eq!(
        Vec::<i64>::try_convert(&Value::Fixnum(1)),
        Err(Error { from: Ruby::Fixnum, to: Rust::Vec })
    );
}

#[test]
fn empty_vec_converts_to_an_empty_array() {
    let host: Vec<bool> = vec![];
    assert_eq!(host.convert(), Value::Array(vec![]));
    assert_eq!(Vec::<bool>::try_convert(&Value::Array(vec![])), Ok(vec![]));
}

#[test]
fn pairs_keep_their_order_and_repeated_keys() {
    let host: Vec<(String, i64)> = vec![
        (String::from("b"), 1),
        (String::from("a"), 2),
        (String::from("b"), 3),
    ];
    let value = host.convert();
    assert_eq!(
        value,
        Value::Hash(vec![
            (text("b"), Value::Fixnum(1)),
            (text("a"), Value::Fixnum(2)),
            (text("b"), Value::Fixnum(3)),
        ])
    );
    assert_eq!(Vec::<(String, i64)>::try_convert(&value), Ok(host));
}

#[test]
fn pairs_fail_on_the_key_before_the_value() {
    let value = Value::Hash(vec![(Value::Fixnum(1), Value::Nil)]);
    assert_eq!(
        Vec::<(String, i64)>::try_convert(&value),
        Err(Error { from: Ruby::Fixnum, to: Rust::String })
    );
    let value = Value::Hash(vec![(text("k"), Value::Nil)]);
    assert_eq!(
        Vec::<(String, i64)>::try_convert(&value),
        Err(Error { from: Ruby::Nil, to: Rust::SignedInt })
    );
    assert_eq!(
        Vec::<(String, i64)>::try_convert(&Value::Array(vec![])),
        Err(Error { from: Ruby::Array, to: Rust::Pairs })
    );
}

#[test]
fn value_passes_through_unchanged() {
    let value = Value::Array(vec![Value::Nil, Value::Range { begin: 1, end: 2, exclusive: true }]);
    assert_eq!(value.convert(), value);
    assert_eq!(Value::try_convert(&value), Ok(value.clone()));
}

#[test]
fn nested_collections_round_trip() {
    let host: Vec<(String, Vec<Option<String>>)> = vec![
        (String::from("year"), vec![Some(String::from("2019")), None]),
        (String::from("day"), vec![]),
    ];
    let value = host.convert();
    let back = Vec::<(String, Vec<Option<String>>)>::try_convert(&value).unwrap();
    assert_eq!(back, host);
    assert_eq!(back.convert(), value);
}

#[test]
fn ruby_type_names_each_tag() {
    assert_eq!(Value::Nil.ruby_type(), Ruby::Nil);
    assert_eq!(Value::Bool(true).ruby_type(), Ruby::Bool);
    assert_eq!(Value::Fixnum(0).ruby_type(), Ruby::Fixnum);
    assert_eq!(Value::Float(0).ruby_type(), Ruby::Float);
    assert_eq!(text("").ruby_type(), Ruby::String);
    assert_eq!(Value::Array(vec![]).ruby_type(), Ruby::Array);
    assert_eq!(Value::Hash(vec![]).ruby_type(), Ruby::Hash);
    assert_eq!(
        Value::Range { begin: 0, end: 0, exclusive: false }.ruby_type(),
        Ruby::Range
    );
    assert_eq!(Value::Data { class: 1, slot: 0 }.ruby_type(), Ruby::Data);
    assert_eq!(Value::Proc(1).ruby_type(), Ruby::Proc);
}
