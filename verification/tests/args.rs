use artichoke_backend::args::{ArgSpec, Frame};
use artichoke_backend::value::Value;
use artichoke_backend::ArtichokeError;

fn frame(count: i64) -> Frame {
    Frame { args: (0..count).map(Value::Fixnum).collect(), block: None }
}

#[test]
fn arity_two_required_one_optional() {
    let spec = ArgSpec::new().required(2).optional(1);
    assert_eq!(
        spec.extract(&frame(1)).err(),
        Some(ArtichokeError::ArgCount { given: 1, required: 2, admitted: Some(3) })
    );
    assert!(spec.extract(&frame(2)).is_ok());
    assert!(spec.extract(&frame(3)).is_ok());
    assert_eq!(
        spec.extract(&frame(4)).err(),
        Some(ArtichokeError::ArgCount { given: 4, required: 2, admitted: Some(3) })
    );
}

#[test]
fn optional_slots_carry_a_marker_when_not_given() {
    let spec = ArgSpec::new().required(1).optional(2);
    let args = spec.extract(&frame(2)).unwrap();
    assert_eq!(args.required, vec![Value::Fixnum(0)]);
    assert_eq!(args.optional, vec![Some(Value::Fixnum(1)), None]);
    assert!(args.rest.is_empty());
    assert_eq!(args.block, None);
}

#[test]
fn rest_captures_what_is_left() {
    let spec = ArgSpec::new().required(1).optional(1).rest();
    let args = spec.extract(&frame(5)).unwrap();
    assert_eq!(args.required, vec![Value::Fixnum(0)]);
    assert_eq!(args.optional, vec![Some(Value::Fixnum(1))]);
    assert_eq!(
        args.rest,
        vec![Value::Fixnum(2), Value::Fixnum(3), Value::Fixnum(4)]
    );
    let args = spec.extract(&frame(1)).unwrap();
    assert_eq!(args.optional, vec![None]);
    assert!(args.rest.is_empty());
}

#[test]
fn rest_lifts_the_upper_bound() {
    let spec = ArgSpec::new().required(2).rest();
    assert_eq!(
        spec.extract(&frame(1)).err(),
        Some(ArtichokeError::ArgCount { given: 1, required: 2, admitted: None })
    );
    assert!(spec.extract(&frame(40)).is_ok());
}

#[test]
fn block_is_read_only_where_the_descriptor_takes_one() {
    let with_block = Frame { args: vec![], block: Some(Value::Proc(7)) };
    let args = ArgSpec::new().block().extract(&with_block).unwrap();
    assert_eq!(args.block, Some(Value::Proc(7)));
    let args = ArgSpec::new().extract(&with_block).unwrap();
    assert_eq!(args.block, None);
    let args = ArgSpec::new().block().extract(&frame(0)).unwrap();
    assert_eq!(args.block, None);
}

#[test]
fn no_arguments_admitted() {
    let spec = ArgSpec::new();
    assert!(spec.extract(&frame(0)).is_ok());
    assert_eq!(
        spec.extract(&frame(1)).err(),
        Some(ArtichokeError::ArgCount { given: 1, required: 0, admitted: Some(0) })
    );
}

#[test]
fn format_strings() {
    assert_eq!(ArgSpec::new().format(), b"\0".to_vec());
    assert_eq!(ArgSpec::new().required(1).format(), b"o\0".to_vec());
    assert_eq!(ArgSpec::new().required(1).optional(1).format(), b"o|o?\0".to_vec());
    assert_eq!(
        ArgSpec::new().required(1).optional(2).format(),
        b"o|o?o?\0".to_vec()
    );
    assert_eq!(ArgSpec::new().rest().format(), b"*\0".to_vec());
    assert_eq!(
        ArgSpec::new().required(2).optional(1).rest().block().format(),
        b"oo|o?*&\0".to_vec()
    );
}

#[test]
fn aspec_words() {
    assert_eq!(ArgSpec::new().aspec(), 0);
    assert_eq!(ArgSpec::new().required(1).aspec(), 1 << 18);
    assert_eq!(ArgSpec::new().optional(2).aspec(), 2 << 13);
    assert_eq!(ArgSpec::new().rest().aspec(), 1 << 12);
    assert_eq!(ArgSpec::new().block().aspec(), 1);
    assert_eq!(
        ArgSpec::new().required(3).optional(1).rest().block().aspec(),
        (3 << 18) | (1 << 13) | (1 << 12) | 1
    );
    assert_eq!(ArgSpec::new().required(33).aspec(), 1 << 18);
}
