use artichoke_backend::convert::Error;
use artichoke_backend::decimal::push_decimal;
use artichoke_backend::types::{Ruby, Rust, VType};
use artichoke_backend::ArtichokeError;

#[test]
fn messages() {
    assert_eq!(ArtichokeError::ArgSpec.to_string(), "could not generate argspec");
    assert_eq!(
        ArtichokeError::ConvertToRuby(Error { from: Rust::Vec, to: Ruby::Array }).to_string(),
        "conversion error: failed to convert from rust Vec to ruby Array"
    );
    assert_eq!(
        ArtichokeError::ConvertToRust(Error { from: Ruby::Fixnum, to: Rust::String }).to_string(),
        "conversion error: failed to convert from ruby Fixnum to rust String"
    );
    assert_eq!(
        ArtichokeError::Exec(String::from("trace (RuntimeError)")).to_string(),
        "trace (RuntimeError)"
    );
    assert_eq!(ArtichokeError::New.to_string(), "failed to create mrb interpreter");
    assert_eq!(
        ArtichokeError::NotDefined(String::from("Foo::Bar")).to_string(),
        "Foo::Bar not defined"
    );
    assert_eq!(
        ArtichokeError::SourceNotFound(String::from("source.rb")).to_string(),
        "Could not load Ruby source source.rb"
    );
    assert_eq!(
        ArtichokeError::TooManyArgs { given: 17, max: 16 }.to_string(),
        "Too many args for funcall. Gave 17, but max is 16"
    );
    assert_eq!(
        ArtichokeError::Uninitialized.to_string(),
        "mrb interpreter not initialized"
    );
    assert_eq!(
        ArtichokeError::UnreachableValue(VType::Free).to_string(),
        "extracted unreachable type MRB_TT_FREE from interpreter"
    );
    assert_eq!(
        ArtichokeError::Vfs(String::from("not a file")).to_string(),
        "mrb vfs io error: not a file"
    );
}

#[test]
fn arg_count_messages() {
    assert_eq!(
        ArtichokeError::ArgCount { given: 1, required: 2, admitted: Some(3) }.to_string(),
        "wrong number of arguments (given 1, expected 2..3)"
    );
    assert_eq!(
        ArtichokeError::ArgCount { given: 0, required: 1, admitted: Some(1) }.to_string(),
        "wrong number of arguments (given 0, expected 1)"
    );
    assert_eq!(
        ArtichokeError::ArgCount { given: 0, required: 10, admitted: None }.to_string(),
        "wrong number of arguments (given 0, expected 10+)"
    );
}

#[test]
fn errors_are_equal_when_they_read_the_same() {
    assert_eq!(
        ArtichokeError::Vfs(String::from("x")),
        ArtichokeError::Vfs(String::from("x"))
    );
    assert_ne!(
        ArtichokeError::Vfs(String::from("x")),
        ArtichokeError::Vfs(String::from("y"))
    );
    assert_ne!(ArtichokeError::New, ArtichokeError::Uninitialized);
    assert_eq!(
        ArtichokeError::Exec(String::from("failed to create mrb interpreter")),
        ArtichokeError::New
    );
}

#[test]
fn cause_of_wrapping_errors() {
    assert_eq!(
        ArtichokeError::ConvertToRuby(Error { from: Rust::Bool, to: Ruby::Bool }).cause(),
        Some(String::from("failed to convert from rust bool to ruby Boolean"))
    );
    assert_eq!(
        ArtichokeError::ConvertToRust(Error { from: Ruby::Nil, to: Rust::Bytes }).cause(),
        Some(String::from("failed to convert from ruby NilClass to rust Vec<u8>"))
    );
    assert_eq!(
        ArtichokeError::Vfs(String::from("gone")).cause(),
        Some(String::from("gone"))
    );
    assert_eq!(ArtichokeError::New.cause(), None);
    assert_eq!(ArtichokeError::Exec(String::from("x")).cause(), None);
    assert_eq!(ArtichokeError::ArgSpec.description(), "artichoke interpreter error");
}

#[test]
fn type_names() {
    assert_eq!(Ruby::Hash.name(), "Hash");
    assert_eq!(Ruby::Data.name(), "Rust-backed Ruby instance");
    assert_eq!(Rust::Pairs.name(), "Vec<(K, V)>");
    assert_eq!(Rust::UnsignedInt.name(), "usize");
    assert_eq!(VType::False.name(), "MRB_TT_FALSE");
    assert_eq!(VType::MaxDefine.name(), "MRB_TT_MAXDEFINE");
}

#[test]
fn decimal_notation() {
    let mut text = String::from("n=");
    push_decimal(&mut text, 0);
    assert_eq!(text, "n=0");
    let mut text = String::new();
    push_decimal(&mut text, 9);
    push_decimal(&mut text, 10);
    push_decimal(&mut text, 1_234_567_890);
    assert_eq!(text, "9101234567890");
    let mut text = String::new();
    push_decimal(&mut text, usize::MAX);
    assert_eq!(text, format!("{}", usize::MAX));
}
