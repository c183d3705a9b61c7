use artichoke_backend::args::ArgSpec;
use artichoke_backend::extn::error::{Exception, ExceptionClass};
use artichoke_backend::extn::string::scan;
use artichoke_backend::extn::string::{patch, Event, Patch, RString};
use artichoke_backend::def::{Kind, Spec};
use artichoke_backend::state::{Progress, State};
use artichoke_backend::value::Value;
use artichoke_backend::ArtichokeError;

fn text(s: &str) -> Value {
    Value::String(s.as_bytes().to_vec())
}

fn under_way(interp: &State) -> Option<&Spec> {
    match interp.progress() {
        Progress::Idle => None,
        Progress::Evaluating(spec) | Progress::Defining(spec) => Some(spec),
    }
}

#[test]
fn patch_registers_the_class_and_its_methods() {
    let mut interp = State::new();
    assert_eq!(patch(&mut interp, Event::Start), Ok(Patch::Evaluate));
    assert!(interp.class_spec("String").is_none());
    assert!(matches!(interp.progress(), Progress::Evaluating(_)));
    let spec = under_way(&interp).unwrap();
    assert_eq!(spec.name(), "String");
    assert_eq!(spec.kind(), Kind::Class);
    assert_eq!(spec.method_count(), 0);
    assert_eq!(patch(&mut interp, Event::Evaluated(Ok(()))), Ok(Patch::Define));
    assert!(interp.class_spec("String").is_none());
    assert!(matches!(interp.progress(), Progress::Defining(_)));
    assert_eq!(under_way(&interp).unwrap().method_count(), 2);
    assert_eq!(patch(&mut interp, Event::Defined(true)), Ok(Patch::Done));
    assert!(matches!(interp.progress(), Progress::Idle));
    let spec = interp.class_spec("String").unwrap();
    assert_eq!(spec.name(), "String");
    assert_eq!(spec.method_count(), 2);
    assert_eq!(spec.method("ord"), Some(0));
    assert_eq!(spec.method("scan"), Some(1 << 18));
    assert_eq!(spec.method("scan"), Some(ArgSpec::new().required(1).aspec()));
    assert_eq!(spec.method("upcase"), None);
}

#[test]
fn patch_is_done_once_the_class_is_registered() {
    let mut interp = State::new();
    assert_eq!(patch(&mut interp, Event::Start), Ok(Patch::Evaluate));
    assert_eq!(patch(&mut interp, Event::Evaluated(Ok(()))), Ok(Patch::Define));
    assert_eq!(patch(&mut interp, Event::Defined(true)), Ok(Patch::Done));
    assert_eq!(patch(&mut interp, Event::Start), Ok(Patch::Done));
    assert_eq!(patch(&mut interp, Event::Start), Ok(Patch::Done));
    assert_eq!(interp.class_spec("String").unwrap().method_count(), 2);
    assert!(matches!(interp.progress(), Progress::Idle));
}

#[test]
fn patch_that_was_begun_is_not_done() {
    let mut interp = State::new();
    assert_eq!(patch(&mut interp, Event::Start), Ok(Patch::Evaluate));
    assert_eq!(patch(&mut interp, Event::Start), Ok(Patch::Evaluate));
    assert_eq!(patch(&mut interp, Event::Evaluated(Ok(()))), Ok(Patch::Define));
    assert_eq!(patch(&mut interp, Event::Start), Ok(Patch::Evaluate));
    assert_eq!(under_way(&interp).unwrap().method_count(), 0);
    assert!(interp.class_spec("String").is_none());
}

#[test]
fn patch_hands_on_the_error_of_the_evaluation_and_can_be_tried_again() {
    let mut interp = State::new();
    patch(&mut interp, Event::Start).unwrap();
    let failure = ArtichokeError::Exec(String::from("SyntaxError"));
    assert_eq!(
        patch(&mut interp, Event::Evaluated(Err(failure))),
        Err(ArtichokeError::Exec(String::from("SyntaxError")))
    );
    assert!(interp.class_spec("String").is_none());
    assert!(matches!(interp.progress(), Progress::Idle));
    assert_eq!(patch(&mut interp, Event::Start), Ok(Patch::Evaluate));
    assert_eq!(patch(&mut interp, Event::Evaluated(Ok(()))), Ok(Patch::Define));
    assert_eq!(patch(&mut interp, Event::Defined(true)), Ok(Patch::Done));
    assert_eq!(interp.class_spec("String").unwrap().method_count(), 2);
}

#[test]
fn patch_fails_when_the_class_cannot_be_defined_and_can_be_tried_again() {
    let mut interp = State::new();
    patch(&mut interp, Event::Start).unwrap();
    patch(&mut interp, Event::Evaluated(Ok(()))).unwrap();
    assert_eq!(patch(&mut interp, Event::Defined(false)), Err(ArtichokeError::New));
    assert!(interp.class_spec("String").is_none());
    assert!(matches!(interp.progress(), Progress::Idle));
    assert_eq!(patch(&mut interp, Event::Start), Ok(Patch::Evaluate));
}

#[test]
fn patch_events_follow_their_step() {
    let mut interp = State::new();
    assert_eq!(
        patch(&mut interp, Event::Defined(true)),
        Err(ArtichokeError::NotDefined(String::from("String")))
    );
    assert_eq!(patch(&mut interp, Event::Defined(false)), Err(ArtichokeError::New));
    assert_eq!(
        patch(&mut interp, Event::Evaluated(Ok(()))),
        Err(ArtichokeError::NotDefined(String::from("String")))
    );
    let failure = ArtichokeError::Exec(String::from("NameError"));
    assert_eq!(
        patch(&mut interp, Event::Evaluated(Err(failure))),
        Err(ArtichokeError::Exec(String::from("NameError")))
    );
    assert!(interp.class_spec("String").is_none());
    assert!(matches!(interp.progress(), Progress::Idle));
    patch(&mut interp, Event::Start).unwrap();
    assert_eq!(
        patch(&mut interp, Event::Defined(true)),
        Err(ArtichokeError::NotDefined(String::from("String")))
    );
    assert!(matches!(interp.progress(), Progress::Evaluating(_)));
    assert!(interp.class_spec("String").is_none());
}

#[test]
fn patch_leaves_a_registered_class_alone() {
    let mut interp = State::new();
    interp.def_class("String");
    assert_eq!(patch(&mut interp, Event::Start), Ok(Patch::Done));
    assert_eq!(interp.class_spec("String").unwrap().method_count(), 0);
    assert!(matches!(interp.progress(), Progress::Idle));
}

#[test]
fn state_registers_a_specification_under_its_name() {
    let mut interp = State::new();
    let mut spec = Spec::new("Comparable", Kind::Module);
    spec.add_method("clamp", 2 << 18);
    interp.register(spec);
    assert_eq!(interp.module_spec("Comparable").unwrap().method("clamp"), Some(2 << 18));
    let previous = interp.set_progress(Progress::Defining(Spec::new("Foo", Kind::Class)));
    assert!(matches!(previous, Progress::Idle));
    let previous = interp.set_progress(Progress::Idle);
    assert!(matches!(previous, Progress::Defining(_)));
}

#[test]
fn ord_is_the_code_point_of_the_first_character() {
    assert_eq!(RString::ord(&text("a")), Ok(Value::Fixnum(97)));
    assert_eq!(RString::ord(&text("abc")), Ok(Value::Fixnum(97)));
    assert_eq!(RString::ord(&text("é")), Ok(Value::Fixnum(233)));
    assert_eq!(RString::ord(&text("💎")), Ok(Value::Fixnum(128_142)));
}

#[test]
fn ord_of_an_empty_string_raises() {
    assert_eq!(
        RString::ord(&text("")),
        Err(Exception {
            class: ExceptionClass::ArgumentError,
            message: String::from("empty string"),
        })
    );
}

#[test]
fn ord_of_what_is_no_string_is_nil() {
    assert_eq!(RString::ord(&Value::Fixnum(1)), Ok(Value::Nil));
    assert_eq!(RString::ord(&Value::String(vec![0xff])), Ok(Value::Nil));
}

#[test]
fn scan_maps_errors_to_exceptions() {
    assert_eq!(
        RString::scan(Ok(Value::Array(vec![text("a")]))),
        Ok(Value::Array(vec![text("a")]))
    );
    assert_eq!(
        RString::scan(Err(scan::Error::WrongType)),
        Err(Exception {
            class: ExceptionClass::TypeError,
            message: String::from("wrong argument type (expected Regexp)"),
        })
    );
    assert_eq!(
        RString::scan(Err(scan::Error::Fatal)),
        Err(Exception {
            class: ExceptionClass::RuntimeError,
            message: String::from("fatal String#scan error"),
        })
    );
}

#[test]
fn raise_builds_the_exception() {
    assert_eq!(
        ExceptionClass::TypeError.raise("no"),
        Exception { class: ExceptionClass::TypeError, message: String::from("no") }
    );
}
