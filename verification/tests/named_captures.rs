use artichoke_backend::embed::Heap;
use artichoke_backend::extn::matchdata::named_captures::{method, Error};
use artichoke_backend::extn::matchdata::{MatchData, Region};
use artichoke_backend::value::Value;

fn text(s: &str) -> Value {
    Value::String(s.as_bytes().to_vec())
}

fn some(s: &str) -> Option<String> {
    Some(String::from(s))
}

fn matched(
    string: &str,
    capture_names: Option<Vec<Option<String>>>,
    captures: Option<Vec<Option<String>>>,
) -> MatchData {
    MatchData {
        string: String::from(string),
        region: Region { start: 0, end: string.len() },
        capture_names,
        captures,
    }
}

fn wrapped(data: MatchData) -> (Heap<MatchData>, Value) {
    let mut heap = Heap::new(7);
    let handle = heap.insert(data);
    let value = heap.wrap(handle);
    (heap, value)
}

#[test]
fn named_captures_by_name() {
    let (heap, value) = wrapped(matched(
        "2019-06",
        Some(vec![None, some("year"), None, some("month")]),
        Some(vec![some("2019-06"), some("2019"), some("-"), some("06")]),
    ));
    assert_eq!(
        method(&heap, &value),
        Ok(Value::Hash(vec![
            (text("year"), Value::Array(vec![text("2019")])),
            (text("month"), Value::Array(vec![text("06")])),
        ]))
    );
}

#[test]
fn named_captures_keep_all_occurrences_of_a_name_in_first_position() {
    let (heap, value) = wrapped(matched(
        "xyz",
        Some(vec![None, some("a"), some("b"), some("a"), some("b"), some("c")]),
        Some(vec![some("xyz"), some("x"), None, some("z"), some("y")]),
    ));
    assert_eq!(
        method(&heap, &value),
        Ok(Value::Hash(vec![
            (text("a"), Value::Array(vec![text("x"), text("z")])),
            (text("b"), Value::Array(vec![Value::Nil, text("y")])),
            (text("c"), Value::Array(vec![Value::Nil])),
        ]))
    );
}

#[test]
fn named_captures_without_named_groups() {
    let (heap, value) = wrapped(matched(
        "ab",
        Some(vec![None, None]),
        Some(vec![some("ab"), some("a")]),
    ));
    assert_eq!(method(&heap, &value), Ok(Value::Hash(vec![])));
}

#[test]
fn named_captures_errors() {
    let (heap, value) = wrapped(matched(
        "",
        None,
        Some(vec![]),
    ));
    assert_eq!(method(&heap, &value), Err(Error::Fatal));
    let (heap, value) = wrapped(matched(
        "a",
        Some(vec![None, some("a")]),
        None,
    ));
    assert_eq!(method(&heap, &value), Err(Error::NoMatch));
    assert_eq!(method(&heap, &Value::Nil), Err(Error::Fatal));
    assert_eq!(method(&heap, &Value::Data { class: 8, slot: 0 }), Err(Error::Fatal));
    assert_eq!(method(&heap, &Value::Data { class: 7, slot: 1 }), Err(Error::Fatal));
}

#[test]
fn named_captures_leave_the_reference_count_alone() {
    let (heap, value) = wrapped(matched(
        "a",
        Some(vec![None]),
        Some(vec![some("a")]),
    ));
    for _ in 0..3 {
        assert!(method(&heap, &value).is_ok());
    }
    assert_eq!(heap.strong_count(0), 1);
}

#[test]
fn match_against_is_the_region_of_the_string() {
    let mut data = matched("héllo wörld", Some(vec![None]), None);
    assert!(data.region_fits());
    assert_eq!(data.match_against(), "héllo wörld");
    data.region = Region { start: 0, end: 6 };
    assert!(data.region_fits());
    assert_eq!(data.match_against(), "héllo");
    data.region = Region { start: 7, end: 13 };
    assert!(data.region_fits());
    assert_eq!(data.match_against(), "wörld");
    data.region = Region { start: 3, end: 3 };
    assert!(data.region_fits());
    assert_eq!(data.match_against(), "");
    data.region = Region { start: 13, end: 13 };
    assert!(data.region_fits());
    assert_eq!(data.match_against(), "");
}

#[test]
fn a_region_must_lie_in_the_string_between_characters() {
    let mut data = matched("héllo", Some(vec![None]), None);
    data.region = Region { start: 2, end: 6 };
    assert!(!data.region_fits());
    data.region = Region { start: 0, end: 2 };
    assert!(!data.region_fits());
    data.region = Region { start: 4, end: 3 };
    assert!(!data.region_fits());
    data.region = Region { start: 0, end: 7 };
    assert!(!data.region_fits());
    data.region = Region { start: 7, end: 7 };
    assert!(!data.region_fits());
}
