use spiderfire_runtime::array::{Array, IteratorResult, PropertyFlags, Value};
use spiderfire_runtime::reader::{FileReader, FileReaderState, ReadResult, ReaderError};

fn int_of(v: &Value) -> Option<i32> {
    match v {
        Value::Int32(n) => Some(*n),
        _ => None,
    }
}

#[test]
fn new() {
    let array = Array::new();
    assert!(array.is_empty());
    assert_eq!(array.len(), 0);

    let array = Array::new_with_length(8);
    assert!(!array.is_empty());
    assert_eq!(array.len(), 8);
    assert!(!array.has(3));
}

#[test]
fn get_set() {
    const VALUE: i32 = 6;
    let mut array = Array::new();
    assert!(array.set(0, &Value::Int32(VALUE)));
    assert_eq!(array.len(), 1);

    assert!(array.has(0));
    let result = array.get(0).unwrap().unwrap();
    assert_eq!(int_of(&result), Some(VALUE));

    assert!(!array.has(1));
    let result = array.get(1).unwrap();
    assert!(result.is_none());
}

#[test]
fn get_set_as() {
    let mut array = Array::new();

    const STRING_VALUE: &str = "spiderfire";
    assert!(array.set_as(0, STRING_VALUE));
    assert_eq!(array.len(), 1);

    assert!(array.has(0));
    let result: String = array.get_as(0, true).unwrap().unwrap();
    assert_eq!(result, STRING_VALUE);

    const BOOL_VALUE: bool = true;
    assert!(array.set_as(1, &BOOL_VALUE));
    assert_eq!(array.len(), 2);

    assert!(array.has(1));
    let result: bool = array.get_as(1, true).unwrap().unwrap();
    assert_eq!(result, BOOL_VALUE);
}

#[test]
fn define_descriptor() {
    let mut array = Array::new();

    const VALUE: i32 = 6;
    let flags = PropertyFlags { read_only: true, permanent: true, enumerate: false };
    assert!(array.define(0, &Value::Int32(VALUE), flags));

    let result = array.get(0).unwrap().unwrap();
    assert_eq!(int_of(&result), Some(VALUE));

    let desc = array.get_descriptor(0).unwrap().unwrap();
    assert!(!desc.is_writable());
    assert!(!desc.is_configurable());

    assert!(array.set(0, &Value::Int32(VALUE + 1)));
    let result = array.get(0).unwrap().unwrap();
    assert_eq!(int_of(&result), Some(VALUE));
}

#[test]
fn delete_sparse() {
    let mut array = Array::new();
    array.set_as(0, &0);
    array.set_as(1, &1);
    assert_eq!(array.len(), 2);

    assert!(array.delete(0));

    assert!(!array.has(0));
    assert!(array.has(1));
    assert_eq!(array.len(), 2);
}

#[test]
fn iter() {
    let mut array = Array::new();
    assert!(array.set_as(0, &0));
    assert!(array.set_as(1, &1));
    assert!(array.set_as(3, &3));

    let indices = array.indices(None).to_vec();
    assert_eq!(indices, [0, 1, 3]);

    let pairs: Vec<(u32, i32)> = array.iter(None).to_vec().iter().map(|(k, v)| (*k, int_of(v).unwrap())).collect();
    assert_eq!(pairs, [(0, 0), (1, 1), (3, 3)]);

    let mut it = array.iter(None);
    let (k, v) = it.next().unwrap();
    assert_eq!((k, int_of(&v.unwrap())), (0, Some(0)));
    let mut back = array.indices(None);
    assert_eq!(back.next_back(), Some(3));
    assert_eq!(back.next(), Some(0));
}

#[test]
fn hidden_elements_are_listed_on_request() {
    let mut array = Array::new();
    let hidden = PropertyFlags { read_only: false, permanent: false, enumerate: false };
    array.define(2, &Value::Null, hidden);
    array.set_as(5, &true);
    assert_eq!(array.len(), 6);
    assert_eq!(array.indices(None).to_vec(), [5]);
    let flags = spiderfire_runtime::array::IteratorFlags { hidden: true };
    assert_eq!(array.indices(Some(flags)).to_vec(), [2, 5]);
}

#[test]
fn permanent_elements_stay() {
    let mut array = Array::new();
    let permanent = PropertyFlags { read_only: false, permanent: true, enumerate: true };
    assert!(array.define(0, &Value::Int32(1), permanent));
    assert!(!array.delete(0));
    assert!(!array.define(0, &Value::Int32(2), permanent));
    assert!(array.set(0, &Value::Int32(3)));
    assert_eq!(int_of(&array.get(0).unwrap().unwrap()), Some(3));
    assert!(!array.set(u32::MAX, &Value::Null));
}

#[test]
fn loose_conversions() {
    let mut array = Array::new();
    array.set_as(0, &-42);
    array.set_as(1, "");
    array.set(2, &Value::Null);
    let s: Option<String> = array.get_as(0, false).unwrap();
    assert_eq!(s.as_deref(), Some("-42"));
    let s: Option<String> = array.get_as(0, true).unwrap();
    assert!(s.is_none());
    let b: Option<bool> = array.get_as(1, false).unwrap();
    assert_eq!(b, Some(false));
    let n: Option<i32> = array.get_as(2, false).unwrap();
    assert_eq!(n, Some(0));
    let n: Option<i32> = array.get_as(2, true).unwrap();
    assert_eq!(n, None);
    let r = IteratorResult::new(Value::Bool(true), false);
    assert!(!r.done);
}

#[test]
fn reader_loads_once() {
    let mut state = FileReaderState::default();
    assert_eq!(state, FileReaderState::Empty);
    assert_eq!(state.validate(), Ok(()));
    assert_eq!(state, FileReaderState::Loading);
    assert_eq!(state.validate(), Err(ReaderError::InvalidState));
    state.finish();
    assert_eq!(state.validate(), Ok(()));
}

#[test]
fn reader_refuses_second_read_while_loading() {
    let mut reader = FileReader::constructor();
    assert_eq!(reader.get_ready_state(), 0);
    assert_eq!(reader.begin_read(), Ok(()));
    assert_eq!(reader.get_ready_state(), 1);
    assert_eq!(reader.begin_read(), Err(ReaderError::InvalidState));
    reader.complete(ReadResult::Text("x".to_string()));
    assert_eq!(reader.get_ready_state(), 2);
    assert!(reader.result.is_some());
}
