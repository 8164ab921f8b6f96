use neon_core::values::{
    binary_data_len, call_kind, lower_str, lower_str_unwrap, prepare_call, string_size, CallKind,
    ClassMap, DateError, DateErrorKind, StringOverflow, Throw, V8_ARGC_LIMIT,
};

#[test]
fn lowering_strings() {
    assert_eq!(lower_str("héllo"), Some(6));
    assert_eq!(lower_str(""), Some(0));
    assert_eq!(lower_str_unwrap("abc"), 3);
    assert_eq!(string_size("abcd"), Ok(4));
}

#[test]
fn string_overflow_message() {
    assert_eq!(StringOverflow(3000000000).message(), "string size out of range: 3000000000");
    assert!(StringOverflow(1) < StringOverflow(2));
}

#[test]
fn argument_count_limit() {
    assert_eq!(V8_ARGC_LIMIT, 65535);
    assert_eq!(prepare_call(0), Ok(0));
    assert_eq!(prepare_call(65535), Ok(65535));
    assert_eq!(prepare_call(65536), Err("too many arguments"));
}

#[test]
fn throw_and_call_kind() {
    assert_eq!(Throw.message(), "JavaScript Error");
    assert_eq!(Throw.description(), "javascript error");
    assert_eq!(call_kind(true), CallKind::Construct);
    assert_eq!(call_kind(false), CallKind::Call);
}

#[test]
fn date_errors() {
    assert_eq!(DateErrorKind::Overflow.as_str(), "Uncaught RangeError: Date overflow");
    assert_eq!(DateErrorKind::Underflow.as_str(), "Uncaught RangeError: Date underflow");
    let e = DateError(DateErrorKind::Underflow);
    assert_eq!(e.kind(), DateErrorKind::Underflow);
    assert_eq!(e.message(), "Uncaught RangeError: Date underflow");
}

#[test]
fn class_map_get_after_set() {
    let mut m: ClassMap<String> = ClassMap::new();
    assert_eq!(m.get(1), None);
    m.set(1, "a".to_string());
    m.set(2, "b".to_string());
    assert_eq!(m.get(1), Some(&"a".to_string()));
    m.set(1, "c".to_string());
    assert_eq!(m.get(1), Some(&"c".to_string()));
    assert_eq!(m.get(2), Some(&"b".to_string()));
    assert_eq!(m.get(3), None);
}

#[test]
fn binary_data_lengths() {
    assert_eq!(binary_data_len(16, 4), 4);
    assert_eq!(binary_data_len(17, 4), 4);
    assert_eq!(binary_data_len(8, 1), 8);
}

#[test]
fn class_map_last_set_wins() {
    let mut m: ClassMap<u32> = ClassMap::new();
    let sets = [(5u64, 1u32), (6, 2), (5, 3), (7, 4), (6, 5), (8, 6)];
    for (k, v) in sets {
        m.set(k, v);
    }
    assert_eq!(m.get(5), Some(&3));
    assert_eq!(m.get(6), Some(&5));
    assert_eq!(m.get(7), Some(&4));
    assert_eq!(m.get(8), Some(&6));
    assert_eq!(m.get(9), None);
}
