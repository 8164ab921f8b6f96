use neon_core::boxed::{
    boxed_string_concat, create_boxed_string, create_string_ref_cell, external_unit, person_greet,
    person_new, read_string_ref_cell, ref_person_set_name, string_ref_cell_concat,
    write_string_ref_cell, Person,
};
use neon_core::exports::{
    add_i32, add_u32, boxed_self, boxed_string, buffer_concat, extract_array_dedupe,
    fail_with_throw, hello, json_sort, json_sort_task, no_args_or_return, rs_renamed_json_sort,
    rs_renamed_json_sort_task, string_to_buf, with_macro_js_string, NUMBER, STRING,
};
use neon_core::tasks::{FailureTask, NumberTask, SuccessTask, SuccessWorker, TaskError, WorkerMessage};
use neon_core::text::{
    chars_of, concat2, concat3, contains, dedupe_strings, i64_to_decimal, is_whitespace,
    sort_strings, str_eq, str_le, string_from_chars, trim_end, trim_start, u64_to_decimal,
};
use neon_core::typescript::{
    ts_api_response, ts_async_noop, ts_bigint_return, ts_create_db, ts_get_user_list, ts_greet,
    ts_handle_string_return, ts_no_args_or_return, ts_query_db, ts_skipped_function, ApiResponse,
    CtorSkipped, Hidden, NoCtor, Pagination, Renamed,
};
use neon_core::bigint::JsBigInt;

fn strings(v: &[&str]) -> Vec<String> {
    v.iter().map(|s| s.to_string()).collect()
}

#[test]
fn exported_constants() {
    assert_eq!(NUMBER, 42);
    assert_eq!(STRING, "Hello, World!");
    no_args_or_return();
    assert_eq!(hello(), "hello node");
}

#[test]
fn json_sort_orders_by_code_point() {
    let input = strings(&["b", "a", "B", "é", "ab", "", "a"]);
    let expected = strings(&["", "B", "a", "a", "ab", "b", "é"]);
    assert_eq!(json_sort(input.clone()), expected);
    assert_eq!(rs_renamed_json_sort(input.clone()), expected);
    assert_eq!(json_sort_task(input.clone()), expected);
    assert_eq!(rs_renamed_json_sort_task(input.clone()), expected);
    let mut std_sorted = input.clone();
    std_sorted.sort();
    assert_eq!(sort_strings(input), std_sorted);
}

#[test]
fn fail_with_throw_fails() {
    assert_eq!(fail_with_throw("boom".to_string()), Err("boom".to_string()));
}

#[test]
fn boxed_and_numeric_exports() {
    assert_eq!(boxed_self("me".to_string()), "me");
    assert_eq!(boxed_string("s".to_string()), "s");
    assert_eq!(add_i32(-5, 3), -2);
    assert_eq!(add_u32(4000000000, 294967295), u32::MAX);
}

#[test]
fn buffers() {
    assert_eq!(buffer_concat(vec![1, 2], vec![3]), vec![1, 2, 3]);
    assert_eq!(buffer_concat(vec![], vec![]), Vec::<u8>::new());
    assert_eq!(string_to_buf("héllo".to_string()), "héllo".as_bytes().to_vec());
    assert_eq!(string_to_buf("€".to_string()), vec![0xE2, 0x82, 0xAC]);
}

#[test]
fn macro_string_and_dedupe() {
    assert_eq!(with_macro_js_string("hi".to_string()), "hi!");
    let mut r = extract_array_dedupe(strings(&["a", "b", "a", "c", "b"]));
    r.sort();
    assert_eq!(r, strings(&["a", "b", "c"]));
    let mut r = dedupe_strings(strings(&["x", "x"]));
    r.sort();
    assert_eq!(r, strings(&["x"]));
}

#[test]
fn boxed_person() {
    let mut p = person_new("Ann".to_string());
    assert_eq!(person_greet(&p), "Hello, Ann!");
    ref_person_set_name(&mut p, "Bob".to_string());
    assert_eq!(p.greet(), "Hello, Bob!");
    let mut q = Person::new("C".to_string());
    q.set_name("D".to_string());
    assert_eq!(q.greet(), "Hello, D!");
    external_unit();
    let r = neon_core::boxed::ref_person_new("Eve".to_string());
    assert_eq!(neon_core::boxed::ref_person_greet(&r), "Hello, Eve!");
}

#[test]
fn boxed_strings_and_cells() {
    let s = create_boxed_string("a".to_string());
    assert_eq!(boxed_string_concat(s, "b".to_string()), "ab");
    let mut cell = create_string_ref_cell("x".to_string());
    assert_eq!(read_string_ref_cell(&cell), "x");
    write_string_ref_cell(&mut cell, "y".to_string());
    assert_eq!(read_string_ref_cell(&cell), "y");
    assert_eq!(string_ref_cell_concat(&cell, "z".to_string()), "yz");
}

#[test]
fn typescript_exports() {
    assert_eq!(ts_greet("TS".to_string()), "Hello, TS!");
    ts_async_noop();
    ts_no_args_or_return();
    let db = ts_create_db();
    assert_eq!(ts_query_db(db, "select".to_string()), "");
    assert!(matches!(ts_api_response(true), ApiResponse::Success(s) if s == "ok"));
    assert!(matches!(
        ts_api_response(false),
        ApiResponse::Error { code: 404, message } if message == "not found"
    ));
    let users = ts_get_user_list();
    assert_eq!(users.users, strings(&["alice"]));
    assert_eq!(users.pagination, Pagination { page: 1, per_page: 10 });
    assert_eq!(ts_skipped_function(), "internal");
    assert!(ts_bigint_return().strict_equals(&JsBigInt::from_u64(42)));
    assert_eq!(ts_handle_string_return(), "hi");
    assert_eq!(NoCtor::new().ping(), "pong");
    assert_eq!(CtorSkipped::new().ping(), "pong");
    let _ = Hidden::new();
    assert_eq!(Renamed::new().ts_renamed_method(), "ok");
}

#[test]
fn tasks_and_workers() {
    let t = SuccessTask { name: "task".to_string() };
    assert_eq!(t.perform(), Ok("Hello, task!".to_string()));
    assert_eq!(FailureTask.perform(), Err("I am a failing task".to_string()));
    assert_eq!(NumberTask.perform(), Ok(17));
    assert_eq!(TaskError.description(), "Oops");
    let msgs = SuccessWorker.perform("done".to_string());
    assert_eq!(msgs.len(), 3);
    assert!(matches!(&msgs[0], WorkerMessage::Event(s) if s == "Hello"));
    assert!(matches!(&msgs[1], WorkerMessage::Event(s) if s == "World"));
    assert!(matches!(&msgs[2], WorkerMessage::Complete(s) if s == "done"));
    assert_eq!(SuccessWorker::on_incoming_event(Some("e".to_string())), Ok("e".to_string()));
    assert_eq!(SuccessWorker::on_incoming_event(None), Err(TaskError));
    assert_eq!(SuccessWorker.complete(Ok("v".to_string())), Ok("v".to_string()));
    assert_eq!(SuccessWorker.complete(Err(TaskError)), Err("Oops"));
}

#[test]
fn decimal_numerals() {
    assert_eq!(u64_to_decimal(0), "0");
    assert_eq!(u64_to_decimal(1234567890), "1234567890");
    assert_eq!(u64_to_decimal(u64::MAX), u64::MAX.to_string());
    assert_eq!(i64_to_decimal(-7), "-7");
    assert_eq!(i64_to_decimal(i64::MIN), i64::MIN.to_string());
    assert_eq!(i64_to_decimal(i64::MAX), i64::MAX.to_string());
}

#[test]
fn text_helpers() {
    assert_eq!(concat2("a", "b"), "ab");
    assert_eq!(concat3("a", "b", "c"), "abc");
    assert_eq!(chars_of("hé"), vec!['h', 'é']);
    assert_eq!(string_from_chars(&vec!['x', '€']), "x€");
    assert!(str_eq("é", "é"));
    assert!(!str_eq("e", "é"));
    assert!(str_le("ab", "b"));
    assert!(str_le("a", "a"));
    assert!(!str_le("b", "ab"));
    assert!(contains("hello", "ll"));
    assert!(!contains("hello", "lo!"));
    assert!(contains("", ""));
    assert_eq!(trim_start("  a "), "a ");
    assert_eq!(trim_end("  a "), "  a");
    for c in ['\u{9}', '\u{d}', ' ', '\u{85}', '\u{a0}', '\u{1680}', '\u{2000}', '\u{200a}', '\u{2028}', '\u{2029}', '\u{202f}', '\u{205f}', '\u{3000}', 'a', '\u{200b}', '\u{feff}'] {
        assert_eq!(is_whitespace(c), c.is_whitespace(), "{:?}", c);
    }
}

#[test]
fn string_refs() {
    use_string_refs();
}

fn use_string_refs() {
    let mut s = "a".to_string();
    assert_eq!(neon_core::boxed::string_ref_concat(&s, "b".to_string()), "ab");
    neon_core::boxed::write_string_ref(&mut s, "c".to_string());
    assert_eq!(s, "c");
}

#[test]
fn renamed_exports_and_messages() {
    assert_eq!(neon_core::exports::RENAMED_STRING, STRING);
    assert_eq!(neon_core::exports::messages(), vec!["hello", "neon"]);
    assert_eq!(
        neon_core::exports::concat_with_cx_and_handle("a".to_string(), "b".to_string()),
        "ab"
    );
}
