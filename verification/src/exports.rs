//! Functions the Node test module exports: plain Rust values in and out.

use crate::text::{concat2, dedupe_strings, has_string, sort_strings, strings_distinct, strings_sorted};
use vstd::prelude::*;
use vstd::string::*;

verus! {

/// An exported number.
pub const NUMBER: u8 = 42;

/// An exported string.
pub const STRING: &'static str = "Hello, World!";

/// The exported string, under another name.
pub const RENAMED_STRING: &'static str = STRING;

/// The exported messages (handed to JavaScript as JSON, also under the name
/// `renamedMessages`).
pub fn messages() -> (r: Vec<&'static str>)
    ensures
        r@.len() == 2,
        r@[0]@ == "hello"@,
        r@[1]@ == "neon"@,
{
    let mut r: Vec<&'static str> = Vec::new();
    r.push("hello");
    r.push("neon");
    r
}

/// The string `a` followed by the value of the JavaScript string `b`.
pub fn concat_with_cx_and_handle(a: String, b: String) -> (r: String)
    ensures
        r@ == a@ + b@,
{
    concat2(a.as_str(), b.as_str())
}

/// Takes nothing and returns nothing.
pub fn no_args_or_return() {
}

/// The items in order (exchanged with JavaScript as JSON).
pub fn json_sort(items: Vec<String>) -> (r: Vec<String>)
    ensures
        strings_sorted(r@),
        r@.to_multiset() == items@.to_multiset(),
{
    sort_strings(items)
}

/// `json_sort`, exported under another name.
pub fn rs_renamed_json_sort(items: Vec<String>) -> (r: Vec<String>)
    ensures
        strings_sorted(r@),
        r@.to_multiset() == items@.to_multiset(),
{
    json_sort(items)
}

/// `json_sort`, run as a task.
pub fn json_sort_task(items: Vec<String>) -> (r: Vec<String>)
    ensures
        strings_sorted(r@),
        r@.to_multiset() == items@.to_multiset(),
{
    json_sort(items)
}

/// `json_sort`, run as a task under another name.
pub fn rs_renamed_json_sort_task(items: Vec<String>) -> (r: Vec<String>)
    ensures
        strings_sorted(r@),
        r@.to_multiset() == items@.to_multiset(),
{
    json_sort(items)
}

/// Always fails, with `msg` as the message of the thrown error.
pub fn fail_with_throw(msg: String) -> (r: Result<(), String>)
    ensures
        r matches Err(e) && e@ == msg@,
{
    Err(msg)
}

/// The string held by a boxed `this`.
pub fn boxed_self(this: String) -> (s: String)
    ensures
        s@ == this@,
{
    this
}

/// `s`, to be boxed.
pub fn boxed_string(s: String) -> (r: String)
    ensures
        r@ == s@,
{
    s
}

/// The sum of two signed integers.
pub fn add_i32(a: i32, b: i32) -> (r: i32)
    requires
        i32::MIN <= a + b <= i32::MAX,
    ensures
        r == a + b,
{
    a + b
}

/// The sum of two unsigned integers.
pub fn add_u32(a: u32, b: u32) -> (r: u32)
    requires
        a + b <= u32::MAX,
    ensures
        r == a + b,
{
    a + b
}

/// The bytes of `a` followed by those of `b`.
pub fn buffer_concat(a: Vec<u8>, b: Vec<u8>) -> (r: Vec<u8>)
    ensures
        r@ == a@ + b@,
{
    let mut a = a;
    let mut b = b;
    a.append(&mut b);
    a
}

/// The UTF-8 bytes of `s`.
pub fn string_to_buf(s: String) -> (r: Vec<u8>)
    ensures
        r@ == vstd::utf8::encode_utf8(s@),
{
    s.as_str().as_bytes_vec()
}

/// `s` followed by `!`.
pub fn with_macro_js_string(s: String) -> (r: String)
    ensures
        r@ == s@ + "!"@,
{
    concat2(s.as_str(), "!")
}

/// The distinct strings of a JavaScript array, each once.
pub fn extract_array_dedupe(items: Vec<String>) -> (r: Vec<String>)
    ensures
        strings_distinct(r@),
        forall|i: int| 0 <= i < items@.len() ==> has_string(r@, (#[trigger] items@[i])@),
        forall|j: int| 0 <= j < r@.len() ==> has_string(items@, (#[trigger] r@[j])@),
{
    dedupe_strings(items)
}

/// The greeting of the module.
pub fn hello() -> (s: String)
    ensures
        s@ == "hello node"@,
{
    String::from_str("hello node")
}

} // verus!
