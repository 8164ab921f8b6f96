//! The pure parts of the value layer: lowering strings and argument lists to
//! the engine's limits, the errors of dates and strings, the kinds of calls,
//! and the per-isolate map of class metadata.

use crate::text::{concat2, decimal_chars, u64_to_decimal};
use std::collections::HashMap;
use vstd::prelude::*;
use vstd::string::*;

verus! {

broadcast use vstd::std_specs::hash::group_hash_axioms;

/// The largest length, in bytes, of a string handed to the engine.
pub open spec fn max_string_len() -> int {
    i32::MAX as int
}

/// Lowers a string to the length the engine takes (a signed 32-bit
/// integer); `None` when the string is longer than that.
pub fn lower_str(s: &str) -> (r: Option<i32>)
    ensures
        r is Some <==> s.len() <= i32::MAX,
        r matches Some(n) ==> n as int == s.len(),
{
    let len = s.len();
    if len > (i32::MAX as usize) {
        return None;
    }
    Some(len as i32)
}

/// Lowers a string that is known to fit.
pub fn lower_str_unwrap(s: &str) -> (r: i32)
    requires
        s.len() <= i32::MAX,
    ensures
        r as int == s.len(),
{
    match lower_str(s) {
        Some(n) => n,
        None => 0,
    }
}

/// An error produced when constructing a string that exceeds the JS engine's
/// maximum string size; it holds the size.
#[derive(PartialEq, Eq, PartialOrd, Ord, Clone, Debug)]
pub struct StringOverflow(pub usize);

impl StringOverflow {
    /// `string size out of range: <size>`.
    pub fn message(&self) -> (s: String)
        ensures
            s@ == "string size out of range: "@ + decimal_chars(self.0 as nat),
    {
        let n = u64_to_decimal(self.0 as u64);
        concat2("string size out of range: ", n.as_str())
    }
}

/// The length with which `val` is handed to the engine to make a string, or
/// the overflow error that `JsString::try_new` reports when it is too long.
pub fn string_size(val: &str) -> (r: Result<i32, StringOverflow>)
    ensures
        r is Ok <==> val.len() <= i32::MAX,
        r matches Ok(n) ==> n as int == val.len(),
        r matches Err(e) ==> e.0 as int == val.len(),
{
    match lower_str(val) {
        Some(n) => Ok(n),
        None => Err(StringOverflow(val.len())),
    }
}

/// The maximum number of function arguments in V8.
pub const V8_ARGC_LIMIT: usize = 65535;

/// The argument count handed to the engine for a call with `argc`
/// arguments; a range error when there are too many.
pub fn prepare_call(argc: usize) -> (r: Result<i32, &'static str>)
    ensures
        r is Ok <==> argc <= 65535,
        r matches Ok(n) ==> n as int == argc,
        r matches Err(m) ==> m@ == "too many arguments"@,
{
    if argc > V8_ARGC_LIMIT {
        return Err("too many arguments");
    }
    Ok(argc as i32)
}

/// The error that marks a thrown JavaScript exception.
#[derive(Debug, PartialEq, Eq, Structural)]
pub struct Throw;

impl Throw {
    /// How the error is displayed.
    pub fn message(&self) -> (s: &'static str)
        ensures
            s@ == "JavaScript Error"@,
    {
        "JavaScript Error"
    }

    /// The description of the error.
    pub fn description(&self) -> (s: &'static str)
        ensures
            s@ == "javascript error"@,
    {
        "javascript error"
    }
}

/// Whether a function was invoked as a constructor or called.
#[derive(Clone, Copy, Debug, PartialEq, Eq, Structural)]
pub enum CallKind {
    Construct,
    Call,
}

/// The kind of call, from the engine's answer to whether it constructs.
pub fn call_kind(is_construct: bool) -> (k: CallKind)
    ensures
        k == (if is_construct { CallKind::Construct } else { CallKind::Call }),
{
    if is_construct {
        CallKind::Construct
    } else {
        CallKind::Call
    }
}

/// The error kinds of `DateError`.
#[derive(Clone, Copy, Debug, PartialEq, Eq, Structural)]
pub enum DateErrorKind {
    Overflow,
    Underflow,
}

impl DateErrorKind {
    /// The message of the range error for this kind.
    pub fn as_str(&self) -> (s: &'static str)
        ensures
            s@ == (match *self {
                DateErrorKind::Overflow => "Uncaught RangeError: Date overflow"@,
                DateErrorKind::Underflow => "Uncaught RangeError: Date underflow"@,
            }),
    {
        match *self {
            DateErrorKind::Overflow => "Uncaught RangeError: Date overflow",
            DateErrorKind::Underflow => "Uncaught RangeError: Date underflow",
        }
    }
}

/// The error of a date out of the range of JavaScript dates.
#[derive(Debug, PartialEq, Eq, Structural)]
pub struct DateError(pub DateErrorKind);

impl DateError {
    /// The kind of the error.
    pub fn kind(&self) -> (k: DateErrorKind)
        ensures
            k == self.0,
    {
        self.0
    }

    /// How the error is displayed: the message of its kind.
    pub fn message(&self) -> (s: &'static str)
        ensures
            s@ == (match self.0 {
                DateErrorKind::Overflow => "Uncaught RangeError: Date overflow"@,
                DateErrorKind::Underflow => "Uncaught RangeError: Date underflow"@,
            }),
    {
        self.0.as_str()
    }
}

/// The outcome of the range check of a new date, from the comparisons of
/// its time with the largest and the smallest time a JavaScript date holds:
/// overflow above the largest, underflow below the smallest.
pub fn check_date_range(above_max: bool, below_min: bool) -> (r: Result<(), DateError>)
    ensures
        above_max ==> r == Err::<(), DateError>(DateError(DateErrorKind::Overflow)),
        !above_max && below_min ==> r == Err::<(), DateError>(DateError(DateErrorKind::Underflow)),
        !above_max && !below_min ==> r is Ok,
{
    if above_max {
        Err(DateError(DateErrorKind::Overflow))
    } else if below_min {
        Err(DateError(DateErrorKind::Underflow))
    } else {
        Ok(())
    }
}

/// The metadata of the classes of an isolate, keyed by the id of the Rust
/// type that backs each class.
#[derive(Debug)]
pub struct ClassMap<M> {
    map: HashMap<u64, M>,
}

impl<M> View for ClassMap<M> {
    type V = Map<u64, M>;

    closed spec fn view(&self) -> Map<u64, M> {
        self.map@
    }
}

impl<M> ClassMap<M> {
    /// An empty map.
    pub fn new() -> (m: ClassMap<M>)
        ensures
            m@ == Map::<u64, M>::empty(),
    {
        ClassMap { map: HashMap::new() }
    }

    /// The metadata of the class of type `key`, if it was set.
    pub fn get(&self, key: u64) -> (r: Option<&M>)
        ensures
            match r {
                Some(v) => self@.contains_key(key) && *v == self@[key],
                None => !self@.contains_key(key),
            },
    {
        self.map.get(&key)
    }

    /// Sets the metadata of the class of type `key`.
    pub fn set(&mut self, key: u64, val: M)
        ensures
            final(self)@ == old(self)@.insert(key, val),
    {
        self.map.insert(key, val);
    }
}

/// What a `get` returns after a `set` of the same key is the value set, and
/// a `set` leaves the other keys alone.
pub proof fn lemma_class_map_get_after_set<M>(m: Map<u64, M>, key: u64, other: u64, val: M)
    ensures
        m.insert(key, val).contains_key(key),
        m.insert(key, val)[key] == val,
        other != key ==> (m.insert(key, val).contains_key(other) == m.contains_key(other)),
        other != key && m.contains_key(other) ==> m.insert(key, val)[other] == m[other],
{
}

/// The map after the `set`s of `sets`, in order, starting from `m`.
pub open spec fn apply_sets<M>(m: Map<u64, M>, sets: Seq<(u64, M)>) -> Map<u64, M>
    decreases sets.len(),
{
    if sets.len() == 0 {
        m
    } else {
        apply_sets(m, sets.drop_last()).insert(sets.last().0, sets.last().1)
    }
}

/// The value of the last `set` of `key` in `sets`, if there is one.
pub open spec fn last_set<M>(sets: Seq<(u64, M)>, key: u64) -> Option<M>
    decreases sets.len(),
{
    if sets.len() == 0 {
        None
    } else if sets.last().0 == key {
        Some(sets.last().1)
    } else {
        last_set(sets.drop_last(), key)
    }
}

/// After any sequence of `set`s, a `get` of a key gives the value of the
/// last `set` of that key, whatever was set for other keys in between; a key
/// never set keeps what the map held before (nothing, for a new map).
pub proof fn lemma_class_map_sets<M>(m: Map<u64, M>, sets: Seq<(u64, M)>, key: u64)
    ensures
        last_set(sets, key) matches Some(v) ==> apply_sets(m, sets).contains_key(key)
            && apply_sets(m, sets)[key] == v,
        last_set(sets, key) is None ==> apply_sets(m, sets).contains_key(key) == m.contains_key(
            key,
        ),
        last_set(sets, key) is None && m.contains_key(key) ==> apply_sets(m, sets)[key]
            == m[key],
    decreases sets.len(),
{
    if sets.len() > 0 {
        lemma_class_map_sets(m, sets.drop_last(), key);
    }
}

/// The element types by which binary data can be viewed.
pub trait BinaryViewType: Sized {
}

impl BinaryViewType for u8 {
}

impl BinaryViewType for i8 {
}

impl BinaryViewType for u16 {
}

impl BinaryViewType for i16 {
}

impl BinaryViewType for u32 {
}

impl BinaryViewType for i32 {
}

impl BinaryViewType for u64 {
}

impl BinaryViewType for i64 {
}

/// Seals the traits of borrowable binary data.
pub trait Sealed {
}

/// The number of elements of `elem_size` bytes that fit in `size` bytes of
/// binary data.
pub fn binary_data_len(size: usize, elem_size: usize) -> (n: usize)
    requires
        elem_size > 0,
    ensures
        n == size / elem_size,
{
    size / elem_size
}

} // verus!
