//! Functions and types exported for the TypeScript declarations of the test
//! module.

use crate::bigint::JsBigInt;
use crate::text::concat3;
use std::sync::Arc;
use vstd::prelude::*;
use vstd::string::*;

verus! {

/// An opaque database handle.
#[derive(Debug)]
pub struct Database;

/// A response tagged by `type`, its content under `data`.
#[derive(Debug)]
pub enum ApiResponse {
    Success(String),
    Error { code: u32, message: String },
    Loading,
}

/// A page of a list.
#[derive(Debug, Clone, Copy, PartialEq, Eq, Structural)]
pub struct Pagination {
    pub page: u32,
    pub per_page: u32,
}

/// Users, with the page flattened in.
#[derive(Debug)]
pub struct UserList {
    pub users: Vec<String>,
    pub pagination: Pagination,
}

/// `Hello, <name>!`.
pub fn ts_greet(name: String) -> (s: String)
    ensures
        s@ == "Hello, "@ + name@ + "!"@,
{
    concat3("Hello, ", name.as_str(), "!")
}

/// A task that does nothing.
pub fn ts_async_noop() {
}

/// A new database handle.
pub fn ts_create_db() -> (db: Arc<Database>) {
    Arc::new(Database)
}

/// The answer of the database to a query: an empty string.
pub fn ts_query_db(_db: Arc<Database>, _query: String) -> (s: String)
    ensures
        s@ == Seq::<char>::empty(),
{
    String::new()
}

/// Takes nothing and returns nothing.
pub fn ts_no_args_or_return() {
}

/// A success or a not-found error.
pub fn ts_api_response(ok: bool) -> (r: ApiResponse)
    ensures
        ok ==> (r matches ApiResponse::Success(s) && s@ == "ok"@),
        !ok ==> (r matches ApiResponse::Error { code, message } && code == 404 && message@
            == "not found"@),
{
    if ok {
        ApiResponse::Success(String::from_str("ok"))
    } else {
        ApiResponse::Error { code: 404, message: String::from_str("not found") }
    }
}

/// A list of one user on the first page of ten.
pub fn ts_get_user_list() -> (r: UserList)
    ensures
        r.users@.len() == 1,
        r.users@[0]@ == "alice"@,
        r.pagination == (Pagination { page: 1, per_page: 10 }),
{
    let mut users: Vec<String> = Vec::new();
    users.push(String::from_str("alice"));
    UserList { users, pagination: Pagination { page: 1, per_page: 10 } }
}

/// A function left out of the declarations.
pub fn ts_skipped_function() -> (s: String)
    ensures
        s@ == "internal"@,
{
    String::from_str("internal")
}

/// The `BigInt` 42.
pub fn ts_bigint_return() -> (b: JsBigInt)
    ensures
        b.value() == 42,
{
    JsBigInt::from_i64(42)
}

/// The string `hi`.
pub fn ts_handle_string_return() -> (s: String)
    ensures
        s@ == "hi"@,
{
    String::from_str("hi")
}

/// A class declared without a constructor.
#[derive(Debug)]
pub struct NoCtor;

impl NoCtor {
    pub fn new() -> (r: NoCtor) {
        NoCtor
    }

    /// `pong`.
    pub fn ping(&self) -> (s: String)
        ensures
            s@ == "pong"@,
    {
        String::from_str("pong")
    }
}

/// A class whose constructor is left out of the declarations.
#[derive(Debug)]
pub struct CtorSkipped;

impl CtorSkipped {
    pub fn new() -> (r: CtorSkipped) {
        CtorSkipped
    }

    /// `pong`.
    pub fn ping(&self) -> (s: String)
        ensures
            s@ == "pong"@,
    {
        String::from_str("pong")
    }
}

/// A class left out of the declarations.
#[derive(Debug)]
pub struct Hidden;

impl Hidden {
    pub fn new() -> (r: Hidden) {
        Hidden
    }
}

/// A class declared as `PublicName`.
#[derive(Debug)]
pub struct Renamed;

impl Renamed {
    pub fn new() -> (r: Renamed) {
        Renamed
    }

    /// `ok` (declared as `publicName`).
    pub fn ts_renamed_method(&self) -> (s: String)
        ensures
            s@ == "ok"@,
    {
        String::from_str("ok")
    }
}

} // verus!
