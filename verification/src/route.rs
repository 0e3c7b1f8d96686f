//! The route table: which operation a method and a path ask for.

use crate::number::decimal;
use crate::request::id_segment;
use crate::text::{chars_of, occurs_at, same, stands_at};
use vstd::prelude::*;

verus! {

/// The operations of the service, and `NotFound` for a request that asks
/// for none of them.
#[derive(Clone, Copy, Debug, PartialEq, Eq, Structural)]
pub enum Route {
    /// `POST /users`: store a new user.
    Create,
    /// `GET /users/{id}`: show one user.
    ReadOne,
    /// `GET /users`: show all users.
    List,
    /// `PUT /users/{id}`: replace a user's name and email.
    Update,
    /// `DELETE /users/{id}`: remove a user.
    Delete,
    /// No entry of the table matches.
    NotFound,
}

/// Whether `path` matches the pattern `/users`: it begins with that text.
pub open spec fn in_collection(path: Seq<char>) -> bool {
    occurs_at(path, "/users"@, 0)
}

/// Whether `path` matches the pattern `/users/{id}`: it begins with
/// `/users/`, and an identifier that is not empty follows.
pub open spec fn names_a_user(path: Seq<char>) -> bool {
    occurs_at(path, "/users/"@, 0) && id_segment(path).len() > 0
}

/// The path that names the user with the identifier `id`.
pub open spec fn user_path(id: int) -> Seq<char> {
    "/users/"@ + decimal(id)
}

/// The entry of the route table that `method` and `path` select. The
/// entries are tried in the order of the table and the first match wins; a
/// method matches only as it is written, in capitals.
pub open spec fn route_of(method: Seq<char>, path: Seq<char>) -> Route {
    if method == "POST"@ && in_collection(path) {
        Route::Create
    } else if method == "GET"@ && names_a_user(path) {
        Route::ReadOne
    } else if method == "GET"@ && in_collection(path) {
        Route::List
    } else if method == "PUT"@ && names_a_user(path) {
        Route::Update
    } else if method == "DELETE"@ && names_a_user(path) {
        Route::Delete
    } else {
        Route::NotFound
    }
}

/// Selects the entry of the route table for `method` and `path`.
pub fn route(method: &str, path: &str) -> (r: Route)
    ensures
        r == route_of(method@, path@),
{
    let m = chars_of(method);
    let p = chars_of(path);
    let in_users: bool = stands_at(p.as_slice(), chars_of("/users").as_slice(), 0);
    let names_user: bool = stands_at(p.as_slice(), chars_of("/users/").as_slice(), 0)
        && crate::request::get_id(path).unicode_len() > 0;
    if same(m.as_slice(), chars_of("POST").as_slice()) && in_users {
        Route::Create
    } else if same(m.as_slice(), chars_of("GET").as_slice()) && names_user {
        Route::ReadOne
    } else if same(m.as_slice(), chars_of("GET").as_slice()) && in_users {
        Route::List
    } else if same(m.as_slice(), chars_of("PUT").as_slice()) && names_user {
        Route::Update
    } else if same(m.as_slice(), chars_of("DELETE").as_slice()) && names_user {
        Route::Delete
    } else {
        Route::NotFound
    }
}

} // verus!
