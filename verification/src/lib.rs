//! Request handling for a small service that keeps one resource, the user,
//! in a relational store: reading a request out of the bytes that arrived,
//! choosing the operation it asks for, deciding what to ask of the store,
//! and turning the store's answer into a response.
//!
//! Nothing here performs input or output. A caller reads the bytes and
//! hands them to [`handle_client`]. Where that returns [`Step::Ask`], the
//! caller carries the operation out on the store and hands the outcome to
//! [`finish`]. The answer, from either, goes out as [`format_response`]
//! renders it.

pub mod handler;
pub mod json;
pub mod laws;
pub mod model;
pub mod number;
pub mod reply;
pub mod request;
pub mod route;
pub mod store;
pub mod text;
pub mod user;

pub use crate::handler::{
    begin, finish, handle_client, handle_delete_request, handle_get_request, handle_list_request,
    handle_post_request, handle_put_request, Step,
};
pub use crate::reply::{format_response, Failure, Reply, Status};
pub use crate::request::{get_body, get_id, parse_request, parse_request_text, Request};
pub use crate::route::{route, Route};
pub use crate::store::{schema_statement, Row, StoreAnswer, StoreError, StoreOp};
pub use crate::user::{decode_user, get_user_req_body, User};
