//! What the service answers: one of three status categories and a body, and
//! the text that goes out for them.

use vstd::prelude::*;
use vstd::string::*;

verus! {

/// The category of an answer.
#[derive(Clone, Copy, Debug, PartialEq, Eq, Structural)]
pub enum Status {
    /// The operation was carried out.
    Success,
    /// No route matched, or the store holds no such user.
    NotFound,
    /// The request could not be read, or the store failed.
    ServerError,
}

/// Why a request was not carried out.
#[derive(Clone, Copy, Debug, PartialEq, Eq, Structural)]
pub enum Failure {
    /// The body, or the identifier in the path, is not of the shape that the
    /// operation expects.
    Parse,
    /// No entry of the route table matches.
    RouteMiss,
    /// The store was asked and holds no such user.
    NotFoundRow,
    /// The store could not be reached or could not carry the statement out,
    /// or answered with something that is no answer to it.
    Store,
}

/// An answer before it is rendered.
#[derive(Clone, Debug, PartialEq, Eq)]
pub struct Reply {
    pub status: Status,
    pub body: String,
}

/// An answer with its body as a plain sequence of characters.
pub struct ReplyView {
    pub status: Status,
    pub body: Seq<char>,
}

impl View for Reply {
    type V = ReplyView;

    open spec fn view(&self) -> ReplyView {
        ReplyView { status: self.status, body: self.body@ }
    }
}

/// The category that a failure is answered with.
pub open spec fn status_of(failure: Failure) -> Status {
    match failure {
        Failure::Parse => Status::ServerError,
        Failure::RouteMiss => Status::NotFound,
        Failure::NotFoundRow => Status::NotFound,
        Failure::Store => Status::ServerError,
    }
}

/// The body that a failure is answered with.
pub open spec fn failure_text(failure: Failure) -> Seq<char> {
    match failure {
        Failure::Parse => "Error"@,
        Failure::RouteMiss => "NOT FOUND"@,
        Failure::NotFoundRow => "User not found"@,
        Failure::Store => "Error"@,
    }
}

/// The answer to a request that failed.
pub open spec fn failure_reply(failure: Failure) -> ReplyView {
    ReplyView { status: status_of(failure), body: failure_text(failure) }
}

/// The answer to a request that was carried out.
pub open spec fn ok_reply(body: Seq<char>) -> ReplyView {
    ReplyView { status: Status::Success, body }
}

/// The status line and the headers that open an answer of the given
/// category, the blank line behind them included.
pub open spec fn head_of(status: Status) -> Seq<char> {
    match status {
        Status::Success => "HTTP/1.1 200 OK\r\nContent-Type: application/json\r\n\r\n"@,
        Status::NotFound => "HTTP/1.1 404 NOT FOUND\r\nContent-Type: text/plain\r\n\r\n"@,
        Status::ServerError =>
            "HTTP/1.1 500 INTERNAL SERVER ERROR\r\nContent-Type: text/plain\r\n\r\n"@,
    }
}

/// The text that goes out for an answer: the head of its category, then its
/// body.
pub open spec fn rendered(reply: ReplyView) -> Seq<char> {
    head_of(reply.status) + reply.body
}

impl Failure {
    /// The category that this failure is answered with.
    pub fn status(&self) -> (r: Status)
        ensures
            r == status_of(*self),
    {
        match self {
            Failure::Parse => Status::ServerError,
            Failure::RouteMiss => Status::NotFound,
            Failure::NotFoundRow => Status::NotFound,
            Failure::Store => Status::ServerError,
        }
    }

    /// The answer to a request that failed in this way.
    pub fn reply(&self) -> (r: Reply)
        ensures
            r@ == failure_reply(*self),
    {
        let body: &str = match self {
            Failure::Parse => "Error",
            Failure::RouteMiss => "NOT FOUND",
            Failure::NotFoundRow => "User not found",
            Failure::Store => "Error",
        };
        Reply { status: self.status(), body: body.to_owned() }
    }
}

impl Reply {
    /// The answer to a request that was carried out.
    pub fn ok(body: String) -> (r: Reply)
        ensures
            r@ == ok_reply(body@),
    {
        Reply { status: Status::Success, body }
    }
}

/// Renders an answer as the text that goes out.
pub fn format_response(reply: &Reply) -> (out: String)
    ensures
        out@ == rendered(reply@),
{
    let head: &str = match reply.status {
        Status::Success => "HTTP/1.1 200 OK\r\nContent-Type: application/json\r\n\r\n",
        Status::NotFound => "HTTP/1.1 404 NOT FOUND\r\nContent-Type: text/plain\r\n\r\n",
        Status::ServerError =>
            "HTTP/1.1 500 INTERNAL SERVER ERROR\r\nContent-Type: text/plain\r\n\r\n",
    };
    let mut out = head.to_owned();
    out.append(reply.body.as_str());
    out
}

} // verus!
