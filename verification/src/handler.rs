//! The handlers. Each one works in two halves around the store: it first
//! decides what to ask of the store, or answers at once; given the
//! outcome, it then decides the answer.

use crate::number::{parse_i32, parsed_i32};
use crate::reply::{failure_reply, ok_reply, Failure, Reply, ReplyView};
use crate::request::{get_id, id_segment, parse_request, parsed, utf8_lossy, Request, RequestView};
use crate::route::{route, route_of, Route};
use crate::store::{
    outcome_view, AnswerView, Row, RowView, StoreAnswer, StoreError, StoreOp, StoreOpView,
};
use crate::user::{array_json, decode_user, decoded_user, encode_user, user_json, write_array};
use vstd::prelude::*;
use vstd::string::*;
use vstd::utf8::{decode_utf8, valid_utf8};

verus! {

/// What a handler decides before the store is asked.
#[derive(Clone, Debug, PartialEq, Eq)]
pub enum Step {
    /// Answer at once; the store is not asked.
    Reply(Reply),
    /// Carry this operation out, and hand its outcome to [`finish`].
    Ask(StoreOp),
}

/// A step with its texts as plain sequences of characters.
pub enum StepView {
    Reply(ReplyView),
    Ask(StoreOpView),
}

impl View for Step {
    type V = StepView;

    open spec fn view(&self) -> StepView {
        match self {
            Step::Reply(reply) => StepView::Reply(reply@),
            Step::Ask(op) => StepView::Ask(op@),
        }
    }
}

/// Create: the body must describe a user; that user is added, without an
/// identifier, which the store assigns.
pub open spec fn create_step(body: Seq<char>) -> StepView {
    match decoded_user(body) {
        Some(user) => StepView::Ask(StoreOpView::Insert { name: user.name, email: user.email }),
        None => StepView::Reply(failure_reply(Failure::Parse)),
    }
}

/// Read one: the identifier in the path must be a number; the user with
/// that number is looked for.
pub open spec fn read_step(path: Seq<char>) -> StepView {
    match parsed_i32(id_segment(path)) {
        Some(id) => StepView::Ask(StoreOpView::FindById { id }),
        None => StepView::Reply(failure_reply(Failure::Parse)),
    }
}

/// List: all users are asked for.
pub open spec fn list_step() -> StepView {
    StepView::Ask(StoreOpView::FindAll)
}

/// Update: the identifier in the path must be a number and the body must
/// describe a user; the user with that number gets the name and the email
/// of the body.
pub open spec fn update_step(path: Seq<char>, body: Seq<char>) -> StepView {
    match (parsed_i32(id_segment(path)), decoded_user(body)) {
        (Some(id), Some(user)) => StepView::Ask(
            StoreOpView::Update { id, name: user.name, email: user.email },
        ),
        _ => StepView::Reply(failure_reply(Failure::Parse)),
    }
}

/// Delete: the identifier in the path must be a number; the user with that
/// number is removed.
pub open spec fn delete_step(path: Seq<char>) -> StepView {
    match parsed_i32(id_segment(path)) {
        Some(id) => StepView::Ask(StoreOpView::Delete { id }),
        None => StepView::Reply(failure_reply(Failure::Parse)),
    }
}

/// What a request leads to before the store is asked: the step of the
/// handler that the route table selects. A request that matches no route is
/// answered at once, and the store is not asked.
pub open spec fn step_of(req: RequestView) -> StepView {
    match route_of(req.method, req.path) {
        Route::Create => create_step(req.body),
        Route::ReadOne => read_step(req.path),
        Route::List => list_step(),
        Route::Update => update_step(req.path, req.body),
        Route::Delete => delete_step(req.path),
        Route::NotFound => StepView::Reply(failure_reply(Failure::RouteMiss)),
    }
}

/// The JSON forms of the users in `rows`, one for each row and in their
/// order.
pub open spec fn rows_json(rows: Seq<RowView>) -> Seq<Seq<char>> {
    Seq::new(rows.len(), |i: int| user_json(rows[i].user()))
}

/// The answer to a query for one user: the first row as JSON, with its
/// identifier set; a failure where there is no row.
pub open spec fn found_reply(rows: Seq<RowView>) -> ReplyView {
    if rows.len() == 0 {
        failure_reply(Failure::NotFoundRow)
    } else {
        ok_reply(user_json(rows[0].user()))
    }
}

/// The answer to a query for all users: a success with the rows as a JSON
/// array, one entry for each row; the array is empty where there are no
/// rows.
pub open spec fn listed_reply(rows: Seq<RowView>) -> ReplyView {
    ok_reply(array_json(rows_json(rows)))
}

/// The answer to a statement that names one user: a failure where it
/// touched no row, the confirmation `done` otherwise.
pub open spec fn touched_reply(count: nat, done: Seq<char>) -> ReplyView {
    if count == 0 {
        failure_reply(Failure::NotFoundRow)
    } else {
        ok_reply(done)
    }
}

/// The answer to a request, given the operation that its handler asked for
/// and the outcome of that operation. A store that failed, an answer of
/// the wrong kind (rows for a statement, a count for a query), and an
/// insert that added no row give a failure of the store.
pub open spec fn reply_of(op: StoreOpView, outcome: Result<AnswerView, StoreError>) -> ReplyView {
    match outcome {
        Err(_) => failure_reply(Failure::Store),
        Ok(answer) => match (op, answer) {
            (StoreOpView::Insert { .. }, AnswerView::Changed(count)) => if count == 0 {
                failure_reply(Failure::Store)
            } else {
                ok_reply("User created"@)
            },
            (StoreOpView::FindById { .. }, AnswerView::Rows(rows)) => found_reply(rows),
            (StoreOpView::FindAll, AnswerView::Rows(rows)) => listed_reply(rows),
            (StoreOpView::Update { .. }, AnswerView::Changed(count)) => touched_reply(
                count,
                "User updated"@,
            ),
            (StoreOpView::Delete { .. }, AnswerView::Changed(count)) => touched_reply(
                count,
                "User deleted"@,
            ),
            _ => failure_reply(Failure::Store),
        },
    }
}

/// The first half of create.
pub fn handle_post_request(req: &Request) -> (step: Step)
    ensures
        step@ == create_step(req@.body),
{
    match decode_user(req.body.as_str()) {
        Ok(user) => Step::Ask(StoreOp::Insert { name: user.name, email: user.email }),
        Err(failure) => Step::Reply(failure.reply()),
    }
}

/// The first half of read one.
pub fn handle_get_request(req: &Request) -> (step: Step)
    ensures
        step@ == read_step(req@.path),
{
    match parse_i32(get_id(req.path.as_str())) {
        Some(id) => Step::Ask(StoreOp::FindById { id }),
        None => Step::Reply(Failure::Parse.reply()),
    }
}

/// The first half of list.
pub fn handle_list_request() -> (step: Step)
    ensures
        step@ == list_step(),
{
    Step::Ask(StoreOp::FindAll)
}

/// The first half of update.
pub fn handle_put_request(req: &Request) -> (step: Step)
    ensures
        step@ == update_step(req@.path, req@.body),
{
    let id: i32 = match parse_i32(get_id(req.path.as_str())) {
        Some(id) => id,
        None => {
            return Step::Reply(Failure::Parse.reply());
        },
    };
    match decode_user(req.body.as_str()) {
        Ok(user) => Step::Ask(StoreOp::Update { id, name: user.name, email: user.email }),
        Err(failure) => Step::Reply(failure.reply()),
    }
}

/// The first half of delete.
pub fn handle_delete_request(req: &Request) -> (step: Step)
    ensures
        step@ == delete_step(req@.path),
{
    match parse_i32(get_id(req.path.as_str())) {
        Some(id) => Step::Ask(StoreOp::Delete { id }),
        None => Step::Reply(Failure::Parse.reply()),
    }
}

/// Routes a request to its handler and returns the step that the handler
/// decides on.
pub fn begin(req: &Request) -> (step: Step)
    ensures
        step@ == step_of(req@),
{
    match route(req.method.as_str(), req.path.as_str()) {
        Route::Create => handle_post_request(req),
        Route::ReadOne => handle_get_request(req),
        Route::List => handle_list_request(),
        Route::Update => handle_put_request(req),
        Route::Delete => handle_delete_request(req),
        Route::NotFound => Step::Reply(Failure::RouteMiss.reply()),
    }
}

/// Reads the request out of the bytes that arrived on a connection and
/// returns the step that its handler decides on. Bytes that are no UTF-8
/// are read as U+FFFD.
pub fn handle_client(buf: &[u8]) -> (step: Step)
    ensures
        step@ == step_of(parsed(utf8_lossy(buf@))),
        valid_utf8(buf@) ==> step@ == step_of(parsed(decode_utf8(buf@))),
{
    let req = parse_request(buf);
    begin(&req)
}

/// Writes the first of `rows` as the answer to a query for one user.
fn reply_found(rows: &Vec<Row>) -> (reply: Reply)
    ensures
        reply@ == found_reply(rows@.map_values(|row: Row| row@)),
{
    if rows.len() == 0 {
        return Failure::NotFoundRow.reply();
    }
    let row = &rows[0];
    Reply::ok(encode_user(Some(row.id), row.name.as_str(), row.email.as_str()))
}

/// Writes `rows` as the answer to a query for all users.
fn reply_listed(rows: &Vec<Row>) -> (reply: Reply)
    ensures
        reply@ == listed_reply(rows@.map_values(|row: Row| row@)),
{
    let ghost views = rows@.map_values(|row: Row| row@);
    let mut items: Vec<String> = Vec::new();
    let mut i: usize = 0;
    while i < rows.len()
        invariant
            i <= rows.len(),
            views == rows@.map_values(|row: Row| row@),
            items.len() == i,
            forall|j: int| 0 <= j < i ==> user_json(#[trigger] views[j].user()) == items@[j]@,
        decreases rows.len() - i,
    {
        let row = &rows[i];
        items.push(encode_user(Some(row.id), row.name.as_str(), row.email.as_str()));
        i = i + 1;
    }
    assert(rows_json(views) =~= items@.map_values(|item: String| item@));
    Reply::ok(write_array(&items))
}

/// Answers a statement that names one user.
fn reply_touched(count: u64, done: &str) -> (reply: Reply)
    ensures
        reply@ == touched_reply(count as nat, done@),
{
    if count == 0 {
        Failure::NotFoundRow.reply()
    } else {
        Reply::ok(done.to_owned())
    }
}

/// The second half of every handler: decides the answer to a request from
/// the operation that was asked for and its outcome.
pub fn finish(op: &StoreOp, outcome: Result<StoreAnswer, StoreError>) -> (reply: Reply)
    ensures
        reply@ == reply_of(op@, outcome_view(outcome)),
{
    let answer = match outcome {
        Ok(answer) => answer,
        Err(_) => {
            return Failure::Store.reply();
        },
    };
    match (op, &answer) {
        (StoreOp::Insert { .. }, StoreAnswer::Changed(count)) => {
            if *count == 0 {
                Failure::Store.reply()
            } else {
                Reply::ok("User created".to_owned())
            }
        },
        (StoreOp::FindById { .. }, StoreAnswer::Rows(rows)) => reply_found(rows),
        (StoreOp::FindAll, StoreAnswer::Rows(rows)) => reply_listed(rows),
        (StoreOp::Update { .. }, StoreAnswer::Changed(count)) => reply_touched(
            *count,
            "User updated",
        ),
        (StoreOp::Delete { .. }, StoreAnswer::Changed(count)) => reply_touched(
            *count,
            "User deleted",
        ),
        _ => Failure::Store.reply(),
    }
}

} // verus!
