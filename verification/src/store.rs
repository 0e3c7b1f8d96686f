//! What the service asks of the store and what the store answers. The
//! store itself is out of reach of this library: the caller carries each
//! operation out and hands back the outcome.

use crate::user::UserView;
use vstd::prelude::*;

verus! {

/// A user as the store holds it: with the identifier that the store gave
/// it.
#[derive(Clone, Debug, PartialEq, Eq)]
pub struct Row {
    pub id: i32,
    pub name: String,
    pub email: String,
}

/// A stored user with its texts as plain sequences of characters.
pub struct RowView {
    pub id: int,
    pub name: Seq<char>,
    pub email: Seq<char>,
}

impl View for Row {
    type V = RowView;

    open spec fn view(&self) -> RowView {
        RowView { id: self.id as int, name: self.name@, email: self.email@ }
    }
}

impl RowView {
    /// The user that this row holds. Its identifier is set.
    pub open spec fn user(self) -> UserView {
        UserView { id: Some(self.id), name: self.name, email: self.email }
    }
}

/// One operation on the table of users.
#[derive(Clone, Debug, PartialEq, Eq)]
pub enum StoreOp {
    /// Add a user; the store assigns its identifier.
    Insert { name: String, email: String },
    /// Look for the user with this identifier.
    FindById { id: i32 },
    /// Hand out all users.
    FindAll,
    /// Give the user with this identifier another name and email.
    Update { id: i32, name: String, email: String },
    /// Remove the user with this identifier.
    Delete { id: i32 },
}

/// An operation with its texts as plain sequences of characters.
pub enum StoreOpView {
    Insert { name: Seq<char>, email: Seq<char> },
    FindById { id: int },
    FindAll,
    Update { id: int, name: Seq<char>, email: Seq<char> },
    Delete { id: int },
}

impl View for StoreOp {
    type V = StoreOpView;

    open spec fn view(&self) -> StoreOpView {
        match self {
            StoreOp::Insert { name, email } => StoreOpView::Insert { name: name@, email: email@ },
            StoreOp::FindById { id } => StoreOpView::FindById { id: *id as int },
            StoreOp::FindAll => StoreOpView::FindAll,
            StoreOp::Update { id, name, email } => StoreOpView::Update {
                id: *id as int,
                name: name@,
                email: email@,
            },
            StoreOp::Delete { id } => StoreOpView::Delete { id: *id as int },
        }
    }
}

/// The one signal for every way in which the store can fail: it cannot be
/// reached, it refuses the statement, it breaks off.
#[derive(Clone, Copy, Debug, PartialEq, Eq, Structural)]
pub struct StoreError;

/// What the store answers where it carried an operation out.
#[derive(Clone, Debug, PartialEq, Eq)]
pub enum StoreAnswer {
    /// The number of rows that a statement added, changed or removed.
    Changed(u64),
    /// The rows that a query found, in the order of their identifiers.
    Rows(Vec<Row>),
}

/// An answer with its rows as plain values.
pub enum AnswerView {
    Changed(nat),
    Rows(Seq<RowView>),
}

impl View for StoreAnswer {
    type V = AnswerView;

    open spec fn view(&self) -> AnswerView {
        match self {
            StoreAnswer::Changed(count) => AnswerView::Changed(*count as nat),
            StoreAnswer::Rows(rows) => AnswerView::Rows(rows@.map_values(|row: Row| row@)),
        }
    }
}

/// The outcome of an operation with its answer as plain values.
pub open spec fn outcome_view(outcome: Result<StoreAnswer, StoreError>) -> Result<
    AnswerView,
    StoreError,
> {
    match outcome {
        Ok(answer) => Ok(answer@),
        Err(error) => Err(error),
    }
}

/// The statement that sets the table up. It leaves a table that is there
/// already as it is.
pub open spec fn schema_text() -> Seq<char> {
    "CREATE TABLE IF NOT EXISTS users (id SERIAL PRIMARY KEY, name VARCHAR NOT NULL, email VARCHAR NOT NULL)"@
}

/// The statement that carries an operation out. Its parameters are the
/// fields of the operation, in the order in which the statement numbers
/// them.
pub open spec fn statement_of(op: StoreOpView) -> Seq<char> {
    match op {
        StoreOpView::Insert { .. } => "INSERT INTO users (name, email) VALUES ($1, $2)"@,
        StoreOpView::FindById { .. } => "SELECT id, name, email FROM users WHERE id = $1"@,
        StoreOpView::FindAll => "SELECT id, name, email FROM users ORDER BY id"@,
        StoreOpView::Update { .. } => "UPDATE users SET name = $2, email = $3 WHERE id = $1"@,
        StoreOpView::Delete { .. } => "DELETE FROM users WHERE id = $1"@,
    }
}

/// Whether the store answers an operation with rows; it answers the others
/// with a count.
pub open spec fn asks_for_rows(op: StoreOpView) -> bool {
    op is FindById || op is FindAll
}

/// The statement that sets the table up.
pub fn schema_statement() -> (text: &'static str)
    ensures
        text@ == schema_text(),
{
    "CREATE TABLE IF NOT EXISTS users (id SERIAL PRIMARY KEY, name VARCHAR NOT NULL, email VARCHAR NOT NULL)"
}

impl StoreOp {
    /// The statement that carries this operation out.
    pub fn statement(&self) -> (text: &'static str)
        ensures
            text@ == statement_of(self@),
    {
        match self {
            StoreOp::Insert { .. } => "INSERT INTO users (name, email) VALUES ($1, $2)",
            StoreOp::FindById { .. } => "SELECT id, name, email FROM users WHERE id = $1",
            StoreOp::FindAll => "SELECT id, name, email FROM users ORDER BY id",
            StoreOp::Update { .. } => "UPDATE users SET name = $2, email = $3 WHERE id = $1",
            StoreOp::Delete { .. } => "DELETE FROM users WHERE id = $1",
        }
    }

    /// Whether the store answers this operation with rows.
    pub fn returns_rows(&self) -> (r: bool)
        ensures
            r == asks_for_rows(self@),
    {
        match self {
            StoreOp::FindById { .. } => true,
            StoreOp::FindAll => true,
            _ => false,
        }
    }
}

} // verus!
