//! The store as the handlers expect it to behave: one table of users, kept
//! in the order of their identifiers, which the store hands out one after
//! another. Nothing in the library runs this model. It says what a
//! sequence of requests comes to when the store works in this way, and the
//! laws of the service are stated over it.

use crate::handler::{reply_of, step_of, StepView};
use crate::reply::ReplyView;
use crate::reply::Status;
use crate::request::RequestView;
use crate::route::{route_of, Route};
use crate::store::{AnswerView, RowView, StoreError, StoreOpView};
use vstd::prelude::*;

verus! {

/// The table of users.
pub struct Table {
    /// The rows, in the order in which they were added.
    pub rows: Seq<RowView>,
    /// The identifier that the next row gets.
    pub next_id: int,
}

/// The store: with the table set up, or without it.
pub struct Store {
    pub table: Option<Table>,
}

impl Table {
    /// The table as it is set up: without rows, and the first identifier is
    /// 1.
    pub open spec fn empty() -> Table {
        Table { rows: Seq::empty(), next_id: 1 }
    }

    /// Identifiers grow from row to row, and each is one that was handed
    /// out already. So no two rows share one.
    pub open spec fn wf(self) -> bool {
        &&& 1 <= self.next_id
        &&& forall|i: int| 0 <= i < self.rows.len() ==> 1 <= (#[trigger] self.rows[i]).id < self.next_id
        &&& forall|i: int, j: int|
            0 <= i < j < self.rows.len() ==> (#[trigger] self.rows[i]).id < (#[trigger] self.rows[j]).id
    }

    /// Whether a row has the identifier `id`.
    pub open spec fn holds(self, id: int) -> bool {
        exists|i: int| 0 <= i < self.rows.len() && (#[trigger] self.rows[i]).id == id
    }

    /// The place of a row with the identifier `id`, where there is one.
    pub open spec fn place(self, id: int) -> int {
        choose|i: int| 0 <= i < self.rows.len() && (#[trigger] self.rows[i]).id == id
    }

    /// What an operation makes of the table, and what the store answers.
    ///
    /// Adding a user fails once the identifiers of 32 bits are used up.
    /// Changing or removing a user that is not there changes nothing and
    /// reports no row.
    pub open spec fn apply(self, op: StoreOpView) -> (Table, Result<AnswerView, StoreError>) {
        match op {
            StoreOpView::Insert { name, email } => if self.next_id <= i32::MAX {
                (
                    Table {
                        rows: self.rows.push(RowView { id: self.next_id, name, email }),
                        next_id: self.next_id + 1,
                    },
                    Ok(AnswerView::Changed(1)),
                )
            } else {
                (self, Err(StoreError))
            },
            StoreOpView::FindById { id } => if self.holds(id) {
                (self, Ok(AnswerView::Rows(seq![self.rows[self.place(id)]])))
            } else {
                (self, Ok(AnswerView::Rows(Seq::empty())))
            },
            StoreOpView::FindAll => (self, Ok(AnswerView::Rows(self.rows))),
            StoreOpView::Update { id, name, email } => if self.holds(id) {
                (
                    Table {
                        rows: self.rows.update(self.place(id), RowView { id, name, email }),
                        next_id: self.next_id,
                    },
                    Ok(AnswerView::Changed(1)),
                )
            } else {
                (self, Ok(AnswerView::Changed(0)))
            },
            StoreOpView::Delete { id } => if self.holds(id) {
                (
                    Table { rows: self.rows.remove(self.place(id)), next_id: self.next_id },
                    Ok(AnswerView::Changed(1)),
                )
            } else {
                (self, Ok(AnswerView::Changed(0)))
            },
        }
    }
}

impl Store {
    /// A store in which the table has not been set up.
    pub open spec fn bare() -> Store {
        Store { table: None }
    }

    /// Setting the table up: a table that is there stays as it is, one that
    /// is missing is made without rows.
    pub open spec fn set_up(self) -> Store {
        match self.table {
            Some(_) => self,
            None => Store { table: Some(Table::empty()) },
        }
    }

    /// Whether the table is set up and well formed.
    pub open spec fn ready(self) -> bool {
        self.table matches Some(table) && table.wf()
    }

    /// The number of users in the table.
    pub open spec fn count(self) -> nat {
        match self.table {
            Some(table) => table.rows.len(),
            None => 0,
        }
    }

    /// What an operation makes of the store, and its outcome. A store that
    /// cannot be reached (`up` is false) or lacks the table fails and stays
    /// as it is.
    pub open spec fn apply(self, op: StoreOpView, up: bool) -> (Store, Result<AnswerView, StoreError>) {
        match self.table {
            Some(table) if up => (Store { table: Some(table.apply(op).0) }, table.apply(op).1),
            _ => (self, Err(StoreError)),
        }
    }

    /// Serving one request: the step of its handler, the operation on the
    /// store where the handler asks for one, and the answer.
    pub open spec fn serve(self, req: RequestView, up: bool) -> (Store, ReplyView) {
        match step_of(req) {
            StepView::Reply(reply) => (self, reply),
            StepView::Ask(op) => (self.apply(op, up).0, reply_of(op, self.apply(op, up).1)),
        }
    }

    /// The store after a sequence of requests, each with the word on
    /// whether the store could be reached for it.
    pub open spec fn after(self, requests: Seq<(RequestView, bool)>) -> Store
        decreases requests.len(),
    {
        if requests.len() == 0 {
            self
        } else {
            self.after(requests.drop_last()).serve(requests.last().0, requests.last().1).0
        }
    }

    /// How many of a sequence of requests were routed to `route` and
    /// answered with success.
    pub open spec fn successes(self, requests: Seq<(RequestView, bool)>, route: Route) -> nat
        decreases requests.len(),
    {
        if requests.len() == 0 {
            0
        } else {
            let req = requests.last().0;
            let counts = route_of(req.method, req.path) == route && self.last_reply(
                requests,
            ).status == Status::Success;
            self.successes(requests.drop_last(), route) + if counts {
                1nat
            } else {
                0nat
            }
        }
    }

    /// The answer to the last of a sequence of requests.
    pub open spec fn last_reply(self, requests: Seq<(RequestView, bool)>) -> ReplyView
        recommends
            requests.len() > 0,
    {
        self.after(requests.drop_last()).serve(requests.last().0, requests.last().1).1
    }
}

} // verus!
