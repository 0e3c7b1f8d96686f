//! What holds of the service as a whole. The laws on one request are
//! stated of the handlers alone; those on several requests are stated over
//! the store of [`crate::model`].

use crate::handler::{
    delete_step, found_reply, read_step, reply_of, rows_json, step_of, StepView,
};
use crate::json::quoted;
use crate::model::{Store, Table};
use crate::number::{decimal, decimal_nat, law_decimal_reads_back, lemma_decimal_nat};
use crate::reply::{failure_reply, ok_reply, Failure, Status};
use crate::request::{id_segment, RequestView};
use crate::route::{names_a_user, route_of, user_path, Route};
use crate::store::{AnswerView, RowView, StoreError, StoreOpView};
use crate::text::{lemma_next, next, Mark};
use crate::user::{array_json, decoded_user, user_object};
use vstd::string::*;
use vstd::prelude::*;

verus! {

/// A request that matches no entry of the route table is answered with
/// `NotFound`, and the store is not asked: it stays as it is, whether it
/// can be reached or not.
pub proof fn law_route_miss_asks_nothing(store: Store, req: RequestView, up: bool)
    requires
        route_of(req.method, req.path) == Route::NotFound,
    ensures
        step_of(req) == StepView::Reply(failure_reply(Failure::RouteMiss)),
        store.serve(req, up) == (store, failure_reply(Failure::RouteMiss)),
        store.serve(req, up).1.status == Status::NotFound,
{
}

/// A request to create a user whose body does not describe one is answered
/// with `ServerError`, and no row is added: the store is not asked.
pub proof fn law_unreadable_create_adds_nothing(store: Store, req: RequestView, up: bool)
    requires
        route_of(req.method, req.path) == Route::Create,
        decoded_user(req.body) is None,
    ensures
        step_of(req) == StepView::Reply(failure_reply(Failure::Parse)),
        store.serve(req, up) == (store, failure_reply(Failure::Parse)),
        store.serve(req, up).1.status == Status::ServerError,
{
}

/// The path of a user names that user: the identifier in it reads back as
/// the number, so a request for that path is routed to read one, update or
/// delete by its method, and the handler asks the store for that number.
pub proof fn law_user_path_names_its_user(id: int)
    requires
        i32::MIN <= id <= i32::MAX,
    ensures
        id_segment(user_path(id)) == decimal(id),
        names_a_user(user_path(id)),
        route_of("GET"@, user_path(id)) == Route::ReadOne,
        route_of("PUT"@, user_path(id)) == Route::Update,
        route_of("DELETE"@, user_path(id)) == Route::Delete,
        read_step(user_path(id)) == StepView::Ask(StoreOpView::FindById { id }),
        delete_step(user_path(id)) == StepView::Ask(StoreOpView::Delete { id }),
{
    let digits = decimal(id);
    let path = user_path(id);
    reveal_strlit("/users/");
    reveal_strlit("GET");
    reveal_strlit("PUT");
    reveal_strlit("POST");
    reveal_strlit("DELETE");
    if id < 0 {
        lemma_decimal_nat((-id) as nat);
    } else {
        lemma_decimal_nat(id as nat);
    }
    assert(path.len() == 7 + digits.len());
    assert(path[0] == '/' && path[1] == 'u' && path[2] == 's' && path[3] == 'e' && path[4] == 'r'
        && path[5] == 's' && path[6] == '/');
    assert(next(path, 1, Mark::SlashOrSpace) == 6) by {
        reveal_with_fuel(next, 8);
    }
    assert(next(path, 0, Mark::Is('/')) == 0);
    lemma_next(path, 7, Mark::SlashOrSpace);
    let end = next(path, 7, Mark::SlashOrSpace);
    if end < path.len() {
        assert(path[end] == digits[end - 7]);
        if id < 0 {
            if end > 7 {
                assert(digits[end - 7] == decimal_nat((-id) as nat)[end - 8]);
            }
        }
        assert(false);
    }
    assert(path.subrange(7, path.len() as int) =~= digits);
    assert(path.subrange(0, 7) =~= "/users/"@);
    law_decimal_reads_back(id);
    assert("GET"@.len() == 3 && "PUT"@.len() == 3 && "POST"@.len() == 4 && "DELETE"@.len() == 6);
    assert("GET"@[0] == 'G' && "PUT"@[0] == 'P');
}

/// Every operation leaves a well-formed table well formed.
pub proof fn law_table_stays_well_formed(table: Table, op: StoreOpView)
    requires
        table.wf(),
    ensures
        table.apply(op).0.wf(),
{
    let after = table.apply(op).0;
    match op {
        StoreOpView::Update { id, name, email } => {
            if table.holds(id) {
                let at = table.place(id);
                assert forall|i: int| 0 <= i < after.rows.len() implies 1 <= (
                #[trigger] after.rows[i]).id < after.next_id by {
                    if i != at {
                        assert(after.rows[i] == table.rows[i]);
                    }
                }
                assert forall|i: int, j: int| 0 <= i < j < after.rows.len() implies (
                #[trigger] after.rows[i]).id < (#[trigger] after.rows[j]).id by {
                    assert(after.rows[i].id == table.rows[i].id);
                    assert(after.rows[j].id == table.rows[j].id);
                }
            }
        },
        StoreOpView::Delete { id } => {
            if table.holds(id) {
                let at = table.place(id);
                assert forall|i: int| 0 <= i < after.rows.len() implies 1 <= (
                #[trigger] after.rows[i]).id < after.next_id by {
                    if i < at {
                        assert(after.rows[i] == table.rows[i]);
                    } else {
                        assert(after.rows[i] == table.rows[i + 1]);
                    }
                }
                assert forall|i: int, j: int| 0 <= i < j < after.rows.len() implies (
                #[trigger] after.rows[i]).id < (#[trigger] after.rows[j]).id by {
                    let before_i = if i < at {
                        i
                    } else {
                        i + 1
                    };
                    let before_j = if j < at {
                        j
                    } else {
                        j + 1
                    };
                    assert(after.rows[i] == table.rows[before_i]);
                    assert(after.rows[j] == table.rows[before_j]);
                }
            }
        },
        _ => {},
    }
}

/// Round trip: a user that was created is read back under the identifier
/// that the store gave it, with the same name and the same email. The
/// answer is a success and shows that user as JSON, with its identifier
/// set.
pub proof fn law_created_user_reads_back(table: Table, name: Seq<char>, email: Seq<char>)
    requires
        table.wf(),
        table.next_id <= i32::MAX,
    ensures
        ({
            let created = table.apply(StoreOpView::Insert { name, email });
            let id = table.next_id;
            let read = created.0.apply(StoreOpView::FindById { id });
            let row = RowView { id, name, email };
            &&& created.1 == Ok::<AnswerView, StoreError>(AnswerView::Changed(1))
            &&& reply_of(StoreOpView::Insert { name, email }, created.1).status == Status::Success
            &&& read.1 == Ok::<AnswerView, StoreError>(AnswerView::Rows(seq![row]))
            &&& reply_of(StoreOpView::FindById { id }, read.1) == found_reply(seq![row])
            &&& row.user().id == Some(id)
            &&& reply_of(StoreOpView::FindById { id }, read.1) == ok_reply(
                user_object(Some(id), quoted(name), quoted(email)),
            )
        }),
{
    let created = table.apply(StoreOpView::Insert { name, email });
    let id = table.next_id;
    let row = RowView { id, name, email };
    let last = table.rows.len() as int;
    assert(created.0.rows[last] == row);
    assert(created.0.holds(id));
    let at = created.0.place(id);
    if at != last {
        assert(created.0.rows[at] == table.rows[at]);
    }
}

/// Round trip, for whole requests. A request to create a user whose body
/// describes one, served by a store that is set up and can be reached, is
/// answered with success where the identifiers are not used up. A request
/// to read the path of the identifier that the store gave is then answered
/// with success, and its body is that user as JSON: the identifier that the
/// store gave, then the name and the email of the body that created it.
pub proof fn law_round_trip(store: Store, create: RequestView, read: RequestView)
    requires
        store.ready(),
        store.table->0.next_id <= i32::MAX,
        route_of(create.method, create.path) == Route::Create,
        decoded_user(create.body) is Some,
        read.method == "GET"@,
        read.path == user_path(store.table->0.next_id),
    ensures
        ({
            let created = store.serve(create, true);
            let shown = created.0.serve(read, true);
            let user = decoded_user(create.body)->0;
            let row = RowView { id: store.table->0.next_id, name: user.name, email: user.email };
            &&& created.1.status == Status::Success
            &&& shown.0 == created.0
            &&& shown.1 == found_reply(seq![row])
            &&& shown.1.status == Status::Success
            &&& shown.1.body == user_object(Some(row.id), quoted(user.name), quoted(user.email))
        }),
{
    let table = store.table->0;
    let user = decoded_user(create.body)->0;
    law_user_path_names_its_user(table.next_id);
    law_created_user_reads_back(table, user.name, user.email);
}

/// Reading an identifier that no row has is answered with `NotFound`. An
/// identifier that the store has not handed out yet is such a one.
pub proof fn law_unknown_id_is_not_found(table: Table, id: int)
    requires
        table.wf(),
    ensures
        !table.holds(id) ==> reply_of(
            StoreOpView::FindById { id },
            table.apply(StoreOpView::FindById { id }).1,
        ) == failure_reply(Failure::NotFoundRow),
        !table.holds(id) ==> reply_of(
            StoreOpView::FindById { id },
            table.apply(StoreOpView::FindById { id }).1,
        ).status == Status::NotFound,
        id >= table.next_id ==> !table.holds(id),
{
}

/// Delete, then read: once a user that was there has been deleted, which
/// is answered with success, reading its identifier is answered with
/// `NotFound`.
pub proof fn law_deleted_user_is_not_found(table: Table, id: int)
    requires
        table.wf(),
        table.holds(id),
    ensures
        ({
            let deleted = table.apply(StoreOpView::Delete { id });
            let read = deleted.0.apply(StoreOpView::FindById { id });
            &&& reply_of(StoreOpView::Delete { id }, deleted.1).status == Status::Success
            &&& !deleted.0.holds(id)
            &&& reply_of(StoreOpView::FindById { id }, read.1) == failure_reply(
                Failure::NotFoundRow,
            )
            &&& reply_of(StoreOpView::FindById { id }, read.1).status == Status::NotFound
        }),
{
    let deleted = table.apply(StoreOpView::Delete { id });
    let at = table.place(id);
    assert forall|i: int| 0 <= i < deleted.0.rows.len() implies (
    #[trigger] deleted.0.rows[i]).id != id by {
        if i < at {
            assert(deleted.0.rows[i] == table.rows[i]);
        } else {
            assert(deleted.0.rows[i] == table.rows[i + 1]);
        }
    }
}

/// Setting the table up twice comes to the same as setting it up once: the
/// second time changes nothing. Setting it up never fails, and never
/// touches a table that is there.
pub proof fn law_set_up_twice_is_once(store: Store)
    ensures
        store.set_up().set_up() == store.set_up(),
        store.set_up().table is Some,
        store.table is Some ==> store.set_up() == store,
        Store::bare().set_up().ready(),
        Store::bare().set_up().count() == 0,
{
}

/// One request changes the number of users by one at most: a create that
/// is answered with success adds one, a delete that is answered with
/// success removes one, and nothing else changes it.
pub proof fn law_one_request_counts(store: Store, req: RequestView, up: bool)
    requires
        store.table is Some,
    ensures
        ({
            let served = store.serve(req, up);
            let route = route_of(req.method, req.path);
            let success = served.1.status == Status::Success;
            &&& served.0.table is Some
            &&& served.0.count() == store.count() + (if route == Route::Create && success {
                1int
            } else {
                0int
            }) - (if route == Route::Delete && success {
                1int
            } else {
                0int
            })
        }),
{
    match step_of(req) {
        StepView::Reply(reply) => {},
        StepView::Ask(op) => {},
    }
}

/// The number of users after a sequence of requests is the number before
/// it, plus the creates and minus the deletes that were answered with
/// success.
pub proof fn law_requests_count(store: Store, requests: Seq<(RequestView, bool)>)
    requires
        store.table is Some,
    ensures
        store.after(requests).table is Some,
        store.after(requests).count() == store.count() + store.successes(
            requests,
            Route::Create,
        ) - store.successes(requests, Route::Delete),
    decreases requests.len(),
{
    if requests.len() > 0 {
        law_requests_count(store, requests.drop_last());
        law_one_request_counts(
            store.after(requests.drop_last()),
            requests.last().0,
            requests.last().1,
        );
    }
}

/// List reflects the state of the store. Take any sequence of requests to
/// a store that was set up empty, in whatever order and whether or not the
/// store could be reached for each. A request to list, for which the store
/// can be reached, is then answered with success, and its body is a JSON
/// array with one entry for each user in the table: as many as creates
/// were answered with success, less the deletes that were.
pub proof fn law_list_reflects_store(requests: Seq<(RequestView, bool)>, list: RequestView)
    requires
        route_of(list.method, list.path) == Route::List,
    ensures
        ({
            let start = Store::bare().set_up();
            let end = start.after(requests);
            let rows = end.table->0.rows;
            let served = end.serve(list, true);
            &&& end.table is Some
            &&& rows.len() == start.successes(requests, Route::Create) - start.successes(
                requests,
                Route::Delete,
            )
            &&& served.0 == end
            &&& served.1.status == Status::Success
            &&& served.1.body == array_json(rows_json(rows))
            &&& rows_json(rows).len() == rows.len()
        }),
{
    let start = Store::bare().set_up();
    law_requests_count(start, requests);
    let end = start.after(requests);
    assert(end.apply(StoreOpView::FindAll, true).0 == end);
}

} // verus!
