use user_service::handler::{
    begin, finish, handle_client, handle_delete_request, handle_get_request,
    handle_list_request, handle_post_request, handle_put_request, Step,
};
use user_service::reply::{Failure, Reply, Status};
use user_service::request::Request;
use user_service::store::{schema_statement, Row, StoreAnswer, StoreError, StoreOp};

fn request(method: &str, path: &str, body: &str) -> Request {
    Request { method: method.to_string(), path: path.to_string(), body: body.to_string() }
}

fn row(id: i32, name: &str, email: &str) -> Row {
    Row { id, name: name.to_string(), email: email.to_string() }
}

#[test]
fn create_asks_for_an_insert() {
    let req = request("POST", "/users", "{\"name\":\"Alice\",\"email\":\"a@x.com\"}");
    assert_eq!(
        handle_post_request(&req),
        Step::Ask(StoreOp::Insert { name: "Alice".to_string(), email: "a@x.com".to_string() })
    );
}

#[test]
fn create_fails_on_an_unreadable_body() {
    let req = request("POST", "/users", "{\"name\":\"Alice\"}");
    assert_eq!(handle_post_request(&req), Step::Reply(Failure::Parse.reply()));
}

#[test]
fn read_one_asks_for_the_identifier_of_the_path() {
    assert_eq!(handle_get_request(&request("GET", "/users/42", "")), Step::Ask(StoreOp::FindById { id: 42 }));
    assert_eq!(handle_get_request(&request("GET", "/users/-3/x", "")), Step::Ask(StoreOp::FindById { id: -3 }));
}

#[test]
fn read_one_fails_on_an_identifier_that_is_no_number() {
    let failed = Step::Reply(Reply { status: Status::ServerError, body: "Error".to_string() });
    assert_eq!(handle_get_request(&request("GET", "/users/abc", "")), failed);
    assert_eq!(handle_get_request(&request("GET", "/users/99999999999", "")), failed);
    assert_eq!(handle_get_request(&request("GET", "/users/4.5", "")), failed);
}

#[test]
fn list_asks_for_all() {
    assert_eq!(handle_list_request(), Step::Ask(StoreOp::FindAll));
}

#[test]
fn update_asks_with_identifier_name_and_email() {
    let req = request("PUT", "/users/7", "{\"name\":\"Bob\",\"email\":\"b@x.com\"}");
    assert_eq!(
        handle_put_request(&req),
        Step::Ask(StoreOp::Update { id: 7, name: "Bob".to_string(), email: "b@x.com".to_string() })
    );
}

#[test]
fn update_fails_on_a_bad_identifier_or_body() {
    let failed = Step::Reply(Failure::Parse.reply());
    assert_eq!(handle_put_request(&request("PUT", "/users/x", "{\"name\":\"Bob\",\"email\":\"b@x.com\"}")), failed);
    assert_eq!(handle_put_request(&request("PUT", "/users/7", "not-json")), failed);
    assert_eq!(handle_put_request(&request("PUT", "/users/x", "not-json")), failed);
}

#[test]
fn delete_asks_for_the_identifier_of_the_path() {
    assert_eq!(handle_delete_request(&request("DELETE", "/users/5", "")), Step::Ask(StoreOp::Delete { id: 5 }));
    assert_eq!(handle_delete_request(&request("DELETE", "/users/five", "")), Step::Reply(Failure::Parse.reply()));
}

#[test]
fn begin_hands_each_route_to_its_handler() {
    let body = "{\"name\":\"Alice\",\"email\":\"a@x.com\"}";
    assert_eq!(
        begin(&request("POST", "/users", body)),
        Step::Ask(StoreOp::Insert { name: "Alice".to_string(), email: "a@x.com".to_string() })
    );
    assert_eq!(begin(&request("GET", "/users/1", body)), Step::Ask(StoreOp::FindById { id: 1 }));
    assert_eq!(begin(&request("GET", "/users", body)), Step::Ask(StoreOp::FindAll));
    assert_eq!(
        begin(&request("PUT", "/users/1", body)),
        Step::Ask(StoreOp::Update { id: 1, name: "Alice".to_string(), email: "a@x.com".to_string() })
    );
    assert_eq!(begin(&request("DELETE", "/users/1", body)), Step::Ask(StoreOp::Delete { id: 1 }));
    assert_eq!(begin(&request("DELETE", "/users", body)), Step::Reply(Failure::RouteMiss.reply()));
}

#[test]
fn handle_client_reads_routes_and_decides() {
    let step = handle_client(b"PUT /users/3 HTTP/1.1\r\nHost: example\r\n\r\n{\"email\":\"c@x.com\",\"name\":\"Cy\"}");
    assert_eq!(step, Step::Ask(StoreOp::Update { id: 3, name: "Cy".to_string(), email: "c@x.com".to_string() }));
    assert_eq!(handle_client(b"GET /users HTTP/1.1\r\n\r\n"), Step::Ask(StoreOp::FindAll));
    assert_eq!(handle_client(b""), Step::Reply(Failure::RouteMiss.reply()));
    assert_eq!(handle_client(b"\xff\xfe"), Step::Reply(Failure::RouteMiss.reply()));
}

#[test]
fn a_failed_store_gives_a_server_error() {
    let ops = [
        StoreOp::Insert { name: "a".to_string(), email: "b".to_string() },
        StoreOp::FindById { id: 1 },
        StoreOp::FindAll,
        StoreOp::Update { id: 1, name: "a".to_string(), email: "b".to_string() },
        StoreOp::Delete { id: 1 },
    ];
    for op in ops.iter() {
        assert_eq!(finish(op, Err(StoreError)), Reply { status: Status::ServerError, body: "Error".to_string() });
    }
}

#[test]
fn an_answer_of_the_wrong_kind_gives_a_server_error() {
    let failed = Failure::Store.reply();
    assert_eq!(finish(&StoreOp::FindById { id: 1 }, Ok(StoreAnswer::Changed(1))), failed);
    assert_eq!(finish(&StoreOp::FindAll, Ok(StoreAnswer::Changed(0))), failed);
    assert_eq!(finish(&StoreOp::Delete { id: 1 }, Ok(StoreAnswer::Rows(vec![]))), failed);
    assert_eq!(
        finish(&StoreOp::Update { id: 1, name: "a".to_string(), email: "b".to_string() }, Ok(StoreAnswer::Rows(vec![row(1, "a", "b")]))),
        failed
    );
    assert_eq!(
        finish(&StoreOp::Insert { name: "a".to_string(), email: "b".to_string() }, Ok(StoreAnswer::Rows(vec![]))),
        failed
    );
}

#[test]
fn create_is_confirmed() {
    let op = StoreOp::Insert { name: "Alice".to_string(), email: "a@x.com".to_string() };
    assert_eq!(finish(&op, Ok(StoreAnswer::Changed(1))), Reply { status: Status::Success, body: "User created".to_string() });
}

#[test]
fn an_insert_that_added_nothing_is_a_failure() {
    let op = StoreOp::Insert { name: "Alice".to_string(), email: "a@x.com".to_string() };
    assert_eq!(finish(&op, Ok(StoreAnswer::Changed(0))), Failure::Store.reply());
}

#[test]
fn read_one_shows_the_row_or_reports_none() {
    let op = StoreOp::FindById { id: 1 };
    assert_eq!(
        finish(&op, Ok(StoreAnswer::Rows(vec![row(1, "Alice", "a@x.com")]))),
        Reply { status: Status::Success, body: "{\"id\":1,\"name\":\"Alice\",\"email\":\"a@x.com\"}".to_string() }
    );
    assert_eq!(
        finish(&op, Ok(StoreAnswer::Rows(vec![]))),
        Reply { status: Status::NotFound, body: "User not found".to_string() }
    );
}

#[test]
fn list_shows_all_rows_as_an_array() {
    let rows = vec![row(1, "Alice", "a@x.com"), row(2, "Bob \"B\"", "b@x.com"), row(5, "", "")];
    assert_eq!(
        finish(&StoreOp::FindAll, Ok(StoreAnswer::Rows(rows))),
        Reply {
            status: Status::Success,
            body: "[{\"id\":1,\"name\":\"Alice\",\"email\":\"a@x.com\"},{\"id\":2,\"name\":\"Bob \\\"B\\\"\",\"email\":\"b@x.com\"},{\"id\":5,\"name\":\"\",\"email\":\"\"}]".to_string(),
        }
    );
}

#[test]
fn list_of_an_empty_table_is_an_empty_array() {
    assert_eq!(
        finish(&StoreOp::FindAll, Ok(StoreAnswer::Rows(vec![]))),
        Reply { status: Status::Success, body: "[]".to_string() }
    );
}

#[test]
fn update_and_delete_report_a_missing_row() {
    let update = StoreOp::Update { id: 4, name: "a".to_string(), email: "b".to_string() };
    let delete = StoreOp::Delete { id: 4 };
    let missing = Reply { status: Status::NotFound, body: "User not found".to_string() };
    assert_eq!(finish(&update, Ok(StoreAnswer::Changed(0))), missing);
    assert_eq!(finish(&delete, Ok(StoreAnswer::Changed(0))), missing);
    assert_eq!(finish(&update, Ok(StoreAnswer::Changed(1))), Reply { status: Status::Success, body: "User updated".to_string() });
    assert_eq!(finish(&delete, Ok(StoreAnswer::Changed(1))), Reply { status: Status::Success, body: "User deleted".to_string() });
}

#[test]
fn each_operation_has_its_statement() {
    assert_eq!(
        schema_statement(),
        "CREATE TABLE IF NOT EXISTS users (id SERIAL PRIMARY KEY, name VARCHAR NOT NULL, email VARCHAR NOT NULL)"
    );
    let insert = StoreOp::Insert { name: "a".to_string(), email: "b".to_string() };
    let update = StoreOp::Update { id: 1, name: "a".to_string(), email: "b".to_string() };
    assert_eq!(insert.statement(), "INSERT INTO users (name, email) VALUES ($1, $2)");
    assert_eq!(StoreOp::FindById { id: 1 }.statement(), "SELECT id, name, email FROM users WHERE id = $1");
    assert_eq!(StoreOp::FindAll.statement(), "SELECT id, name, email FROM users ORDER BY id");
    assert_eq!(update.statement(), "UPDATE users SET name = $2, email = $3 WHERE id = $1");
    assert_eq!(StoreOp::Delete { id: 1 }.statement(), "DELETE FROM users WHERE id = $1");
    assert!(!insert.returns_rows());
    assert!(StoreOp::FindById { id: 1 }.returns_rows());
    assert!(StoreOp::FindAll.returns_rows());
    assert!(!update.returns_rows());
    assert!(!StoreOp::Delete { id: 1 }.returns_rows());
}
