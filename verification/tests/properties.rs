use user_service::handler::{finish, handle_client, Step};
use user_service::reply::{format_response, Status};
use user_service::store::{schema_statement, Row, StoreAnswer, StoreError, StoreOp};

/// A table in memory that answers as a store is expected to.
struct Table {
    rows: Vec<Row>,
    next_id: i32,
    statements: usize,
}

fn empty_table() -> Table {
    Table { rows: Vec::new(), next_id: 1, statements: 0 }
}

fn carry_out(table: &mut Table, op: &StoreOp) -> Result<StoreAnswer, StoreError> {
    table.statements += 1;
    match op {
        StoreOp::Insert { name, email } => {
            table.rows.push(Row { id: table.next_id, name: name.clone(), email: email.clone() });
            table.next_id += 1;
            Ok(StoreAnswer::Changed(1))
        }
        StoreOp::FindById { id } => {
            Ok(StoreAnswer::Rows(table.rows.iter().filter(|row| row.id == *id).cloned().collect()))
        }
        StoreOp::FindAll => Ok(StoreAnswer::Rows(table.rows.clone())),
        StoreOp::Update { id, name, email } => {
            let mut changed = 0;
            for row in table.rows.iter_mut().filter(|row| row.id == *id) {
                row.name = name.clone();
                row.email = email.clone();
                changed += 1;
            }
            Ok(StoreAnswer::Changed(changed))
        }
        StoreOp::Delete { id } => {
            let before = table.rows.len();
            table.rows.retain(|row| row.id != *id);
            Ok(StoreAnswer::Changed((before - table.rows.len()) as u64))
        }
    }
}

fn serve(table: &mut Table, request: &str) -> (Status, String) {
    let reply = match handle_client(request.as_bytes()) {
        Step::Reply(reply) => reply,
        Step::Ask(op) => {
            let outcome = carry_out(table, &op);
            finish(&op, outcome)
        }
    };
    (reply.status, reply.body)
}

fn create(name: &str, email: &str) -> String {
    format!("POST /users HTTP/1.1\r\nContent-Type: application/json\r\n\r\n{{\"name\":\"{}\",\"email\":\"{}\"}}", name, email)
}

fn listed(table: &mut Table) -> usize {
    let (status, body) = serve(table, "GET /users HTTP/1.1\r\n\r\n");
    assert_eq!(status, Status::Success);
    let value: serde_json::Value = serde_json::from_str(&body).unwrap();
    value.as_array().unwrap().len()
}

#[test]
fn round_trip() {
    let mut table = empty_table();
    let (status, body) = serve(&mut table, "POST /users HTTP/1.1\r\n\r\n{\"name\":\"Alice\",\"email\":\"a@x.com\"}");
    assert_eq!(status, Status::Success);
    assert_eq!(body, "User created");
    let id = table.rows[0].id;
    let (status, body) = serve(&mut table, &format!("GET /users/{} HTTP/1.1\r\n\r\n", id));
    assert_eq!(status, Status::Success);
    assert_eq!(body, "{\"id\":1,\"name\":\"Alice\",\"email\":\"a@x.com\"}");
    let value: serde_json::Value = serde_json::from_str(&body).unwrap();
    assert_eq!(value["name"], "Alice");
    assert_eq!(value["email"], "a@x.com");
    assert!(value["id"].is_i64());
}

#[test]
fn not_found_on_read() {
    let mut table = empty_table();
    serve(&mut table, &create("Alice", "a@x.com"));
    serve(&mut table, &create("Bob", "b@x.com"));
    let (status, body) = serve(&mut table, "GET /users/3 HTTP/1.1\r\n\r\n");
    assert_eq!(status, Status::NotFound);
    assert_eq!(body, "User not found");
    let (status, _) = serve(&mut table, "GET /users/2147483647 HTTP/1.1\r\n\r\n");
    assert_eq!(status, Status::NotFound);
}

#[test]
fn not_found_on_unmatched_route() {
    let mut table = empty_table();
    let step = handle_client(b"GET /widgets HTTP/1.1\r\nHost: example\r\n\r\n");
    assert!(matches!(step, Step::Reply(_)));
    let (status, body) = serve(&mut table, "GET /widgets HTTP/1.1\r\nHost: example\r\n\r\n");
    assert_eq!(status, Status::NotFound);
    assert_eq!(body, "NOT FOUND");
    assert_eq!(table.statements, 0);
}

#[test]
fn malformed_create_body() {
    let mut table = empty_table();
    let step = handle_client(b"POST /users HTTP/1.1\r\n\r\nnot-json");
    assert!(matches!(step, Step::Reply(_)));
    let (status, body) = serve(&mut table, "POST /users HTTP/1.1\r\n\r\nnot-json");
    assert_eq!(status, Status::ServerError);
    assert_eq!(body, "Error");
    assert_eq!(table.statements, 0);
    assert!(table.rows.is_empty());
}

#[test]
fn delete_then_read() {
    let mut table = empty_table();
    serve(&mut table, &create("Alice", "a@x.com"));
    serve(&mut table, &create("Bob", "b@x.com"));
    let (status, body) = serve(&mut table, "DELETE /users/1 HTTP/1.1\r\n\r\n");
    assert_eq!(status, Status::Success);
    assert_eq!(body, "User deleted");
    let (status, _) = serve(&mut table, "GET /users/1 HTTP/1.1\r\n\r\n");
    assert_eq!(status, Status::NotFound);
    let (status, _) = serve(&mut table, "DELETE /users/1 HTTP/1.1\r\n\r\n");
    assert_eq!(status, Status::NotFound);
    let (status, body) = serve(&mut table, "GET /users/2 HTTP/1.1\r\n\r\n");
    assert_eq!(status, Status::Success);
    assert_eq!(body, "{\"id\":2,\"name\":\"Bob\",\"email\":\"b@x.com\"}");
}

#[test]
fn schema_statement_leaves_an_existing_table_alone() {
    assert!(schema_statement().starts_with("CREATE TABLE IF NOT EXISTS users "));
    assert_eq!(schema_statement(), schema_statement());
}

#[test]
fn list_reflects_store_state() {
    let mut table = empty_table();
    assert_eq!(listed(&mut table), 0);
    let mut creates = 0;
    let mut deletes = 0;
    let requests = [
        create("Alice", "a@x.com"),
        "DELETE /users/7 HTTP/1.1\r\n\r\n".to_string(),
        create("Bob", "b@x.com"),
        "POST /users HTTP/1.1\r\n\r\nnot-json".to_string(),
        create("Cy", "c@x.com"),
        "DELETE /users/2 HTTP/1.1\r\n\r\n".to_string(),
        "DELETE /users/2 HTTP/1.1\r\n\r\n".to_string(),
        "PUT /users/1 HTTP/1.1\r\n\r\n{\"name\":\"Al\",\"email\":\"al@x.com\"}".to_string(),
        "GET /widgets HTTP/1.1\r\n\r\n".to_string(),
        create("Di", "d@x.com"),
        "DELETE /users/x HTTP/1.1\r\n\r\n".to_string(),
        "DELETE /users/1 HTTP/1.1\r\n\r\n".to_string(),
    ];
    for request in requests.iter() {
        let (status, _) = serve(&mut table, request);
        if status == Status::Success && request.starts_with("POST ") {
            creates += 1;
        }
        if status == Status::Success && request.starts_with("DELETE ") {
            deletes += 1;
        }
        assert_eq!(listed(&mut table), creates - deletes);
    }
    assert_eq!(creates, 4);
    assert_eq!(deletes, 2);
    assert_eq!(listed(&mut table), 2);
}

#[test]
fn update_then_read() {
    let mut table = empty_table();
    serve(&mut table, &create("Alice", "a@x.com"));
    let (status, body) = serve(&mut table, "PUT /users/1 HTTP/1.1\r\n\r\n{\"name\":\"Al\",\"email\":\"al@x.com\"}");
    assert_eq!(status, Status::Success);
    assert_eq!(body, "User updated");
    let (_, body) = serve(&mut table, "GET /users/1 HTTP/1.1\r\n\r\n");
    assert_eq!(body, "{\"id\":1,\"name\":\"Al\",\"email\":\"al@x.com\"}");
    let (status, _) = serve(&mut table, "PUT /users/9 HTTP/1.1\r\n\r\n{\"name\":\"Al\",\"email\":\"al@x.com\"}");
    assert_eq!(status, Status::NotFound);
}

#[test]
fn a_whole_exchange_goes_out_as_text() {
    let mut table = empty_table();
    serve(&mut table, &create("Alice", "a@x.com"));
    let reply = match handle_client(b"GET /users HTTP/1.1\r\n\r\n") {
        Step::Ask(op) => {
            let outcome = carry_out(&mut table, &op);
            finish(&op, outcome)
        }
        Step::Reply(reply) => reply,
    };
    assert_eq!(
        format_response(&reply),
        "HTTP/1.1 200 OK\r\nContent-Type: application/json\r\n\r\n[{\"id\":1,\"name\":\"Alice\",\"email\":\"a@x.com\"}]"
    );
}
