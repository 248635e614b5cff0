use todo_listing::config::{pool_config, LIST_QUERY, LISTEN_ADDRESS};
use todo_listing::handler::{list_todos, HandlerOutcome, Method, Request};
use todo_listing::render::{push_decimal, render_line, render_listing, LISTING_HEADER};
use todo_listing::response::{AppError, FAILURE_PREFIX, STATUS_INTERNAL_SERVER_ERROR, STATUS_OK};
use todo_listing::todo::TodoRecord;

fn rec(id: i64, description: &str, done: bool) -> TodoRecord {
    TodoRecord::new(id, description.to_string(), done)
}

fn sample_rows() -> Vec<TodoRecord> {
    vec![rec(1, "buy milk", false), rec(2, "write report", true)]
}

fn request(method: Method, body: &[u8]) -> Request {
    Request { method, body: body.to_vec() }
}

fn decimal(n: i64) -> String {
    let mut s = String::new();
    push_decimal(&mut s, n);
    s
}

#[test]
fn example_rows_render_in_order() {
    let out = list_todos(&request(Method::Get, b""), Ok(sample_rows()));
    assert_eq!(
        out.printed,
        vec![
            "- [ ] List of todos:".to_string(),
            "- [ ] 1: buy milk".to_string(),
            "- [x] 2: write report".to_string(),
        ]
    );
    assert_eq!(out.response.status, 200);
    assert_eq!(out.response.body, "");
}

#[test]
fn empty_table_prints_header_only() {
    let out = list_todos(&request(Method::Get, b""), Ok(Vec::new()));
    assert_eq!(out.printed, vec![LISTING_HEADER.to_string()]);
    assert_eq!(out.response.status, STATUS_OK);
    assert!(out.response.body.is_empty());
}

#[test]
fn store_failure_gives_500() {
    let err = AppError::from("connection refused".to_string());
    let out = list_todos(&request(Method::Get, b""), Err(err));
    assert!(out.printed.is_empty());
    assert_eq!(out.response.status, 500);
    assert_eq!(out.response.body, "Something went wrong: connection refused");
    assert!(out.response.body.starts_with(FAILURE_PREFIX));
}

#[test]
fn pool_timeout_failure_gives_500() {
    let err = AppError::from("pool timed out while waiting for an open connection".to_string());
    let out = list_todos(&request(Method::Post, b"x"), Err(err));
    assert_eq!(out.response.status, STATUS_INTERNAL_SERVER_ERROR);
    assert_eq!(
        out.response.body,
        "Something went wrong: pool timed out while waiting for an open connection"
    );
}

fn same(a: &HandlerOutcome, b: &HandlerOutcome) -> bool {
    a.printed == b.printed && a.response.status == b.response.status && a.response.body == b.response.body
}

#[test]
fn get_and_post_behave_alike() {
    let get = list_todos(&request(Method::Get, b""), Ok(sample_rows()));
    let post = list_todos(&request(Method::Post, b"{\"any\": \"payload\"}"), Ok(sample_rows()));
    assert!(same(&get, &post));
    let get_err = list_todos(&request(Method::Get, b""), Err(AppError::from("gone".to_string())));
    let post_err =
        list_todos(&request(Method::Post, b"payload"), Err(AppError::from("gone".to_string())));
    assert!(same(&get_err, &post_err));
}

#[test]
fn into_response_is_500_with_prefix() {
    let r = AppError { message: "no such table: todos".to_string() }.into_response();
    assert_eq!(r.status, 500);
    assert_eq!(r.body, "Something went wrong: no such table: todos");
    let empty = AppError::from(String::new()).into_response();
    assert_eq!(empty.body, "Something went wrong: ");
}

#[test]
fn from_keeps_message() {
    let e: AppError = "disk I/O error".to_string().into();
    assert_eq!(e.message, "disk I/O error");
}

#[test]
fn line_marks_done_with_x() {
    assert_eq!(render_line(&rec(7, "done thing", true)), "- [x] 7: done thing");
    assert_eq!(render_line(&rec(7, "open thing", false)), "- [ ] 7: open thing");
}

#[test]
fn line_keeps_description_verbatim() {
    assert_eq!(render_line(&rec(3, "", false)), "- [ ] 3: ");
    assert_eq!(render_line(&rec(4, "a: [b] ü", true)), "- [x] 4: a: [b] ü");
}

#[test]
fn line_with_negative_and_extreme_ids() {
    assert_eq!(render_line(&rec(-15, "neg", false)), "- [ ] -15: neg");
    assert_eq!(render_line(&rec(0, "zero", false)), "- [ ] 0: zero");
    assert_eq!(
        render_line(&rec(i64::MAX, "max", true)),
        "- [x] 9223372036854775807: max"
    );
    assert_eq!(
        render_line(&rec(i64::MIN, "min", false)),
        "- [ ] -9223372036854775808: min"
    );
}

#[test]
fn decimal_matches_std_formatting() {
    for n in [0i64, 1, 9, 10, 99, 100, 1234567890, -1, -10, -987654321, i64::MAX, i64::MIN] {
        assert_eq!(decimal(n), n.to_string());
    }
}

#[test]
fn decimal_appends_to_existing_text() {
    let mut s = "id=".to_string();
    push_decimal(&mut s, 42);
    assert_eq!(s, "id=42");
}

#[test]
fn listing_keeps_row_order_and_count() {
    let rows = vec![rec(1, "a", false), rec(5, "b", true), rec(9, "c", false)];
    let lines = render_listing(&rows);
    assert_eq!(lines.len(), 4);
    assert_eq!(lines[0], "- [ ] List of todos:");
    assert_eq!(lines[1], "- [ ] 1: a");
    assert_eq!(lines[2], "- [x] 5: b");
    assert_eq!(lines[3], "- [ ] 9: c");
}

#[test]
fn listing_renders_duplicate_descriptions_once_each() {
    let rows = vec![rec(1, "same", false), rec(2, "same", false)];
    let lines = render_listing(&rows);
    assert_eq!(lines, vec!["- [ ] List of todos:", "- [ ] 1: same", "- [ ] 2: same"]);
}

#[test]
fn pool_settings() {
    let c = pool_config();
    assert_eq!(c.max_connections, 5);
    assert_eq!(c.acquire_timeout_secs, 3);
}

#[test]
fn query_orders_by_id() {
    assert_eq!(LIST_QUERY, "SELECT id, description, done FROM todos ORDER BY id");
    assert_eq!(LISTEN_ADDRESS, "0.0.0.0:3000");
}
