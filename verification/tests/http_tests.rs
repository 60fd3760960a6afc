use connectivity::http::{
    begin_request, content_length, login_page, post_login_response, BodyOutcome, Header, Method,
    RequestPlan, BODY_CAPACITY,
};

fn header(name: &str, value: &str) -> Header {
    Header { name: name.to_owned(), value: value.to_owned() }
}

fn expect_response(plan: RequestPlan) -> (u16, String) {
    match plan {
        RequestPlan::Respond(r) => (r.status, r.body),
        RequestPlan::ReadBody { .. } => panic!("expected an immediate response"),
    }
}

#[test]
fn get_login_serves_the_form() {
    let (status, body) = expect_response(begin_request(Method::Get, "/login", &Vec::new()));
    assert_eq!(status, 200);
    assert_eq!(body, login_page());
}

#[test]
fn get_root_serves_the_welcome() {
    let (status, body) = expect_response(begin_request(Method::Get, "/", &Vec::new()));
    assert_eq!(status, 200);
    assert_eq!(body, "Welcome to the root page");
}

#[test]
fn unserved_pairs_fall_to_not_found() {
    let cases: Vec<(Method, &str)> = vec![
        (Method::Get, "/missing"),
        (Method::Get, "/login/"),
        (Method::Post, "/"),
        (Method::Put, "/login"),
        (Method::Delete, "/login"),
        (Method::Head, "/"),
        (Method::Other, "/login"),
        (Method::Post, "/logout"),
    ];
    for (m, p) in cases {
        let (status, body) = expect_response(begin_request(m, p, &Vec::new()));
        assert_eq!(status, 404);
        assert_eq!(body, "Not Found");
    }
}

#[test]
fn post_login_without_length_is_rejected_without_a_read() {
    let (status, body) = expect_response(begin_request(Method::Post, "/login", &Vec::new()));
    assert_eq!(status, 400);
    assert_eq!(body, "No form data provided");
}

#[test]
fn post_login_with_zero_length_is_rejected() {
    let headers = vec![header("Content-Length", "0")];
    let (status, _) = expect_response(begin_request(Method::Post, "/login", &headers));
    assert_eq!(status, 400);
}

#[test]
fn post_login_with_unreadable_length_is_rejected() {
    let headers = vec![header("Content-Length", "abc")];
    let (status, _) = expect_response(begin_request(Method::Post, "/login", &headers));
    assert_eq!(status, 400);
}

#[test]
fn body_read_is_bounded_by_the_declared_length() {
    let headers = vec![header("Content-Length", "10")];
    match begin_request(Method::Post, "/login", &headers) {
        RequestPlan::ReadBody { limit } => assert_eq!(limit, 10),
        RequestPlan::Respond(_) => panic!("expected a body read"),
    }
}

#[test]
fn body_read_is_capped_at_the_buffer_size() {
    let headers = vec![header("Content-Length", "5000")];
    match begin_request(Method::Post, "/login", &headers) {
        RequestPlan::ReadBody { limit } => assert_eq!(limit, BODY_CAPACITY),
        RequestPlan::Respond(_) => panic!("expected a body read"),
    }
    let headers = vec![header("Content-Length", "1024")];
    match begin_request(Method::Post, "/login", &headers) {
        RequestPlan::ReadBody { limit } => assert_eq!(limit, 1024),
        RequestPlan::Respond(_) => panic!("expected a body read"),
    }
}

#[test]
fn content_length_is_found_case_insensitively() {
    let headers = vec![header("Accept", "*/*"), header("content-LENGTH", "42")];
    assert_eq!(content_length(&headers), 42);
}

#[test]
fn content_length_first_header_wins() {
    let headers = vec![header("Content-Length", "7"), header("Content-Length", "9")];
    assert_eq!(content_length(&headers), 7);
}

#[test]
fn content_length_overflow_reads_as_zero() {
    let headers = vec![header("Content-Length", "99999999999999999999999999")];
    assert_eq!(content_length(&headers), 0);
}

#[test]
fn content_length_accepts_a_plus_sign() {
    let headers = vec![header("Content-Length", "+5")];
    assert_eq!(content_length(&headers), 5);
}

#[test]
fn read_failure_yields_internal_error() {
    let r = post_login_response(BodyOutcome::ReadFailed);
    assert_eq!(r.status, 500);
    assert_eq!(r.body, "Error reading form data");
}

#[test]
fn invalid_utf8_body_is_rejected() {
    let r = post_login_response(BodyOutcome::Bytes(vec![0xffu8, 0xfe, 0x61]));
    assert_eq!(r.status, 400);
    assert_eq!(r.body, "Invalid form data encoding");
}

#[test]
fn login_echoes_the_submitted_values() {
    let body = b"username=alice&password=secret".to_vec();
    let r = post_login_response(BodyOutcome::Bytes(body));
    assert_eq!(r.status, 200);
    assert_eq!(
        r.body,
        "<html><body><h1>Login Successful</h1><p>Username: alice</p><p>Password: \
         secret</p></body></html>"
    );
}

#[test]
fn login_values_last_occurrence_wins() {
    let body = b"username=a&password=p&username=b".to_vec();
    let r = post_login_response(BodyOutcome::Bytes(body));
    assert_eq!(r.status, 200);
    assert!(r.body.contains("<p>Username: b</p>"));
    assert!(r.body.contains("<p>Password: p</p>"));
}

#[test]
fn login_missing_keys_read_as_empty() {
    let body = b"flavour=plain".to_vec();
    let r = post_login_response(BodyOutcome::Bytes(body));
    assert_eq!(r.status, 200);
    assert!(r.body.contains("<p>Username: </p>"));
    assert!(r.body.contains("<p>Password: </p>"));
}

#[test]
fn login_value_stops_at_a_second_separator() {
    let body = b"username=a=b&password=p".to_vec();
    let r = post_login_response(BodyOutcome::Bytes(body));
    assert!(r.body.contains("<p>Username: a</p>"));
}

#[test]
fn login_pair_without_separator_is_dropped() {
    let body = b"username&password=p".to_vec();
    let r = post_login_response(BodyOutcome::Bytes(body));
    assert!(r.body.contains("<p>Username: </p>"));
    assert!(r.body.contains("<p>Password: p</p>"));
}

#[test]
fn login_accepts_multibyte_text() {
    let body = "username=r\u{e9}mi&password=p".as_bytes().to_vec();
    let r = post_login_response(BodyOutcome::Bytes(body));
    assert_eq!(r.status, 200);
    assert!(r.body.contains("<p>Username: r\u{e9}mi</p>"));
}
