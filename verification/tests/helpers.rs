use http_engine::compose::ComposeCmd;
use http_engine::config::Server;
use http_engine::error::{Error, ResultExt};
use http_engine::prelude::W;
use http_engine::request::{PeerAddress, Request, RequestError};
use http_engine::response::Response;
use http_engine::status_code::StatusCode;
use http_engine::utils::{
    accept_connection, cors_allow_origin, origin_allowed, pad_right, request_log_line,
};

fn request(bytes: &[u8]) -> Request {
    Request::parse(bytes, PeerAddress::V6 { segments: 1, port: 9, flowinfo: 0, scope_id: 0 }).unwrap()
}

#[test]
fn allowed_origin_is_named_in_the_response() {
    let req = request(b"GET / HTTP/1.1\r\nOrigin: https://a.example\r\n\r\n");
    let mut res = Response::new();
    cors_allow_origin(&req, &mut res, &["https://b.example", "https://a.example"]);
    assert_eq!(
        res.fmt_head(),
        "HTTP/1.1 200 Ok\r\nAccess-Control-Allow-Origin: https://a.example\r\nVary: Origin\r\n\r\n"
    );
}

#[test]
fn other_origins_change_nothing() {
    let req = request(b"GET / HTTP/1.1\r\nOrigin: https://c.example\r\n\r\n");
    let mut res = Response::new();
    cors_allow_origin(&req, &mut res, &["https://b.example", "https://a.example"]);
    assert!(res.headers().is_empty());
    cors_allow_origin(&req, &mut res, &[]);
    assert!(res.headers().is_empty());
    let req = request(b"GET / HTTP/1.1\r\nHost: https://a.example\r\n\r\n");
    cors_allow_origin(&req, &mut res, &["https://a.example"]);
    assert!(res.headers().is_empty());
    assert!(origin_allowed("x", &["y", "x"]));
    assert!(!origin_allowed("x", &["y", "xx"]));
}

#[test]
fn log_line_shows_date_method_and_path() {
    let req = request(b"GET /hooks/ HTTP/1.1\r\n\r\n");
    assert_eq!(
        request_log_line(&req, 0),
        "\x1b[2m1970-00-00 00:00:00\x1b[0m [\x1b[96;1mGET\x1b[0m]    /hooks"
    );
    assert_eq!(
        request_log_line(&req, 1_700_000_000),
        "\x1b[2m2023-11-25 22:13:20\x1b[0m [\x1b[96;1mGET\x1b[0m]    /hooks"
    );
    let req = request(b"PROPPATCH / HTTP/1.1\r\n\r\n");
    assert_eq!(
        request_log_line(&req, 86_399),
        "\x1b[2m1970-00-00 23:59:59\x1b[0m [\x1b[96;1mPROPPATCH\x1b[0m] /"
    );
}

#[test]
fn log_line_agrees_with_the_formatting_of_the_standard_library() {
    for (method, seconds) in [("GET", 5u64), ("OPTIONS", 31_535_999), ("A-VERY-LONG-METHOD", 987_654_321)] {
        let req = request(format!("{} /p HTTP/1.1\r\n\r\n", method).as_bytes());
        let date = format!(
            "{}-{:02}-{:02} {:02}:{:02}:{:02}",
            1970 + seconds / 31536000,
            (seconds % 31536000) / 2592000,
            (seconds % 2592000) / 86400,
            (seconds % 86400) / 3600,
            (seconds % 3600) / 60,
            seconds % 60
        );
        let shown = format!("[\x1b[96;1m{}\x1b[0m]", method);
        assert_eq!(
            request_log_line(&req, seconds),
            format!("\x1b[2m{}\x1b[0m {: <19} {}", date, shown, "/p")
        );
    }
}

#[test]
fn padding_fills_up_to_the_width() {
    assert_eq!(pad_right("ab".to_string(), 5), "ab   ");
    assert_eq!(pad_right("abcde".to_string(), 5), "abcde");
    assert_eq!(pad_right("abcdef".to_string(), 5), "abcdef");
    assert_eq!(pad_right("\u{e9}".to_string(), 3), "\u{e9}  ");
    assert_eq!(pad_right(String::new(), 0), "");
}

#[test]
fn accepted_connection_pairs_request_and_response() {
    let req = request(b"GET /x HTTP/1.1\r\n\r\n");
    let (req, res) = accept_connection(Ok(Ok(req))).unwrap();
    assert_eq!(req.path, "/x");
    assert_eq!(res.status_code(), StatusCode::OK);
    assert!(!res.sent());
    assert!(res.headers().is_empty());
}

#[test]
fn failed_connection_is_told_as_text() {
    assert_eq!(
        accept_connection(Err("too many open files".to_string())).err(),
        Some("couldn't get client: too many open files".to_string())
    );
    assert_eq!(
        accept_connection(Ok(Err(RequestError::ContentLength("x".to_string())))).err(),
        Some("invalid Content-Length header `x`".to_string())
    );
    assert_eq!(
        accept_connection(Ok(Err(RequestError::Read))).err(),
        Some("could not read from TcpStream".to_string())
    );
}

#[test]
fn error_remembers_where_it_passed() {
    let error = Error::new("boom");
    assert!(error.backtrace().is_empty());
    assert_eq!(error.to_string(), "");
    let error = error.traced("src/a.rs", 3, 14);
    assert_eq!(error.backtrace().len(), 1);
    assert_eq!(error.backtrace()[0].to_string(), "boom (at src/a.rs:3:14)");
    assert_eq!(error.to_string(), "boom (at src/a.rs:3:14)");
    let error = error.traced("src/b.rs", 10, 1);
    assert_eq!(
        error.to_string(),
        "boom (at src/a.rs:3:14)\n - boom (at src/b.rs:10:1)\n - boom (at src/a.rs:3:14)"
    );
}

#[test]
fn propagated_error_has_no_message_of_its_own() {
    let error = Error::propagate().traced("f.rs", 1, 2);
    assert_eq!(error.backtrace()[0].to_string(), "propagated... (at f.rs:1:2)");
    assert_eq!(error.to_string(), "");
    let error = error.traced("g.rs", 3, 4);
    assert_eq!(
        error.to_string(),
        " - propagated... (at g.rs:3:4)\n - propagated... (at f.rs:1:2)"
    );
    let error = Error::caused("disk full", "h.rs", 5, 6);
    assert_eq!(error.to_string(), "disk full (at h.rs:5:6)");
    assert_eq!(error.backtrace().len(), 1);
}

#[test]
fn errors_come_from_texts_and_from_nothing() {
    let error = Error::from("bad").traced("f.rs", 1, 2);
    assert_eq!(error.to_string(), "bad (at f.rs:1:2)");
    let error: Error = "worse".to_string().into();
    assert_eq!(error.traced("g.rs", 3, 4).to_string(), "worse (at g.rs:3:4)");
    let error: Error = ().into();
    assert!(error.backtrace().is_empty());
    assert_eq!(error.traced("h.rs", 5, 6).backtrace()[0].to_string(), "propagated... (at h.rs:5:6)");
}

#[test]
fn trace_notes_the_place_on_failures_only() {
    let ok: Result<u8, Error> = Ok(3);
    assert_eq!(ok.trace("f.rs", 1, 1).unwrap(), 3);
    let failed: Result<u8, Error> = Err(Error::new("bad"));
    let error = failed.trace("f.rs", 7, 9).unwrap_err();
    assert_eq!(error.to_string(), "bad (at f.rs:7:9)");
}

#[test]
fn server_address_joins_host_and_port() {
    let server = Server { host: Server::default_host(), port: Server::default_port(), auth_token: None };
    assert_eq!(server.address(), "0.0.0.0:4463");
    let server = Server { host: "localhost".to_string(), port: 80, auth_token: None };
    assert_eq!(server.address(), "localhost:80");
    let server = Server { host: "::1".to_string(), port: 65535, auth_token: Some("t".to_string()) };
    assert_eq!(server.address(), "::1:65535");
}

#[test]
fn compose_args_select_the_compose_file() {
    let cmd = ComposeCmd::new("/srv/app/compose.yml");
    assert_eq!(cmd.compose_args(), ["compose", "-f", "/srv/app/compose.yml"]);
}

#[test]
fn wrapper_holds_its_value() {
    let w = W(5u8);
    assert_eq!(w.0, 5);
}
