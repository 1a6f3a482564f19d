use http_engine::content_type::ContentType;
use http_engine::file_body::FileBody;
use http_engine::response::{Delivery, Outgoing, Payload, Response, ResponseError, Sendable};
use http_engine::status_code::StatusCode;

fn text_of(out: &Outgoing) -> Option<&str> {
    match &out.payload {
        Payload::Text(text) => Some(text.as_str()),
        _ => None,
    }
}

#[test]
fn a_new_response_is_open_with_status_200() {
    let res = Response::new();
    assert_eq!(res.status_code(), StatusCode::OK);
    assert!(!res.sent());
    assert!(res.headers().is_empty());
    assert_eq!(res.fmt_head(), "HTTP/1.1 200 Ok\r\n\r\n");
}

#[test]
fn headers_are_set_and_overwritten() {
    let mut res = Response::new();
    res.set_header("X-A", "1");
    res.set_header("X-B", "2");
    res.set_header("X-A", "3");
    assert_eq!(res.headers().len(), 2);
    assert_eq!(res.headers().get("X-A"), Some(&"3".to_string()));
    assert_eq!(res.fmt_head(), "HTTP/1.1 200 Ok\r\nX-A: 3\r\nX-B: 2\r\n\r\n");
}

#[test]
fn mutators_chain() {
    let mut res = Response::new();
    res.status(StatusCode::NotFound).content_type(ContentType::Html).raw_content_type("x/y");
    assert_eq!(res.status_code(), StatusCode::NotFound);
    assert_eq!(res.headers().get("Content-Type"), Some(&"x/y".to_string()));
    res.content_type(ContentType::Json);
    assert_eq!(
        res.fmt_head(),
        "HTTP/1.1 404 NotFound\r\nContent-Type: application/json; charset=utf-8\r\n\r\n"
    );
}

#[test]
fn text_body_gets_plain_type_and_its_length() {
    let mut res = Response::new();
    let out = res.try_send("hello");
    assert_eq!(
        out.head,
        "HTTP/1.1 200 Ok\r\nContent-Type: text/plain; charset=utf-8\r\nContent-Length: 5\r\n\r\n"
    );
    assert_eq!(text_of(&out), Some("hello"));
    assert!(out.head.contains("Content-Type: text/plain; charset=utf-8"));
    assert!(out.head.contains("Content-Length: 5"));
    assert!(!res.sent());
}

#[test]
fn owned_text_body_is_sent_like_borrowed_text() {
    let mut res = Response::new();
    let out = res.try_send("gr\u{fc}\u{df}e".to_string());
    assert_eq!(res.headers().get("Content-Length"), Some(&"7".to_string()));
    assert_eq!(text_of(&out), Some("gr\u{fc}\u{df}e"));
    assert_eq!("x".to_string().content_length(), "1");
    assert_eq!("".content_length(), "0");
}

#[test]
fn headers_set_before_sending_are_kept() {
    let mut res = Response::new();
    res.content_type(ContentType::Html);
    res.set_header("Content-Length", "99");
    let out = res.try_send("hello");
    assert_eq!(
        out.head,
        "HTTP/1.1 200 Ok\r\nContent-Type: text/html; charset=utf-8\r\nContent-Length: 99\r\n\r\n"
    );
}

#[test]
fn empty_send_forces_length_zero() {
    let mut res = Response::new();
    res.set_header("Content-Length", "12");
    res.set_header("X", "y");
    let out = res.try_send_empty();
    assert_eq!(out.head, "HTTP/1.1 200 Ok\r\nContent-Length: 0\r\nX: y\r\n\r\n");
    assert!(matches!(out.payload, Payload::Empty));
    let out = Response::new().try_send_empty();
    assert_eq!(out.head, "HTTP/1.1 200 Ok\r\nContent-Length: 0\r\n\r\n");
}

#[test]
fn file_body_takes_its_type_from_the_extension() {
    let mut res = Response::new();
    let out = res.try_send(FileBody::new("/srv/data/report.json", Some(1234)));
    assert_eq!(
        out.head,
        "HTTP/1.1 200 Ok\r\nContent-Type: application/json; charset=utf-8\r\nContent-Length: 1234\r\n\r\n"
    );
    assert!(matches!(out.payload, Payload::File(ref path) if path == "/srv/data/report.json"));
}

#[test]
fn file_body_reads_the_extension_of_its_path() {
    assert_eq!(FileBody::new("a/b.json", None).extension(), "json");
    assert_eq!(FileBody::new("archive.tar.gz", None).extension(), "gz");
    assert_eq!(FileBody::new("noext", None).extension(), "");
    assert_eq!(FileBody::new(".hidden", None).extension(), "");
    assert_eq!(FileBody::new("dir.d/file", None).extension(), "");
    assert_eq!(FileBody::new("a/b.json", None).path(), "a/b.json");
    assert_eq!(FileBody::with_extension("x", "png", Some(1)).extension(), "png");
}

fn rule_for_plain_paths(path: &str) -> String {
    let name = match path.rfind('/') {
        Some(i) => &path[i + 1..],
        None => path,
    };
    match name.rfind('.') {
        Some(i) if i > 0 => name[i + 1..].to_string(),
        _ => String::new(),
    }
}

#[test]
fn file_body_follows_the_rule_for_plain_paths() {
    for path in [
        "report.json",
        "/srv/data/report.json",
        "srv/data/report.json",
        "./report.json",
        "../up/report.json",
        "a/b/.json",
        ".json",
        ".hidden.json",
        "name.",
        "a/name.",
        "...",
        "..a",
        "a..b",
        "a.b.c.d",
        "dir.d/file",
        "dir.d/.file",
        "/abs.d/x.y/z",
        "sp ace/fi le.t xt",
        "caf\u{e9}/\u{4e16}.\u{754c}",
        "UPPER.JSON",
        "a/./b.css",
        "a//b.css",
        "x",
        "/x",
    ] {
        assert_eq!(FileBody::new(path, None).extension(), rule_for_plain_paths(path), "for {:?}", path);
    }
    assert_eq!(FileBody::new("/srv/data/report.json", None).extension(), "json");
    assert_eq!(FileBody::new("a/b/.json", None).extension(), "");
    assert_eq!(FileBody::new("a..b", None).extension(), "b");
    assert_eq!(FileBody::new("name.", None).extension(), "");
}

#[test]
fn file_body_keeps_a_type_that_was_set() {
    let mut res = Response::new();
    res.raw_content_type("application/x-custom");
    let out = res.try_send(FileBody::new("report.json", Some(2)));
    assert_eq!(
        out.head,
        "HTTP/1.1 200 Ok\r\nContent-Type: application/x-custom\r\nContent-Length: 2\r\n\r\n"
    );
}

#[test]
fn file_body_of_unknown_size_or_kind() {
    let mut res = Response::new();
    let out = res.try_send(FileBody::new("notes.unknown", None));
    assert_eq!(
        out.head,
        "HTTP/1.1 200 Ok\r\nContent-Type: text/plain; charset=utf-8\r\nContent-Length: 0\r\n\r\n"
    );
    assert_eq!(FileBody::new("a.png", Some(u64::MAX)).content_length(), "18446744073709551615");
}

#[test]
fn every_send_variant_renders_the_default_status() {
    assert!(Response::new().try_send_empty().head.starts_with("HTTP/1.1 200 Ok\r\n"));
    assert!(Response::new().try_send("x").head.starts_with("HTTP/1.1 200 Ok\r\n"));
    assert!(Response::new().try_send("x".to_string()).head.starts_with("HTTP/1.1 200 Ok\r\n"));
    assert!(Response::new()
        .try_send(FileBody::new("a.css", Some(3)))
        .head
        .starts_with("HTTP/1.1 200 Ok\r\n"));
    let mut res = Response::new();
    res.set_header("A", "b");
    res.content_type(ContentType::Png);
    assert!(res.try_send("x").head.starts_with("HTTP/1.1 200 Ok\r\n"));
}

#[test]
fn settling_records_the_flush_and_names_the_failure() {
    let mut res = Response::new();
    assert!(matches!(res.settle(Delivery::WriteFailed), Err(ResponseError::Write)));
    assert!(!res.sent());
    assert!(matches!(res.settle(Delivery::FlushFailed), Err(ResponseError::Flush)));
    assert!(!res.sent());
    assert!(matches!(
        res.settle(Delivery::BodyFailed("disk".to_string())),
        Err(ResponseError::Sendable(why)) if why == "disk"
    ));
    assert!(!res.sent());
    assert!(res.settle(Delivery::Flushed).is_ok());
    assert!(res.sent());
    assert!(res.settle(Delivery::WriteFailed).is_err());
    assert!(res.sent());
}

#[test]
fn response_errors_say_what_went_wrong() {
    assert_eq!(ResponseError::Write.to_string(), "could not write to TcpStream");
    assert_eq!(ResponseError::Flush.to_string(), "could not flush to TcpStream");
    assert_eq!(
        ResponseError::sendable("no such file").to_string(),
        "could not send response: no such file"
    );
}

#[test]
fn best_effort_send_is_done_when_the_flush_went_through() {
    let mut res = Response::new();
    let _ = res.try_send("hello");
    assert!(res.send(Delivery::Flushed).is_none());
    assert!(res.sent());
    assert_eq!(res.status_code(), StatusCode::OK);
}

#[test]
fn best_effort_send_falls_back_to_a_500() {
    let mut res = Response::new();
    res.status(StatusCode::Created);
    let _ = res.try_send("hello");
    let out = res.send(Delivery::BodyFailed("broken".to_string())).unwrap();
    assert_eq!(res.status_code(), StatusCode::InternalServerError);
    assert!(!res.sent());
    assert_eq!(text_of(&out), Some("Internal server error"));
    assert_eq!(
        out.head,
        "HTTP/1.1 500 InternalServerError\r\nContent-Type: text/plain; charset=utf-8\r\nContent-Length: 5\r\n\r\n"
    );
    assert!(res.settle(Delivery::Flushed).is_ok());
    assert!(res.sent());
}

#[test]
fn best_effort_empty_send_falls_back_to_a_500() {
    let mut res = Response::new();
    let _ = res.try_send_empty();
    let out = res.send_empty(Delivery::WriteFailed).unwrap();
    assert_eq!(text_of(&out), Some("Internal server error"));
    assert_eq!(
        out.head,
        "HTTP/1.1 500 InternalServerError\r\nContent-Length: 0\r\nContent-Type: text/plain; charset=utf-8\r\n\r\n"
    );
    assert!(Response::new().send_empty(Delivery::Flushed).is_none());
}

#[test]
fn fallback_on_a_fresh_response_announces_the_text_length() {
    let mut res = Response::new();
    let out = res.send(Delivery::FlushFailed).unwrap();
    assert_eq!(
        out.head,
        "HTTP/1.1 500 InternalServerError\r\nContent-Type: text/plain; charset=utf-8\r\nContent-Length: 21\r\n\r\n"
    );
}

#[test]
fn send_or_runs_the_fallback_only_on_failure() {
    let mut res = Response::new();
    res.send_or(Delivery::Flushed, |r: &mut Response| {
        r.status(StatusCode::BadGateway);
    });
    assert_eq!(res.status_code(), StatusCode::OK);
    assert!(res.sent());
    let mut res = Response::new();
    res.send_or(Delivery::WriteFailed, |r: &mut Response| {
        r.status(StatusCode::BadGateway);
        r.set_header("Retry-After", "1");
    });
    assert_eq!(res.status_code(), StatusCode::BadGateway);
    assert_eq!(res.headers().get("Retry-After"), Some(&"1".to_string()));
    assert!(!res.sent());
}
