use http_engine::parser::{bytes_between, line_length, Demand, Progress, RequestParser};
use http_engine::request::{
    absorb_header_line, body_length, cookies_of, decode_body, decode_line, normalize_path,
    parse_cookies, parse_request_line, PeerAddress, Request, RequestError,
};
use http_engine::string_map::StringMap;

fn peer() -> PeerAddress {
    PeerAddress::V4 { octets: 0x7f00_0001, port: 4000 }
}

fn parse(bytes: &[u8]) -> Result<Request, RequestError> {
    Request::parse(bytes, peer())
}

fn go_on(progress: Progress) -> RequestParser {
    match progress {
        Progress::Continue(parser) => parser,
        other => panic!("the parser should go on, but gave {:?}", other),
    }
}

#[test]
fn request_line_gives_method_and_path() {
    let req = parse(b"GET /a/b/?x=1&y=2 HTTP/1.1\r\n\r\n").unwrap();
    assert_eq!(req.method, "GET");
    assert_eq!(req.path, "/a/b");
    assert_eq!(req.body, "");
    assert_eq!(req.address, peer());
    assert_eq!(req.matcher(), ("GET", "/a/b"));
    assert!(req.headers.is_empty());
    assert!(req.cookies.is_empty());
}

#[test]
fn request_line_for_many_methods_and_paths() {
    for (m, p, q, expected) in [
        ("GET", "/", "", "/"),
        ("POST", "/hooks", "a=b", "/hooks"),
        ("DELETE", "v1/items/", "id=3?x", "/v1/items"),
        ("PATCH", "//double//", "q", "/double"),
        ("X-CUSTOM", "", "only=query", "/"),
        ("", "/nomethod", "q", "/nomethod"),
        ("get", "/caf\u{e9}/", "", "/caf\u{e9}"),
    ] {
        let line = format!("{} {}?{} HTTP/1.1", m, p, q);
        let (method, path) = parse_request_line(&line);
        assert_eq!(method, if m.is_empty() { "GET" } else { m });
        assert_eq!(path, expected);
    }
}

#[test]
fn path_is_brought_to_normal_form() {
    for (given, expected) in [
        ("", "/"),
        ("/", "/"),
        ("///", "/"),
        ("a", "/a"),
        ("/a/", "/a"),
        ("a/b//", "/a/b"),
        ("//a//b", "/a//b"),
    ] {
        let chars: Vec<char> = given.chars().collect();
        assert_eq!(normalize_path(&chars), expected);
    }
}

#[test]
fn request_line_without_target_has_the_root_path() {
    assert_eq!(parse_request_line("PUT"), ("PUT".to_string(), "/".to_string()));
    assert_eq!(parse_request_line("PUT  HTTP/1.1"), ("PUT".to_string(), "/".to_string()));
    assert_eq!(parse_request_line("PUT /x"), ("PUT".to_string(), "/x".to_string()));
}

#[test]
fn request_line_without_method_has_the_method_get() {
    assert_eq!(parse_request_line(""), ("GET".to_string(), "/".to_string()));
    assert_eq!(parse_request_line(" /x"), ("GET".to_string(), "/x".to_string()));
    assert_eq!(parse_request_line(" /x HTTP/1.1"), ("GET".to_string(), "/x".to_string()));
    assert_eq!(parse_request_line("  "), ("GET".to_string(), "/".to_string()));
    let req = parse(b"\r\n\r\n").unwrap();
    assert_eq!(req.method, "GET");
    assert_eq!(req.path, "/");
    assert!(req.headers.is_empty());
    assert!(req.cookies.is_empty());
    assert_eq!(req.body, "");
    let req = parse(b"\r\nHost: h\r\n\r\n").unwrap();
    assert_eq!(req.method, "GET");
    assert_eq!(req.header("Host"), Some("h".to_string()));
}

#[test]
fn an_empty_stream_gives_the_default_request() {
    let req = parse(b"").unwrap();
    assert_eq!(req.method, "GET");
    assert_eq!(req.path, "/");
    assert_eq!(req.headers.len(), 0);
    assert_eq!(req.body, "");
}

#[test]
fn well_formed_header_lines_each_give_an_entry() {
    let req = parse(
        b"GET / HTTP/1.1\r\nHost: example.org\r\nAccept: */*\r\nX-Trace: a: b\r\n\r\nignored",
    )
    .unwrap();
    assert_eq!(req.headers.len(), 3);
    assert_eq!(req.header("Host"), Some("example.org".to_string()));
    assert_eq!(req.header("Accept"), Some("*/*".to_string()));
    assert_eq!(req.header("X-Trace"), Some("a: b".to_string()));
    assert_eq!(req.header("host"), None);
    assert_eq!(req.headers.entry(0), Some((&"Host".to_string(), &"example.org".to_string())));
    assert_eq!(req.body, "");
}

#[test]
fn duplicate_headers_collapse_to_the_last_value() {
    let req = parse(b"GET / HTTP/1.1\r\nA: 1\r\nB: 2\r\nA: 3\r\n\r\n").unwrap();
    assert_eq!(req.headers.len(), 2);
    assert_eq!(req.header("A"), Some("3".to_string()));
    assert_eq!(req.header("B"), Some("2".to_string()));
}

#[test]
fn header_parsing_stops_at_the_first_blank_line() {
    let req = parse(b"GET / HTTP/1.1\r\nA: 1\r\n\r\nB: 2\r\n\r\n").unwrap();
    assert_eq!(req.headers.len(), 1);
    assert_eq!(req.header("B"), None);
}

#[test]
fn lines_that_are_no_headers_are_passed_over() {
    let req = parse(b"GET / HTTP/1.1\r\nno colon here\r\nA:1\r\nB: 2\r\n\r\n").unwrap();
    assert_eq!(req.headers.len(), 1);
    assert_eq!(req.header("B"), Some("2".to_string()));
}

#[test]
fn a_line_of_two_bytes_ends_the_headers() {
    let req = parse(b"GET / HTTP/1.1\r\nA: 1\r\nx\nB: 2\r\n\r\n").unwrap();
    assert_eq!(req.headers.len(), 1);
    let req = parse(b"GET / HTTP/1.1\nA: 1\n\nB: 2\n").unwrap();
    assert_eq!(req.headers.len(), 1);
    assert_eq!(req.header("A"), Some("1\n".to_string()));
}

#[test]
fn headers_may_end_with_the_stream() {
    let req = parse(b"GET /x HTTP/1.1\r\nA: 1\r\n").unwrap();
    assert_eq!(req.path, "/x");
    assert_eq!(req.header("A"), Some("1".to_string()));
}

#[test]
fn cookie_header_drops_malformed_pieces() {
    let req = parse(b"GET / HTTP/1.1\r\nCookie: a=1; b=2; malformed; c=3\r\n\r\n").unwrap();
    assert_eq!(req.cookies.len(), 3);
    assert_eq!(req.cookie("a"), Some(&"1".to_string()));
    assert_eq!(req.cookie("b"), Some(&"2".to_string()));
    assert_eq!(req.cookie("c"), Some(&"3".to_string()));
    assert_eq!(req.cookie("malformed"), None);
}

#[test]
fn cookies_split_on_the_first_equals_sign() {
    let cookies = parse_cookies("t=a=b; empty=; =v; t=last;x=1");
    assert_eq!(cookies.len(), 3);
    assert_eq!(cookies.get("t"), Some(&"last;x=1".to_string()));
    assert_eq!(cookies.get("empty"), Some(&"".to_string()));
    assert_eq!(cookies.get(""), Some(&"v".to_string()));
    assert_eq!(parse_cookies("").len(), 0);
}

#[test]
fn cookies_come_from_the_cookie_header_only() {
    let mut headers = StringMap::new();
    absorb_header_line(&mut headers, "cookie: a=1");
    assert_eq!(cookies_of(&headers).len(), 0);
    absorb_header_line(&mut headers, "Cookie: a=1");
    assert_eq!(cookies_of(&headers).get("a"), Some(&"1".to_string()));
}

#[test]
fn body_of_announced_length_is_read() {
    let req = parse(b"POST /p HTTP/1.1\r\nContent-Length: 5\r\n\r\nhello").unwrap();
    assert_eq!(req.body, "hello");
    assert_eq!(req.header("Content-Length"), Some("5".to_string()));
}

#[test]
fn body_is_cut_at_the_announced_length() {
    let req = parse(b"POST /p HTTP/1.1\r\nContent-Length: 5\r\n\r\nhello, world").unwrap();
    assert_eq!(req.body, "hello");
    let req = parse(b"POST /p HTTP/1.1\r\nContent-Length: 0\r\n\r\nhello").unwrap();
    assert_eq!(req.body, "");
    let req = parse(b"POST /p HTTP/1.1\r\nContent-Length: +3\r\n\r\nabcdef").unwrap();
    assert_eq!(req.body, "abc");
}

#[test]
fn body_without_announced_length_is_not_read() {
    let req = parse(b"POST /p HTTP/1.1\r\nHost: h\r\n\r\nhello").unwrap();
    assert_eq!(req.body, "");
}

#[test]
fn body_may_hold_any_utf8() {
    let text = "gr\u{fc}\u{df}e \u{4e16}\u{754c}\r\n\r\n";
    let mut bytes = format!("POST / HTTP/1.1\r\nContent-Length: {}\r\n\r\n", text.len()).into_bytes();
    bytes.extend_from_slice(text.as_bytes());
    let req = parse(&bytes).unwrap();
    assert_eq!(req.body, text);
}

#[test]
fn short_body_is_a_read_fault() {
    let r = parse(b"POST /p HTTP/1.1\r\nContent-Length: 5\r\n\r\nhel");
    assert!(matches!(r, Err(RequestError::Read)));
}

#[test]
fn content_length_that_is_no_number_is_kept_in_the_error() {
    for bad in ["abc", "-1", "5 ", "", "1.5", "99999999999999999999999"] {
        let bytes = format!("POST / HTTP/1.1\r\nContent-Length: {}\r\n\r\nhello", bad);
        match parse(bytes.as_bytes()) {
            Err(RequestError::ContentLength(value)) => assert_eq!(value, bad),
            other => panic!("unexpected {:?}", other),
        }
    }
}

#[test]
fn body_that_is_no_utf8_is_a_utf8_fault() {
    let mut bytes = b"POST / HTTP/1.1\r\nContent-Length: 2\r\n\r\n".to_vec();
    bytes.extend_from_slice(&[0xc3, 0x28]);
    assert!(matches!(parse(&bytes), Err(RequestError::Utf8)));
}

#[test]
fn head_that_is_no_utf8_is_a_read_fault() {
    assert!(matches!(parse(&[0xff, 0xfe, b'\n']), Err(RequestError::Read)));
    let mut bytes = b"GET / HTTP/1.1\r\nA: ".to_vec();
    bytes.extend_from_slice(&[0xc3, 0x28, b'\r', b'\n', b'\r', b'\n']);
    assert!(matches!(parse(&bytes), Err(RequestError::Read)));
    let mut bytes = b"GET / HTTP/1.1\r\n".to_vec();
    bytes.extend_from_slice(&[0xff, b'\n']);
    assert!(matches!(parse(&bytes), Err(RequestError::Read)));
}

#[test]
fn request_errors_say_what_went_wrong() {
    assert_eq!(RequestError::Read.to_string(), "could not read from TcpStream");
    assert_eq!(
        RequestError::ContentLength("abc".to_string()).to_string(),
        "invalid Content-Length header `abc`"
    );
    assert_eq!(RequestError::Utf8.to_string(), "request body is non utf-8");
}

#[test]
fn lines_are_decoded_and_lose_their_terminator() {
    assert_eq!(decode_line(b"Host: h\r\n".to_vec()), Some("Host: h".to_string()));
    assert_eq!(decode_line(b"bare\n".to_vec()), Some("bare\n".to_string()));
    assert_eq!(decode_line("caf\u{e9}\r\n".as_bytes().to_vec()), Some("caf\u{e9}".to_string()));
    assert_eq!(decode_line(vec![b'a', 0x80]), None);
    assert_eq!(decode_line(vec![0xed, 0xa0, 0x80]), None);
    assert_eq!(decode_line(vec![0xc0, 0x80]), None);
    assert_eq!(decode_line(vec![]), Some(String::new()));
}

#[test]
fn bodies_are_decoded_when_they_are_complete() {
    assert_eq!(decode_body("h\u{e9}".as_bytes().to_vec(), 3).unwrap(), "h\u{e9}");
    assert!(matches!(decode_body(b"abc".to_vec(), 4), Err(RequestError::Read)));
    assert!(matches!(decode_body(b"abc".to_vec(), 2), Err(RequestError::Read)));
    assert!(matches!(decode_body(vec![0xff], 1), Err(RequestError::Utf8)));
    assert_eq!(decode_body(vec![], 0).unwrap(), "");
}

#[test]
fn announced_length_is_read_from_the_headers() {
    let mut headers = StringMap::new();
    assert_eq!(body_length(&headers).unwrap(), None);
    headers.insert("Content-Length".to_string(), "12".to_string());
    assert_eq!(body_length(&headers).unwrap(), Some(12));
    headers.insert("Content-Length".to_string(), "twelve".to_string());
    assert!(matches!(body_length(&headers), Err(RequestError::ContentLength(v)) if v == "twelve"));
}

#[test]
fn lines_are_found_in_a_buffer() {
    let bytes = b"ab\ncd\n\nlast";
    assert_eq!(line_length(bytes, 0), 3);
    assert_eq!(line_length(bytes, 1), 2);
    assert_eq!(line_length(bytes, 3), 3);
    assert_eq!(line_length(bytes, 6), 1);
    assert_eq!(line_length(bytes, 7), 4);
    assert_eq!(line_length(bytes, 11), 0);
    assert_eq!(bytes_between(bytes, 3, 6), b"cd\n".to_vec());
}

#[test]
fn parser_steps_through_a_request() {
    let parser = RequestParser::new(peer());
    assert_eq!(parser.awaiting(), Demand::Line);
    let parser = go_on(parser.advance(Some(b"PUT /x?y HTTP/1.1\r\n".to_vec())));
    assert_eq!(parser.awaiting(), Demand::Line);
    let parser = go_on(parser.advance(Some(b"Content-Length: 2\r\n".to_vec())));
    let parser = go_on(parser.advance(Some(b"Cookie: k=v\r\n".to_vec())));
    let parser = go_on(parser.advance(Some(b"\r\n".to_vec())));
    assert_eq!(parser.awaiting(), Demand::Exact(2));
    match parser.advance(Some(b"ok".to_vec())) {
        Progress::Complete(req) => {
            assert_eq!(req.method, "PUT");
            assert_eq!(req.path, "/x");
            assert_eq!(req.body, "ok");
            assert_eq!(req.cookie("k"), Some(&"v".to_string()));
            assert_eq!(req.address, peer());
        }
        other => panic!("unexpected {:?}", other),
    }
}

#[test]
fn parser_completes_without_body_when_none_is_announced() {
    let parser = go_on(RequestParser::new(peer()).advance(Some(b"GET / HTTP/1.1\r\n".to_vec())));
    match parser.advance(Some(Vec::new())) {
        Progress::Complete(req) => {
            assert_eq!(req.method, "GET");
            assert_eq!(req.body, "");
        }
        other => panic!("unexpected {:?}", other),
    }
}

#[test]
fn parser_fails_when_a_read_fails() {
    assert!(matches!(
        RequestParser::new(peer()).advance(None),
        Progress::Failed(RequestError::Read)
    ));
    let parser = go_on(RequestParser::new(peer()).advance(Some(b"GET / HTTP/1.1\r\n".to_vec())));
    assert!(matches!(parser.advance(None), Progress::Failed(RequestError::Read)));
    let parser = go_on(RequestParser::new(peer()).advance(Some(b"GET / HTTP/1.1\r\n".to_vec())));
    assert!(matches!(parser.advance(Some(vec![0xff, b'\n'])), Progress::Failed(RequestError::Read)));
}

#[test]
fn parser_fails_on_a_body_of_the_wrong_length_or_encoding() {
    let waiting = || {
        let parser = go_on(RequestParser::new(peer()).advance(Some(b"POST / HTTP/1.1\r\n".to_vec())));
        let parser = go_on(parser.advance(Some(b"Content-Length: 3\r\n".to_vec())));
        go_on(parser.advance(Some(b"\r\n".to_vec())))
    };
    assert!(matches!(waiting().advance(Some(b"ab".to_vec())), Progress::Failed(RequestError::Read)));
    assert!(matches!(waiting().advance(None), Progress::Failed(RequestError::Read)));
    assert!(matches!(
        waiting().advance(Some(vec![b'a', 0xff, b'b'])),
        Progress::Failed(RequestError::Utf8)
    ));
    let parser = go_on(RequestParser::new(peer()).advance(Some(b"POST / HTTP/1.1\r\n".to_vec())));
    let parser = go_on(parser.advance(Some(b"Content-Length: x\r\n".to_vec())));
    assert!(matches!(
        parser.advance(Some(b"\r\n".to_vec())),
        Progress::Failed(RequestError::ContentLength(v)) if v == "x"
    ));
}

#[test]
fn parser_and_parse_agree_on_a_stream() {
    let streams: Vec<&[u8]> = vec![
        b"GET /a/?q HTTP/1.1\r\nHost: h\r\nCookie: a=1; b\r\n\r\n",
        b"POST / HTTP/1.1\r\nContent-Length: 4\r\n\r\nbody and more",
        b"POST / HTTP/1.1\r\nContent-Length: 9\r\n\r\nshort",
        b"POST / HTTP/1.1\nContent-Length: 1\n\nx",
        b"",
        b"\xff\n",
    ];
    for stream in streams {
        let mut at = 0;
        let mut parser = RequestParser::new(peer());
        let stepped = loop {
            let input = match parser.awaiting() {
                Demand::Line => {
                    let n = line_length(stream, at);
                    at += n;
                    Some(stream[at - n..at].to_vec())
                }
                Demand::Exact(n) => {
                    if stream.len() - at < n {
                        None
                    } else {
                        at += n;
                        Some(stream[at - n..at].to_vec())
                    }
                }
            };
            match parser.advance(input) {
                Progress::Continue(next) => parser = next,
                Progress::Complete(req) => break Ok(req),
                Progress::Failed(e) => break Err(e),
            }
        };
        match (stepped, parse(stream)) {
            (Ok(a), Ok(b)) => {
                assert_eq!((a.method, a.path, a.body), (b.method, b.path, b.body));
                assert_eq!(a.headers.len(), b.headers.len());
                assert_eq!(a.cookies.len(), b.cookies.len());
            }
            (Err(a), Err(b)) => assert_eq!(a.to_string(), b.to_string()),
            (a, b) => panic!("the parser gave {:?}, parse gave {:?}", a, b),
        }
    }
}
