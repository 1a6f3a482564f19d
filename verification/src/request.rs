//! Requests: the rules that turn the lines of a request into its parts.
//!
//! The head of a request is read line by line. The first line gives the
//! method and the path, the lines after it give the headers, and a line that
//! holds no more than its terminator ends them. Everything here works on what
//! was already read; reading itself is done elsewhere.

use vstd::prelude::*;
use vstd::string::StringExecFns;
use vstd::utf8::{decode_utf8, valid_utf8};

use crate::decimal::{parse_usize, parse_usize_text};
use crate::string_map::{lookup, put, Entries, StringMap};
use crate::text::{
    chars_of, cut, end_without, pieces, split, split_once, start_without, strip_crlf,
    text_between, text_of, trim_end, trim_start, without_crlf,
};

verus! {

/// The address of the peer that sent a request.
#[derive(Clone, Copy, Debug, PartialEq, Eq, Structural)]
pub enum PeerAddress {
    /// An IPv4 address, its four octets as one number, and a port.
    V4 { octets: u32, port: u16 },
    /// An IPv6 address, its eight segments as one number, with port, flow
    /// information and scope.
    V6 { segments: u128, port: u16, flowinfo: u32, scope_id: u32 },
}

/// Why a request could not be parsed.
#[derive(Debug)]
pub enum RequestError {
    /// The stream could not be read, ended too early, or held a line that is
    /// not UTF-8.
    Read,
    /// The `Content-Length` header is not a number; the header's value is kept.
    ContentLength(String),
    /// The body is not UTF-8.
    Utf8,
}

/// The model of a `RequestError`.
pub enum Fault {
    Read,
    ContentLength(Seq<char>),
    Utf8,
}

impl View for RequestError {
    type V = Fault;

    open spec fn view(&self) -> Fault {
        match self {
            RequestError::Read => Fault::Read,
            RequestError::ContentLength(value) => Fault::ContentLength(value@),
            RequestError::Utf8 => Fault::Utf8,
        }
    }
}

impl RequestError {
    /// What the error says, as text.
    pub open spec fn message(self) -> Seq<char> {
        match self {
            RequestError::Read => "could not read from TcpStream"@,
            RequestError::ContentLength(value) => "invalid Content-Length header `"@ + value@
                + "`"@,
            RequestError::Utf8 => "request body is non utf-8"@,
        }
    }

    /// What the error says, as text.
    pub fn to_string(&self) -> (s: String)
        ensures
            s@ == self.message(),
    {
        match self {
            RequestError::Read => "could not read from TcpStream".to_owned(),
            RequestError::ContentLength(value) => {
                let mut s = "invalid Content-Length header `".to_owned();
                s.append(value.as_str());
                s.append("`");
                s
            },
            RequestError::Utf8 => "request body is non utf-8".to_owned(),
        }
    }
}

/// The model of a request: what was parsed, without the peer's address.
pub struct RequestModel {
    pub method: Seq<char>,
    pub path: Seq<char>,
    pub headers: Entries,
    pub cookies: Entries,
    pub body: Seq<char>,
}

/// A request as it was received.
#[derive(Debug)]
pub struct Request {
    /// The method, as the first line gave it; `GET` where it gave none.
    pub method: String,
    /// The path: one leading `/`, no trailing `/`, no query.
    pub path: String,
    /// The headers; of two with one name the later one stands.
    pub headers: StringMap,
    /// The cookies that the `Cookie` header named.
    pub cookies: StringMap,
    /// The body, empty where no `Content-Length` header came.
    pub body: String,
    /// The address of the peer.
    pub address: PeerAddress,
}

impl View for Request {
    type V = RequestModel;

    open spec fn view(&self) -> RequestModel {
        RequestModel {
            method: self.method@,
            path: self.path@,
            headers: self.headers.entries(),
            cookies: self.cookies.entries(),
            body: self.body@,
        }
    }
}

/// A path brought to its normal form: the slashes at both ends are dropped
/// and one slash is put in front.
pub open spec fn normalize(path: Seq<char>) -> Seq<char> {
    seq!['/'] + trim_start(trim_end(path, '/'), '/')
}

/// The method that a request line names: what stands before its first
/// space, or `GET` where nothing stands there, as in an empty line.
pub open spec fn request_method(line: Seq<char>) -> Seq<char> {
    let tokens = split(line, seq![' ']);
    if tokens.len() > 0 && tokens[0].len() > 0 {
        tokens[0]
    } else {
        "GET"@
    }
}

/// The target that a request line names: what stands between its first and
/// its second space, or `/` where the line has no space.
pub open spec fn request_target(line: Seq<char>) -> Seq<char> {
    let tokens = split(line, seq![' ']);
    if tokens.len() > 1 {
        tokens[1]
    } else {
        seq!['/']
    }
}

/// The path that a request line names: its target up to the first `?`, in
/// normal form.
pub open spec fn request_path(line: Seq<char>) -> Seq<char> {
    normalize(split(request_target(line), seq!['?'])[0])
}

/// The text of a line as it was read: `None` where the bytes are not UTF-8,
/// else their characters without the carriage return and line feed pairs.
pub open spec fn decoded_line(raw: Seq<u8>) -> Option<Seq<char>> {
    if valid_utf8(raw) {
        Some(without_crlf(decode_utf8(raw)))
    } else {
        None
    }
}

/// The headers after one more line: a line with `": "` in it writes what
/// follows the first `": "` under what stands before it; any other line
/// changes nothing.
pub open spec fn with_header_line(headers: Entries, line: Seq<char>) -> Entries {
    match split_once(line, seq![':', ' ']) {
        Some((name, value)) => put(headers, name, value),
        None => headers,
    }
}

/// The cookies after one more piece of a `Cookie` header: a piece with `=` in
/// it writes what follows the first `=` under what stands before it; any
/// other piece changes nothing.
pub open spec fn with_cookie(cookies: Entries, piece: Seq<char>) -> Entries {
    match split_once(piece, seq!['=']) {
        Some((name, value)) => put(cookies, name, value),
        None => cookies,
    }
}

/// The cookies that the first `n` of `pieces` give.
pub open spec fn cookies_after(pieces: Seq<Seq<char>>, n: int) -> Entries
    decreases n,
{
    if n <= 0 {
        Seq::empty()
    } else {
        with_cookie(cookies_after(pieces, n - 1), pieces[n - 1])
    }
}

/// The cookies that the value of a `Cookie` header names: its pieces between
/// `"; "`, taken from left to right.
pub open spec fn cookie_entries(value: Seq<char>) -> Entries {
    let pieces = split(value, seq![';', ' ']);
    cookies_after(pieces, pieces.len() as int)
}

/// The cookies of a request with these headers.
pub open spec fn request_cookies(headers: Entries) -> Entries {
    match lookup(headers, "Cookie"@) {
        Some(value) => cookie_entries(value),
        None => Seq::empty(),
    }
}

/// The length of the body that the headers announce: `None` where no
/// `Content-Length` header stands, the fault where its value is no number.
pub open spec fn announced_length(headers: Entries) -> Result<Option<usize>, Fault> {
    match lookup(headers, "Content-Length"@) {
        None => Ok(None),
        Some(value) => match parse_usize(value) {
            Some(n) => Ok(Some(n)),
            None => Err(Fault::ContentLength(value)),
        },
    }
}

/// Splitting always gives at least one piece.
pub proof fn lemma_split_nonempty(s: Seq<char>, pat: Seq<char>)
    ensures
        split(s, pat).len() >= 1,
{
}

/// `String::from_utf8` of the standard library: the bytes become a string
/// exactly when they are valid UTF-8, and the string then holds the characters
/// that they encode.
#[verifier::external_body]
pub(crate) fn utf8_text(bytes: Vec<u8>) -> (r: Option<String>)
    ensures
        match r {
            Some(s) => valid_utf8(bytes@) && s@ == decode_utf8(bytes@),
            None => !valid_utf8(bytes@),
        },
{
    String::from_utf8(bytes).ok()
}

fn pattern_of(c: char) -> (r: Vec<char>)
    ensures
        r@ == seq![c],
{
    let mut r: Vec<char> = Vec::new();
    r.push(c);
    assert(r@ == seq![c]);
    r
}

fn pattern_of_two(a: char, b: char) -> (r: Vec<char>)
    ensures
        r@ == seq![a, b],
{
    let mut r: Vec<char> = Vec::new();
    r.push(a);
    r.push(b);
    assert(r@ == seq![a, b]);
    r
}

/// The text of a line as it was read.
pub fn decode_line(raw: Vec<u8>) -> (r: Option<String>)
    ensures
        match r {
            Some(line) => decoded_line(raw@) == Some(line@),
            None => decoded_line(raw@) is None,
        },
{
    match utf8_text(raw) {
        Some(text) => {
            let chars = chars_of(text.as_str());
            let kept = strip_crlf(chars.as_slice());
            Some(text_of(kept.as_slice()))
        },
        None => None,
    }
}

/// The path in normal form.
pub fn normalize_path(path: &[char]) -> (r: String)
    ensures
        r@ == normalize(path@),
{
    let end = end_without(path, '/');
    let start = start_without(path, end, '/');
    let mut r = "/".to_owned();
    proof {
        reveal_strlit("/");
        assert(r@ == seq!['/']);
    }
    let inner = text_between(path, start, end);
    r.append(inner.as_str());
    r
}

/// The method and the path that a request line names.
pub fn parse_request_line(line: &str) -> (r: (String, String))
    ensures
        r.0@ == request_method(line@),
        r.1@ == request_path(line@),
{
    let chars = chars_of(line);
    let space = pattern_of(' ');
    let mark = pattern_of('?');
    let tokens = pieces(chars.as_slice(), space.as_slice());
    proof {
        lemma_split_nonempty(line@, seq![' ']);
    }
    let method = if tokens.len() > 0 && tokens[0].len() > 0 {
        text_of(tokens[0].as_slice())
    } else {
        "GET".to_owned()
    };
    let slash = pattern_of('/');
    let target: &Vec<char> = if tokens.len() > 1 {
        &tokens[1]
    } else {
        &slash
    };
    assert(target@ == request_target(line@));
    let parts = pieces(target.as_slice(), mark.as_slice());
    proof {
        lemma_split_nonempty(target@, seq!['?']);
    }
    let path = normalize_path(parts[0].as_slice());
    (method, path)
}

/// Takes one header line into the headers.
pub fn absorb_header_line(headers: &mut StringMap, line: &str)
    ensures
        final(headers).entries() == with_header_line(old(headers).entries(), line@),
{
    let chars = chars_of(line);
    let colon = pattern_of_two(':', ' ');
    match cut(chars.as_slice(), colon.as_slice()) {
        Some((name, value)) => {
            headers.insert(name, value);
        },
        None => {},
    }
}

/// The cookies that the value of a `Cookie` header names.
pub fn parse_cookies(value: &str) -> (cookies: StringMap)
    ensures
        cookies.entries() == cookie_entries(value@),
{
    let chars = chars_of(value);
    let between = pattern_of_two(';', ' ');
    let equals = pattern_of('=');
    let parts = pieces(chars.as_slice(), between.as_slice());
    let ghost model = split(value@, seq![';', ' ']);
    let mut cookies = StringMap::new();
    let mut i: usize = 0;
    while i < parts.len()
        invariant
            i <= parts@.len(),
            parts@.len() == model.len(),
            forall|k: int| 0 <= k < parts@.len() ==> (#[trigger] parts@[k])@ == model[k],
            equals@ == seq!['='],
            cookies.entries() == cookies_after(model, i as int),
        decreases parts@.len() - i,
    {
        match cut(parts[i].as_slice(), equals.as_slice()) {
            Some((name, content)) => {
                cookies.insert(name, content);
            },
            None => {},
        }
        i = i + 1;
    }
    cookies
}

/// The cookies of a request with these headers.
pub fn cookies_of(headers: &StringMap) -> (cookies: StringMap)
    ensures
        cookies.entries() == request_cookies(headers.entries()),
{
    match headers.get("Cookie") {
        Some(value) => parse_cookies(value.as_str()),
        None => StringMap::new(),
    }
}

/// The length of the body that the headers announce.
pub fn body_length(headers: &StringMap) -> (r: Result<Option<usize>, RequestError>)
    ensures
        match r {
            Ok(n) => announced_length(headers.entries()) == Ok::<Option<usize>, Fault>(n),
            Err(e) => announced_length(headers.entries()) == Err::<Option<usize>, Fault>(e@),
        },
{
    match headers.get("Content-Length") {
        None => Ok(None),
        Some(value) => {
            let chars = chars_of(value.as_str());
            match parse_usize_text(chars.as_slice()) {
                Some(n) => Ok(Some(n)),
                None => Err(RequestError::ContentLength(value.clone())),
            }
        },
    }
}

/// The text of a body of `announced` bytes, as it was read: the read fault
/// where the bytes are not as many as were announced, the UTF-8 fault where
/// they are no UTF-8.
pub open spec fn body_text(raw: Seq<u8>, announced: usize) -> Result<Seq<char>, Fault> {
    if raw.len() != announced {
        Err(Fault::Read)
    } else if !valid_utf8(raw) {
        Err(Fault::Utf8)
    } else {
        Ok(decode_utf8(raw))
    }
}

/// The text of a body as it was read.
pub fn decode_body(raw: Vec<u8>, announced: usize) -> (r: Result<String, RequestError>)
    ensures
        match r {
            Ok(body) => body_text(raw@, announced) == Ok::<Seq<char>, Fault>(body@),
            Err(e) => body_text(raw@, announced) == Err::<Seq<char>, Fault>(e@),
        },
{
    if raw.len() != announced {
        return Err(RequestError::Read);
    }
    match utf8_text(raw) {
        Some(body) => Ok(body),
        None => Err(RequestError::Utf8),
    }
}

impl Request {
    /// The value of the header `key`, if the request has it.
    pub fn header(&self, key: &str) -> (r: Option<String>)
        ensures
            match r {
                Some(value) => lookup(self.headers.entries(), key@) == Some(value@),
                None => lookup(self.headers.entries(), key@) is None,
            },
    {
        match self.headers.get(key) {
            Some(value) => Some(value.clone()),
            None => None,
        }
    }

    /// The value of the cookie `name`, if the request has it.
    pub fn cookie(&self, name: &str) -> (r: Option<&String>)
        ensures
            match r {
                Some(value) => lookup(self.cookies.entries(), name@) == Some(value@),
                None => lookup(self.cookies.entries(), name@) is None,
            },
    {
        self.cookies.get(name)
    }

    /// The method and the path, for matching a request against routes.
    pub fn matcher(&self) -> (r: (&str, &str))
        ensures
            r.0@ == self.method@,
            r.1@ == self.path@,
    {
        (self.method.as_str(), self.path.as_str())
    }
}

} // verus!
