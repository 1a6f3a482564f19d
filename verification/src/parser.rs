//! Parsing a request out of a stream of bytes.
//!
//! The parser never reads. It says what it needs next, a line or a run of
//! bytes of a given length, and is handed what the read gave. `Request::parse`
//! does the same on bytes that are all there already.

use vstd::prelude::*;

use crate::request::{
    absorb_header_line, announced_length, body_length, body_text, cookies_of, decode_body,
    decode_line, decoded_line, parse_request_line, request_cookies, request_method, request_path,
    with_header_line, Fault, PeerAddress, Request, RequestError, RequestModel,
};
use crate::string_map::{Entries, StringMap};

verus! {

/// How far a parser has come.
#[derive(Clone, Copy, Debug, PartialEq, Eq, Structural)]
pub enum Stage {
    /// Nothing was read yet: the request line comes next.
    RequestLine,
    /// The request line was read: a header line, or the line that ends the
    /// headers, comes next.
    Headers,
    /// The headers were read and announced a body of this many bytes.
    Body(usize),
}

/// What a parser needs to be handed next.
#[derive(Clone, Copy, Debug, PartialEq, Eq, Structural)]
pub enum Demand {
    /// One line: the bytes up to and with the next line feed, or up to the
    /// end of the stream where no line feed comes.
    Line,
    /// Exactly this many bytes.
    Exact(usize),
}

/// The model of a parser.
pub struct ParserModel {
    pub stage: Stage,
    pub method: Seq<char>,
    pub path: Seq<char>,
    pub headers: Entries,
}

/// The model of what one step of a parser gives.
pub enum StepModel {
    /// The parser goes on and needs more.
    Continue(ParserModel),
    /// The request is complete.
    Complete(RequestModel),
    /// The request cannot be parsed.
    Failed(Fault),
}

/// What a parser in this stage needs next.
pub open spec fn demand_of(stage: Stage) -> Demand {
    match stage {
        Stage::RequestLine => Demand::Line,
        Stage::Headers => Demand::Line,
        Stage::Body(n) => Demand::Exact(n),
    }
}

/// A parser that has read nothing.
pub open spec fn initial() -> ParserModel {
    ParserModel {
        stage: Stage::RequestLine,
        method: Seq::empty(),
        path: Seq::empty(),
        headers: Seq::empty(),
    }
}

/// The request that a parser has gathered, with this body.
pub open spec fn gathered(p: ParserModel, body: Seq<char>) -> RequestModel {
    RequestModel {
        method: p.method,
        path: p.path,
        headers: p.headers,
        cookies: request_cookies(p.headers),
        body: body,
    }
}

/// What follows the line that ends the headers: the request without a body
/// where no length was announced, the wait for the body where one was, the
/// fault where the announced length is no number.
pub open spec fn after_headers(p: ParserModel) -> StepModel {
    match announced_length(p.headers) {
        Err(fault) => StepModel::Failed(fault),
        Ok(None) => StepModel::Complete(gathered(p, Seq::empty())),
        Ok(Some(n)) => StepModel::Continue(ParserModel { stage: Stage::Body(n), ..p }),
    }
}

/// One step of a parser: what it makes of what the read gave, `None` standing
/// for a read that failed.
pub open spec fn step(p: ParserModel, input: Option<Seq<u8>>) -> StepModel {
    match input {
        None => StepModel::Failed(Fault::Read),
        Some(raw) => match p.stage {
            Stage::RequestLine => match decoded_line(raw) {
                None => StepModel::Failed(Fault::Read),
                Some(line) => StepModel::Continue(
                    ParserModel {
                        stage: Stage::Headers,
                        method: request_method(line),
                        path: request_path(line),
                        headers: p.headers,
                    },
                ),
            },
            Stage::Headers => match decoded_line(raw) {
                None => StepModel::Failed(Fault::Read),
                Some(line) => if raw.len() <= 2 {
                    after_headers(p)
                } else {
                    StepModel::Continue(
                        ParserModel { headers: with_header_line(p.headers, line), ..p },
                    )
                },
            },
            Stage::Body(n) => match body_text(raw, n) {
                Err(fault) => StepModel::Failed(fault),
                Ok(body) => StepModel::Complete(gathered(p, body)),
            },
        },
    }
}

/// The length of the first line of `bytes`, its line feed counted: all of
/// `bytes` where they hold no line feed.
pub open spec fn line_len(bytes: Seq<u8>) -> int
    decreases bytes.len(),
{
    if bytes.len() == 0 {
        0
    } else if bytes[0] == 10 {
        1
    } else {
        1 + line_len(bytes.skip(1))
    }
}

/// A first line is no longer than the bytes, and is empty only where they are.
pub proof fn lemma_line_len(bytes: Seq<u8>)
    ensures
        0 <= line_len(bytes) <= bytes.len(),
        bytes.len() > 0 ==> line_len(bytes) >= 1,
    decreases bytes.len(),
{
    if bytes.len() > 0 && bytes[0] != 10 {
        lemma_line_len(bytes.skip(1));
    }
}

/// The headers that the lines at the start of `bytes` add to `headers`, up to
/// and with the first line of two bytes or less, and the bytes that follow
/// that line. A line that is not UTF-8 is a read fault.
pub open spec fn header_block(headers: Entries, bytes: Seq<u8>) -> Result<
    (Entries, Seq<u8>),
    Fault,
>
    decreases bytes.len(),
{
    let n = line_len(bytes);
    match decoded_line(bytes.take(n)) {
        None => Err(Fault::Read),
        Some(line) => if n <= 2 {
            Ok((headers, bytes.skip(n)))
        } else {
            proof {
                lemma_line_len(bytes);
            }
            header_block(with_header_line(headers, line), bytes.skip(n))
        },
    }
}

/// The body of `announced` bytes at the start of `rest`: a read fault where
/// `rest` is shorter.
pub open spec fn body_at(rest: Seq<u8>, announced: usize) -> Result<Seq<char>, Fault> {
    if rest.len() < announced {
        Err(Fault::Read)
    } else {
        body_text(rest.take(announced as int), announced)
    }
}

/// The request that the head `head` and the bytes after it give: where the
/// headers announce a body, its bytes are taken from the start of `rest`.
pub open spec fn request_after(head: ParserModel, rest: Seq<u8>) -> Result<RequestModel, Fault> {
    match announced_length(head.headers) {
        Err(fault) => Err(fault),
        Ok(None) => Ok(gathered(head, Seq::empty())),
        Ok(Some(n)) => match body_at(rest, n) {
            Err(fault) => Err(fault),
            Ok(body) => Ok(gathered(head, body)),
        },
    }
}

/// The request that a stream of bytes holds: its first line, then its
/// headers, then as many bytes of body as the headers announce.
pub open spec fn parse_stream(bytes: Seq<u8>) -> Result<RequestModel, Fault> {
    let n = line_len(bytes);
    match decoded_line(bytes.take(n)) {
        None => Err(Fault::Read),
        Some(line) => match header_block(Seq::empty(), bytes.skip(n)) {
            Err(fault) => Err(fault),
            Ok((headers, rest)) => request_after(
                ParserModel {
                    stage: Stage::Headers,
                    method: request_method(line),
                    path: request_path(line),
                    headers: headers,
                },
                rest,
            ),
        },
    }
}

/// What a reader over `bytes` hands a parser that asks for `demand`, `None`
/// where the bytes end too early, and the bytes that are left.
pub open spec fn handed(demand: Demand, bytes: Seq<u8>) -> (Option<Seq<u8>>, Seq<u8>) {
    match demand {
        Demand::Line => (Some(bytes.take(line_len(bytes))), bytes.skip(line_len(bytes))),
        Demand::Exact(n) => if bytes.len() < n {
            (None, bytes)
        } else {
            (Some(bytes.take(n as int)), bytes.skip(n as int))
        },
    }
}

/// How many more stages a parser in this stage can go through.
pub open spec fn stages_left(stage: Stage) -> nat {
    match stage {
        Stage::RequestLine => 2,
        Stage::Headers => 1,
        Stage::Body(_) => 0,
    }
}

/// What a parser makes of `bytes` when it is handed, step by step, what it
/// asks for.
pub open spec fn run(p: ParserModel, bytes: Seq<u8>) -> Result<RequestModel, Fault>
    decreases bytes.len(), stages_left(p.stage),
{
    let (input, rest) = handed(demand_of(p.stage), bytes);
    match step(p, input) {
        StepModel::Continue(next) => {
            proof {
                lemma_line_len(bytes);
            }
            run(next, rest)
        },
        StepModel::Complete(request) => Ok(request),
        StepModel::Failed(fault) => Err(fault),
    }
}

/// A parser that has read the request line and is handed the rest of a
/// stream step by step comes to what the headers and the body in that rest
/// give.
pub proof fn lemma_run_headers(p: ParserModel, bytes: Seq<u8>)
    requires
        p.stage == Stage::Headers,
    ensures
        run(p, bytes) == match header_block(p.headers, bytes) {
            Err(fault) => Err(fault),
            Ok((headers, rest)) => request_after(ParserModel { headers: headers, ..p }, rest),
        },
    decreases bytes.len(),
{
    let n = line_len(bytes);
    lemma_line_len(bytes);
    let raw = bytes.take(n);
    match decoded_line(raw) {
        None => {},
        Some(line) => {
            if n <= 2 {
                assert(ParserModel { headers: p.headers, ..p } == p);
                match announced_length(p.headers) {
                    Err(fault) => {},
                    Ok(None) => {},
                    Ok(Some(k)) => {
                        let waiting = ParserModel { stage: Stage::Body(k), ..p };
                        let rest = bytes.skip(n);
                        assert(gathered(waiting, Seq::empty()) == gathered(p, Seq::empty()));
                        assert(run(waiting, rest) == request_after(p, rest)) by {
                            if rest.len() >= k {
                                match body_text(rest.take(k as int), k) {
                                    Err(fault) => {},
                                    Ok(body) => {
                                        assert(gathered(waiting, body) == gathered(p, body));
                                    },
                                }
                            }
                        }
                    },
                }
            } else {
                let next = ParserModel { headers: with_header_line(p.headers, line), ..p };
                lemma_run_headers(next, bytes.skip(n));
            }
        },
    }
}

/// Handing a parser a stream step by step gives the request that the stream
/// holds: the parser and `parse_stream` agree on every stream.
pub proof fn law_run_is_parse(bytes: Seq<u8>)
    ensures
        run(initial(), bytes) == parse_stream(bytes),
{
    let n = line_len(bytes);
    lemma_line_len(bytes);
    match decoded_line(bytes.take(n)) {
        None => {},
        Some(line) => {
            let head = ParserModel {
                stage: Stage::Headers,
                method: request_method(line),
                path: request_path(line),
                headers: Seq::empty(),
            };
            lemma_run_headers(head, bytes.skip(n));
        },
    }
}

/// A parser of one request.
#[derive(Debug)]
pub struct RequestParser {
    stage: Stage,
    method: String,
    path: String,
    headers: StringMap,
    address: PeerAddress,
}

/// What one step of a parser gives.
#[derive(Debug)]
pub enum Progress {
    /// The parser goes on: ask it what it needs, and hand it that.
    Continue(RequestParser),
    /// The request is complete.
    Complete(Request),
    /// The request cannot be parsed.
    Failed(RequestError),
}

impl View for RequestParser {
    type V = ParserModel;

    closed spec fn view(&self) -> ParserModel {
        ParserModel {
            stage: self.stage,
            method: self.method@,
            path: self.path@,
            headers: self.headers.entries(),
        }
    }
}

impl View for Progress {
    type V = StepModel;

    open spec fn view(&self) -> StepModel {
        match self {
            Progress::Continue(parser) => StepModel::Continue(parser@),
            Progress::Complete(request) => StepModel::Complete(request@),
            Progress::Failed(error) => StepModel::Failed(error@),
        }
    }
}

/// The model of what a read gave.
pub open spec fn input_model(input: Option<Vec<u8>>) -> Option<Seq<u8>> {
    match input {
        Some(raw) => Some(raw@),
        None => None,
    }
}

impl Progress {
    /// The peer's address is the one the parser was made with.
    pub open spec fn keeps_peer(self, address: PeerAddress) -> bool {
        match self {
            Progress::Continue(parser) => parser.peer() == address,
            Progress::Complete(request) => request.address == address,
            Progress::Failed(_) => true,
        }
    }
}

impl RequestParser {
    /// The address of the peer whose request is parsed.
    pub closed spec fn peer(&self) -> PeerAddress {
        self.address
    }

    /// A parser that has read nothing, for a request of the peer at `address`.
    pub fn new(address: PeerAddress) -> (parser: RequestParser)
        ensures
            parser@ == initial(),
            parser.peer() == address,
    {
        RequestParser {
            stage: Stage::RequestLine,
            method: String::new(),
            path: String::new(),
            headers: StringMap::new(),
            address,
        }
    }

    /// What the parser needs to be handed next.
    pub fn awaiting(&self) -> (demand: Demand)
        ensures
            demand == demand_of(self@.stage),
    {
        match self.stage {
            Stage::RequestLine => Demand::Line,
            Stage::Headers => Demand::Line,
            Stage::Body(n) => Demand::Exact(n),
        }
    }

    fn finish(self, body: String) -> (request: Request)
        ensures
            request@ == gathered(self@, body@),
            request.address == self.peer(),
    {
        let cookies = cookies_of(&self.headers);
        Request {
            method: self.method,
            path: self.path,
            headers: self.headers,
            cookies,
            body,
            address: self.address,
        }
    }

    fn end_headers(self) -> (progress: Progress)
        ensures
            progress@ == after_headers(self@),
            progress.keeps_peer(self.peer()),
    {
        match body_length(&self.headers) {
            Err(error) => Progress::Failed(error),
            Ok(None) => Progress::Complete(self.finish(String::new())),
            Ok(Some(n)) => Progress::Continue(
                RequestParser {
                    stage: Stage::Body(n),
                    method: self.method,
                    path: self.path,
                    headers: self.headers,
                    address: self.address,
                },
            ),
        }
    }

    /// Takes what the read gave, `None` where the read failed, and says how
    /// the parse goes on.
    pub fn advance(self, input: Option<Vec<u8>>) -> (progress: Progress)
        ensures
            progress@ == step(self@, input_model(input)),
            progress.keeps_peer(self.peer()),
    {
        let raw = match input {
            None => {
                return Progress::Failed(RequestError::Read);
            },
            Some(raw) => raw,
        };
        let length = raw.len();
        match self.stage {
            Stage::RequestLine => match decode_line(raw) {
                None => Progress::Failed(RequestError::Read),
                Some(line) => {
                    let (method, path) = parse_request_line(line.as_str());
                    Progress::Continue(
                        RequestParser {
                            stage: Stage::Headers,
                            method,
                            path,
                            headers: self.headers,
                            address: self.address,
                        },
                    )
                },
            },
            Stage::Headers => match decode_line(raw) {
                None => Progress::Failed(RequestError::Read),
                Some(line) => {
                    if length <= 2 {
                        self.end_headers()
                    } else {
                        let mut parser = self;
                        absorb_header_line(&mut parser.headers, line.as_str());
                        Progress::Continue(parser)
                    }
                },
            },
            Stage::Body(n) => match decode_body(raw, n) {
                Err(error) => Progress::Failed(error),
                Ok(body) => Progress::Complete(self.finish(body)),
            },
        }
    }
}

/// The length of the line that starts at `from`.
pub fn line_length(bytes: &[u8], from: usize) -> (n: usize)
    requires
        from <= bytes@.len(),
    ensures
        n == line_len(bytes@.skip(from as int)),
        from + n <= bytes@.len(),
{
    let len = bytes.len();
    let mut i: usize = from;
    while i < len
        invariant
            len == bytes@.len(),
            from <= i <= len,
            line_len(bytes@.skip(from as int)) == (i - from) + line_len(bytes@.skip(i as int)),
        decreases len - i,
    {
        assert(bytes@.skip(i as int).skip(1) == bytes@.skip(i + 1));
        if bytes[i] == 10 {
            return i - from + 1;
        }
        i = i + 1;
    }
    i - from
}

/// The bytes `bytes[from..to]` as a vector of their own.
pub fn bytes_between(bytes: &[u8], from: usize, to: usize) -> (r: Vec<u8>)
    requires
        from <= to <= bytes@.len(),
    ensures
        r@ == bytes@.subrange(from as int, to as int),
{
    let mut r: Vec<u8> = Vec::new();
    let mut i: usize = from;
    while i < to
        invariant
            from <= i <= to <= bytes@.len(),
            r@ == bytes@.subrange(from as int, i as int),
        decreases to - i,
    {
        r.push(bytes[i]);
        i = i + 1;
    }
    r
}

impl Request {
    /// Parses the request that `bytes` hold, for the peer at `address`.
    ///
    /// `bytes` are all that the peer sent. A body shorter than the headers
    /// announce is a read fault, as the stream ended before it was complete;
    /// bytes after the body are left aside.
    #[verifier::loop_isolation(false)]
    pub fn parse(bytes: &[u8], address: PeerAddress) -> (r: Result<Request, RequestError>)
        ensures
            match r {
                Ok(request) => parse_stream(bytes@) == Ok::<RequestModel, Fault>(request@)
                    && request.address == address,
                Err(error) => parse_stream(bytes@) == Err::<RequestModel, Fault>(error@),
            },
    {
        let len = bytes.len();
        let first = line_length(bytes, 0);
        assert(bytes@.skip(0) == bytes@);
        let raw = bytes_between(bytes, 0, first);
        assert(raw@ == bytes@.take(first as int));
        let line = match decode_line(raw) {
            None => {
                return Err(RequestError::Read);
            },
            Some(line) => line,
        };
        let (method, path) = parse_request_line(line.as_str());
        let mut headers = StringMap::new();
        let mut at: usize = first;
        let mut more = true;
        while more
            invariant
                len == bytes@.len(),
                first <= at <= len,
                more ==> header_block(Seq::empty(), bytes@.skip(first as int)) == header_block(
                    headers.entries(),
                    bytes@.skip(at as int),
                ),
                !more ==> header_block(Seq::empty(), bytes@.skip(first as int)) == Ok::<
                    (Entries, Seq<u8>),
                    Fault,
                >((headers.entries(), bytes@.skip(at as int))),
            decreases len - at, if more { 1int } else { 0int },
        {
            let ghost rest = bytes@.skip(at as int);
            let n = line_length(bytes, at);
            let raw = bytes_between(bytes, at, at + n);
            proof {
                assert(raw@ == rest.take(n as int));
                assert(rest.skip(n as int) == bytes@.skip(at + n));
                lemma_line_len(rest);
            }
            match decode_line(raw) {
                None => {
                    return Err(RequestError::Read);
                },
                Some(line) => {
                    if n <= 2 {
                        more = false;
                    } else {
                        absorb_header_line(&mut headers, line.as_str());
                    }
                    at = at + n;
                },
            }
        }
        let cookies = cookies_of(&headers);
        let body = match body_length(&headers) {
            Err(error) => {
                return Err(error);
            },
            Ok(None) => String::new(),
            Ok(Some(n)) => {
                if len - at < n {
                    return Err(RequestError::Read);
                }
                let raw = bytes_between(bytes, at, at + n);
                assert(raw@ == bytes@.skip(at as int).take(n as int));
                match decode_body(raw, n) {
                    Err(error) => {
                        return Err(error);
                    },
                    Ok(body) => body,
                }
            },
        };
        Ok(Request { method, path, headers, cookies, body, address })
    }
}

} // verus!
