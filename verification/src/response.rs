//! Responses: status and headers, and what goes on the wire when one is sent.
//!
//! A response never writes. To send is to say what has to be written: the
//! head, and what follows it. Whoever holds the stream writes that and
//! reports how it went; the response then records the report.

use vstd::prelude::*;
use vstd::string::StringExecFns;
use vstd::utf8::encode_utf8;

use crate::content_type::ContentType;
use crate::decimal::{decimal, decimal_text};
use crate::status_code::StatusCode;
use crate::string_map::{lookup, put, Entries, StringMap};

verus! {

/// Why a response could not be sent.
#[derive(Debug)]
pub enum ResponseError {
    /// The head could not be written.
    Write,
    /// The stream could not be flushed.
    Flush,
    /// The body could not be produced or written; says why.
    Sendable(String),
}

/// The model of a `ResponseError`.
pub enum ResponseFault {
    Write,
    Flush,
    Sendable(Seq<char>),
}

impl View for ResponseError {
    type V = ResponseFault;

    open spec fn view(&self) -> ResponseFault {
        match self {
            ResponseError::Write => ResponseFault::Write,
            ResponseError::Flush => ResponseFault::Flush,
            ResponseError::Sendable(why) => ResponseFault::Sendable(why@),
        }
    }
}

impl ResponseError {
    /// What the error says, as text.
    pub open spec fn message(self) -> Seq<char> {
        match self {
            ResponseError::Write => "could not write to TcpStream"@,
            ResponseError::Flush => "could not flush to TcpStream"@,
            ResponseError::Sendable(why) => "could not send response: "@ + why@,
        }
    }

    /// The error of a body that failed, from what its failure said.
    pub fn sendable(error: &str) -> (e: ResponseError)
        ensures
            e@ == ResponseFault::Sendable(error@),
    {
        ResponseError::Sendable(error.to_owned())
    }

    /// What the error says, as text.
    pub fn to_string(&self) -> (s: String)
        ensures
            s@ == self.message(),
    {
        match self {
            ResponseError::Write => "could not write to TcpStream".to_owned(),
            ResponseError::Flush => "could not flush to TcpStream".to_owned(),
            ResponseError::Sendable(why) => {
                let mut s = "could not send response: ".to_owned();
                s.append(why.as_str());
                s
            },
        }
    }
}

/// The model of a response.
pub struct ResponseModel {
    pub status: StatusCode,
    pub headers: Entries,
    pub sent: bool,
}

/// What follows the head of a response on the wire.
#[derive(Debug)]
pub enum Payload {
    /// Nothing.
    Empty,
    /// The bytes of this text.
    Text(String),
    /// The bytes of the file at this path, streamed.
    File(String),
}

/// The model of a `Payload`.
pub enum PayloadModel {
    Empty,
    Text(Seq<char>),
    File(Seq<char>),
}

impl View for Payload {
    type V = PayloadModel;

    open spec fn view(&self) -> PayloadModel {
        match self {
            Payload::Empty => PayloadModel::Empty,
            Payload::Text(text) => PayloadModel::Text(text@),
            Payload::File(path) => PayloadModel::File(path@),
        }
    }
}

/// What has to be written to send a response: the head, then the payload.
#[derive(Debug)]
pub struct Outgoing {
    /// The status line, the headers and the blank line that ends them.
    pub head: String,
    /// What follows the head.
    pub payload: Payload,
}

/// How the writing of a response went.
#[derive(Debug)]
pub enum Delivery {
    /// All was written and the stream was flushed.
    Flushed,
    /// The head could not be written.
    WriteFailed,
    /// The payload could not be produced or written; says why.
    BodyFailed(String),
    /// The stream could not be flushed.
    FlushFailed,
}

/// The line of one header in a head.
pub open spec fn header_line(entry: (Seq<char>, Seq<char>)) -> Seq<char> {
    "\r\n"@ + entry.0 + ": "@ + entry.1
}

/// The lines of the first `n` headers, in their order.
pub open spec fn header_lines(headers: Entries, n: int) -> Seq<char>
    decreases n,
{
    if n <= 0 || n > headers.len() {
        Seq::empty()
    } else {
        header_lines(headers, n - 1) + header_line(headers[n - 1])
    }
}

/// The status line of a response with this status.
pub open spec fn status_line(status: StatusCode) -> Seq<char> {
    "HTTP/1.1 "@ + decimal(status.code()) + " "@ + status.reason()
}

/// The head of a response: the status line, a line for each header in the
/// order in which the headers were first set, and a blank line.
pub open spec fn head_text(r: ResponseModel) -> Seq<char> {
    status_line(r.status) + header_lines(r.headers, r.headers.len() as int) + "\r\n\r\n"@
}

/// The headers with `value` under `name` where nothing stood under `name`.
pub open spec fn with_default(headers: Entries, name: Seq<char>, value: Seq<char>) -> Entries {
    if lookup(headers, name) is None {
        put(headers, name, value)
    } else {
        headers
    }
}

/// The response made ready for a body of the length `length`: without a
/// `Content-Type` it is plain text, without a `Content-Length` it gets `length`.
pub open spec fn with_defaults(r: ResponseModel, length: Seq<char>) -> ResponseModel {
    ResponseModel {
        headers: with_default(
            with_default(r.headers, "Content-Type"@, ContentType::TextPlain.rendered()),
            "Content-Length"@,
            length,
        ),
        ..r
    }
}

/// The response after a report on its writing: it is sent once a report says
/// that the stream was flushed.
pub open spec fn settled(r: ResponseModel, report: Delivery) -> ResponseModel {
    ResponseModel { sent: r.sent || report is Flushed, ..r }
}

/// What a report means for the one who sent.
pub open spec fn verdict(report: Delivery) -> Result<(), ResponseFault> {
    match report {
        Delivery::Flushed => Ok(()),
        Delivery::WriteFailed => Err(ResponseFault::Write),
        Delivery::BodyFailed(why) => Err(ResponseFault::Sendable(why@)),
        Delivery::FlushFailed => Err(ResponseFault::Flush),
    }
}

/// `s` begins with `prefix`.
pub open spec fn starts_with(s: Seq<char>, prefix: Seq<char>) -> bool {
    prefix.len() <= s.len() && s.take(prefix.len() as int) == prefix
}

/// The lines of one header or more begin with a line break.
pub proof fn lemma_lines_begin(headers: Entries, n: int)
    requires
        1 <= n <= headers.len(),
    ensures
        header_lines(headers, n).len() >= 2,
        header_lines(headers, n)[0] == '\r',
        header_lines(headers, n)[1] == '\n',
    decreases n,
{
    reveal_strlit("\r\n");
    if n > 1 {
        lemma_lines_begin(headers, n - 1);
    } else {
        assert(header_lines(headers, 0) == Seq::<char>::empty());
        assert(header_lines(headers, 1) == Seq::<char>::empty() + header_line(headers[0]));
    }
}

/// The head of a response whose status is the one a response starts with
/// begins with the line `HTTP/1.1 200 Ok`.
pub proof fn lemma_default_status(r: ResponseModel)
    requires
        r.status == StatusCode::OK,
    ensures
        starts_with(head_text(r), "HTTP/1.1 200 Ok\r\n"@),
{
    reveal_strlit("HTTP/1.1 ");
    reveal_strlit(" ");
    reveal_strlit("Ok");
    reveal_strlit("HTTP/1.1 200 Ok\r\n");
    reveal_strlit("\r\n\r\n");
    reveal_with_fuel(decimal, 3);
    assert(decimal(200) == seq!['2', '0', '0']);
    let line = status_line(r.status);
    assert(line == seq![
        'H',
        'T',
        'T',
        'P',
        '/',
        '1',
        '.',
        '1',
        ' ',
        '2',
        '0',
        '0',
        ' ',
        'O',
        'k',
    ]);
    let lines = header_lines(r.headers, r.headers.len() as int);
    let rest = lines + "\r\n\r\n"@;
    if r.headers.len() > 0 {
        lemma_lines_begin(r.headers, r.headers.len() as int);
    } else {
        assert(lines == Seq::<char>::empty());
    }
    assert(rest.len() >= 2 && rest[0] == '\r' && rest[1] == '\n');
    assert(head_text(r) == line + rest);
    assert(head_text(r).take(17) == "HTTP/1.1 200 Ok\r\n"@);
}

/// The text that a fallback response carries.
pub open spec fn fallback_text() -> Seq<char> {
    "Internal server error"@
}

/// The response that is sent in place of one that failed: its status is 500,
/// and it is made ready for the fallback text.
pub open spec fn fallen_back(r: ResponseModel) -> ResponseModel {
    with_defaults(
        ResponseModel { status: StatusCode::InternalServerError, ..r },
        decimal(encode_utf8(fallback_text()).len()),
    )
}

/// A response in the making.
#[derive(Debug)]
pub struct Response {
    status: StatusCode,
    headers: StringMap,
    sent: bool,
}

impl View for Response {
    type V = ResponseModel;

    closed spec fn view(&self) -> ResponseModel {
        ResponseModel { status: self.status, headers: self.headers.entries(), sent: self.sent }
    }
}

/// Something that can be the body of a response.
pub trait Sendable {
    /// The response after this body had its say on the headers.
    spec fn prepared(&self, r: ResponseModel) -> ResponseModel;

    /// The length of this body in bytes, as decimal text.
    spec fn length_text(&self) -> Seq<char>;

    /// What this body puts on the wire.
    spec fn payload_model(&self) -> PayloadModel;

    /// Runs before the head is made: the only point at which a body can set
    /// headers. It sets nothing but headers: status and sent flag stay.
    fn prepare(&self, res: &mut Response)
        ensures
            final(res)@ == self.prepared(old(res)@),
            final(res)@.status == old(res)@.status,
            final(res)@.sent == old(res)@.sent,
    ;

    /// The value of the `Content-Length` header for this body.
    fn content_length(&self) -> (s: String)
        ensures
            s@ == self.length_text(),
    ;

    /// What has to be written after the head.
    fn payload(&self) -> (p: Payload)
        ensures
            p@ == self.payload_model(),
    ;
}

impl Sendable for String {
    open spec fn prepared(&self, r: ResponseModel) -> ResponseModel {
        r
    }

    open spec fn length_text(&self) -> Seq<char> {
        decimal(encode_utf8(self@).len())
    }

    open spec fn payload_model(&self) -> PayloadModel {
        PayloadModel::Text(self@)
    }

    fn prepare(&self, res: &mut Response) {
    }

    fn content_length(&self) -> (s: String) {
        let n = self.as_str().as_bytes().len();
        decimal_text(n as u64)
    }

    fn payload(&self) -> (p: Payload) {
        Payload::Text(self.clone())
    }
}

impl Sendable for &str {
    open spec fn prepared(&self, r: ResponseModel) -> ResponseModel {
        r
    }

    open spec fn length_text(&self) -> Seq<char> {
        decimal(encode_utf8(self@).len())
    }

    open spec fn payload_model(&self) -> PayloadModel {
        PayloadModel::Text(self@)
    }

    fn prepare(&self, res: &mut Response) {
    }

    fn content_length(&self) -> (s: String) {
        let n = self.as_bytes().len();
        decimal_text(n as u64)
    }

    fn payload(&self) -> (p: Payload) {
        Payload::Text((*self).to_owned())
    }
}

impl Response {
    /// A response with the status 200, no headers, not sent.
    pub fn new() -> (res: Response)
        ensures
            res@ == (ResponseModel {
                status: StatusCode::OK,
                headers: Seq::empty(),
                sent: false,
            }),
    {
        Response { status: StatusCode::OK, headers: StringMap::new(), sent: false }
    }

    /// Sets the header `k` to `v`; of two values for one name the later stands.
    pub fn set_header(&mut self, k: &str, v: &str)
        ensures
            final(self)@ == (ResponseModel { headers: put(old(self)@.headers, k@, v@), ..old(self)@ }),
    {
        self.headers.insert(k.to_owned(), v.to_owned());
    }

    /// Sets the `Content-Type` header to what `c_type` renders as.
    pub fn content_type(&mut self, c_type: ContentType) -> (res: &mut Self)
        ensures
            res@ == (ResponseModel {
                headers: put(old(self)@.headers, "Content-Type"@, c_type.rendered()),
                ..old(self)@
            }),
            *final(self) == *final(res),
    {
        let text = c_type.to_string();
        self.headers.insert("Content-Type".to_owned(), text);
        self
    }

    /// Sets the `Content-Type` header to `c_type` as it stands.
    pub fn raw_content_type(&mut self, c_type: &str) -> (res: &mut Self)
        ensures
            res@ == (ResponseModel {
                headers: put(old(self)@.headers, "Content-Type"@, c_type@),
                ..old(self)@
            }),
            *final(self) == *final(res),
    {
        self.headers.insert("Content-Type".to_owned(), c_type.to_owned());
        self
    }

    /// Sets the status.
    pub fn status(&mut self, status_code: StatusCode) -> (res: &mut Self)
        ensures
            res@ == (ResponseModel { status: status_code, ..old(self)@ }),
            *final(self) == *final(res),
    {
        self.status = status_code;
        self
    }

    /// Whether a report said that the response was written and flushed.
    pub fn sent(&self) -> (b: bool)
        ensures
            b == self@.sent,
    {
        self.sent
    }

    /// The status that the response has.
    pub fn status_code(&self) -> (status: StatusCode)
        ensures
            status == self@.status,
    {
        self.status
    }

    /// The headers that the response has.
    pub fn headers(&self) -> (headers: &StringMap)
        ensures
            headers.entries() == self@.headers,
    {
        &self.headers
    }

    /// The head of the response as it stands.
    pub fn fmt_head(&self) -> (head: String)
        ensures
            head@ == head_text(self@),
    {
        let (code, reason) = self.status.as_tuple();
        let mut head = "HTTP/1.1 ".to_owned();
        head.append(decimal_text(code as u64).as_str());
        head.append(" ");
        head.append(reason);
        let ghost entries = self.headers.entries();
        let n = self.headers.len();
        let mut i: usize = 0;
        assert(header_lines(entries, 0) == Seq::<char>::empty());
        assert(head@ == status_line(self.status) + header_lines(entries, 0));
        while i < n
            invariant
                entries == self.headers.entries(),
                n == entries.len(),
                i <= n,
                head@ == status_line(self.status) + header_lines(entries, i as int),
            decreases n - i,
        {
            match self.headers.entry(i) {
                Some((name, value)) => {
                    let ghost before = head@;
                    head.append("\r\n");
                    head.append(name.as_str());
                    head.append(": ");
                    head.append(value.as_str());
                    proof {
                        assert(head@ =~= before + header_line(entries[i as int]));
                        assert(head@ =~= status_line(self.status) + (header_lines(
                            entries,
                            i as int,
                        ) + header_line(entries[i as int])));
                    }
                },
                None => {},
            }
            i = i + 1;
        }
        head.append("\r\n\r\n");
        head
    }

    /// Makes the response ready to be sent without a body, and says what has
    /// to be written: the `Content-Length` is set to 0, whatever it was.
    pub fn try_send_empty(&mut self) -> (out: Outgoing)
        ensures
            final(self)@ == (ResponseModel {
                headers: put(old(self)@.headers, "Content-Length"@, decimal(0)),
                ..old(self)@
            }),
            out.head@ == head_text(final(self)@),
            out.payload@ == PayloadModel::Empty,
            old(self)@.status == StatusCode::OK ==> starts_with(out.head@, "HTTP/1.1 200 Ok\r\n"@),
    {
        self.headers.insert("Content-Length".to_owned(), decimal_text(0));
        let head = self.fmt_head();
        proof {
            if self@.status == StatusCode::OK {
                lemma_default_status(self@);
            }
        }
        Outgoing { head, payload: Payload::Empty }
    }

    /// Makes the response ready to be sent with `body`, and says what has to
    /// be written. The body has its say on the headers first; then a missing
    /// `Content-Type` becomes plain text and a missing `Content-Length` the
    /// length of the body. Status and sent flag stay as they are, so a
    /// response whose status was never set goes out as `200 Ok`.
    pub fn try_send<T: Sendable>(&mut self, body: T) -> (out: Outgoing)
        ensures
            final(self)@ == with_defaults(body.prepared(old(self)@), body.length_text()),
            final(self)@.status == old(self)@.status,
            final(self)@.sent == old(self)@.sent,
            out.head@ == head_text(final(self)@),
            out.payload@ == body.payload_model(),
            old(self)@.status == StatusCode::OK ==> starts_with(out.head@, "HTTP/1.1 200 Ok\r\n"@),
    {
        body.prepare(self);
        if !self.headers.contains_key("Content-Type") {
            self.headers.insert("Content-Type".to_owned(), ContentType::TextPlain.to_string());
        }
        if !self.headers.contains_key("Content-Length") {
            self.headers.insert("Content-Length".to_owned(), body.content_length());
        }
        let head = self.fmt_head();
        proof {
            if self@.status == StatusCode::OK {
                lemma_default_status(self@);
            }
        }
        Outgoing { head, payload: body.payload() }
    }

    /// Records how the writing went: the response is sent once the stream
    /// was flushed. Says what the report means for the one who sent.
    pub fn settle(&mut self, report: Delivery) -> (r: Result<(), ResponseError>)
        ensures
            final(self)@ == settled(old(self)@, report),
            match r {
                Ok(_) => verdict(report) is Ok,
                Err(e) => verdict(report) == Err::<(), ResponseFault>(e@),
            },
    {
        match report {
            Delivery::Flushed => {
                self.sent = true;
                Ok(())
            },
            Delivery::WriteFailed => Err(ResponseError::Write),
            Delivery::BodyFailed(why) => Err(ResponseError::Sendable(why)),
            Delivery::FlushFailed => Err(ResponseError::Flush),
        }
    }

    /// Records how the writing went and, where it failed, makes the fallback
    /// response ready and says what has to be written for it. Why the writing
    /// failed is dropped.
    pub fn send(&mut self, report: Delivery) -> (out: Option<Outgoing>)
        ensures
            report is Flushed ==> out is None && final(self)@ == settled(old(self)@, report),
            !(report is Flushed) ==> out is Some && final(self)@ == fallen_back(old(self)@)
                && out.unwrap().head@ == head_text(final(self)@) && out.unwrap().payload@
                == PayloadModel::Text(fallback_text()),
    {
        match self.settle(report) {
            Ok(_) => None,
            Err(_) => {
                let out = self.status(StatusCode::InternalServerError).try_send(
                    "Internal server error",
                );
                Some(out)
            },
        }
    }

    /// Records how the writing went and, where it failed, hands the response
    /// to `op`. Why the writing failed is dropped.
    pub fn send_or<F: FnOnce(&mut Response)>(&mut self, report: Delivery, op: F)
        requires
            forall|r: &mut Response| *r == *old(self) ==> call_requires(op, (r,)),
        ensures
            report is Flushed ==> final(self)@ == settled(old(self)@, report),
            !(report is Flushed) ==> exists|r: &mut Response|
                *r == *old(self) && *final(r) == *final(self) && call_ensures(op, (r,), ()),
    {
        match report {
            Delivery::Flushed => {
                self.sent = true;
            },
            _ => {
                op(self);
            },
        }
    }

    /// As `send`, for a response that was to go out without a body.
    pub fn send_empty(&mut self, report: Delivery) -> (out: Option<Outgoing>)
        ensures
            report is Flushed ==> out is None && final(self)@ == settled(old(self)@, report),
            !(report is Flushed) ==> out is Some && final(self)@ == fallen_back(old(self)@)
                && out.unwrap().head@ == head_text(final(self)@) && out.unwrap().payload@
                == PayloadModel::Text(fallback_text()),
    {
        self.send(report)
    }
}

} // verus!
