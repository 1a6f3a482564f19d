//! Helpers around a request and its response.

use vstd::prelude::*;
use vstd::string::StringExecFns;

use crate::decimal::{decimal, decimal_text, two_digit_text, two_digits};
use crate::request::{Request, RequestError};
use crate::response::{Response, ResponseModel};
use crate::status_code::StatusCode;
use crate::string_map::{lookup, put};
use crate::text::same_text;

verus! {

/// What became of an attempt to take a connection and read its request:
/// the request with a fresh response, or what went wrong, as text.
pub open spec fn accepted_model(
    attempt: Result<Result<Request, RequestError>, String>,
) -> Result<(Request, ResponseModel), Seq<char>> {
    match attempt {
        Err(why) => Err("couldn't get client: "@ + why@),
        Ok(Err(error)) => Err(error.message()),
        Ok(Ok(request)) => Ok(
            (
                request,
                ResponseModel { status: StatusCode::OK, headers: Seq::empty(), sent: false },
            ),
        ),
    }
}

/// Pairs the request of a new connection with a fresh response. `attempt`
/// holds why no connection could be taken, or what parsing its request gave;
/// a failure of either kind is told as text.
pub fn accept_connection(attempt: Result<Result<Request, RequestError>, String>) -> (r: Result<
    (Request, Response),
    String,
>)
    ensures
        match r {
            Ok((request, response)) => accepted_model(attempt) == Ok::<
                (Request, ResponseModel),
                Seq<char>,
            >((request, response@)),
            Err(why) => accepted_model(attempt) == Err::<(Request, ResponseModel), Seq<char>>(
                why@,
            ),
        },
{
    match attempt {
        Err(why) => {
            let mut text = "couldn't get client: ".to_owned();
            text.append(why.as_str());
            Err(text)
        },
        Ok(Err(error)) => Err(error.to_string()),
        Ok(Ok(request)) => Ok((request, Response::new())),
    }
}

/// The origins of `allowed`, as texts.
pub open spec fn origins(allowed: Seq<&str>) -> Seq<Seq<char>> {
    Seq::new(allowed.len(), |i: int| allowed[i]@)
}

/// The response after the origin of a request was held against the allowed
/// origins: an origin that is allowed is named in
/// `Access-Control-Allow-Origin`, and `Vary` is set to `Origin`.
pub open spec fn cors_allowed(
    r: ResponseModel,
    origin: Option<Seq<char>>,
    allowed: Seq<Seq<char>>,
) -> ResponseModel {
    match origin {
        Some(origin) => if allowed.contains(origin) {
            ResponseModel {
                headers: put(
                    put(r.headers, "Access-Control-Allow-Origin"@, origin),
                    "Vary"@,
                    "Origin"@,
                ),
                ..r
            }
        } else {
            r
        },
        None => r,
    }
}

/// Whether `origin` is one of `allowed`.
pub fn origin_allowed(origin: &str, allowed: &[&str]) -> (b: bool)
    ensures
        b == origins(allowed@).contains(origin@),
{
    let mut i: usize = 0;
    while i < allowed.len()
        invariant
            i <= allowed@.len(),
            forall|k: int| 0 <= k < i ==> origins(allowed@)[k] != origin@,
        decreases allowed@.len() - i,
    {
        if same_text(allowed[i], origin) {
            assert(origins(allowed@)[i as int] == origin@);
            return true;
        }
        i = i + 1;
    }
    false
}

/// Lets the origin of `req` in where it is one of `allowed_origins`.
pub fn cors_allow_origin(req: &Request, res: &mut Response, allowed_origins: &[&str])
    ensures
        final(res)@ == cors_allowed(
            old(res)@,
            lookup(req.headers.entries(), "Origin"@),
            origins(allowed_origins@),
        ),
{
    match req.header("Origin") {
        Some(origin) => {
            if origin_allowed(origin.as_str(), allowed_origins) {
                res.set_header("Access-Control-Allow-Origin", origin.as_str());
                res.set_header("Vary", "Origin");
            }
        },
        None => {},
    }
}

/// The date and time of the log, `seconds` after the start of 1970: years of
/// 365 days and months of 30 days are counted, so it is a rough date.
pub open spec fn log_date(seconds: nat) -> Seq<char> {
    decimal(1970 + seconds / 31536000) + "-"@ + two_digits((seconds % 31536000) / 2592000) + "-"@
        + two_digits((seconds % 2592000) / 86400) + " "@ + two_digits((seconds % 86400) / 3600)
        + ":"@ + two_digits((seconds % 3600) / 60) + ":"@ + two_digits(seconds % 60)
}

/// `s` with spaces after it until it has `width` characters.
pub open spec fn padded(s: Seq<char>, width: nat) -> Seq<char> {
    if s.len() >= width {
        s
    } else {
        s + Seq::new((width - s.len()) as nat, |i: int| ' ')
    }
}

/// The method of a request as the log shows it.
pub open spec fn log_method(method: Seq<char>) -> Seq<char> {
    "[\x1b[96;1m"@ + method + "\x1b[0m]"@
}

/// The line that the log shows for a request: the date, the method in a
/// column of 19 characters, the path.
pub open spec fn log_line(seconds: nat, method: Seq<char>, path: Seq<char>) -> Seq<char> {
    "\x1b[2m"@ + log_date(seconds) + "\x1b[0m "@ + padded(log_method(method), 19) + " "@ + path
}

/// `s` with spaces after it until it has `width` characters.
pub fn pad_right(s: String, width: usize) -> (r: String)
    ensures
        r@ == padded(s@, width as nat),
{
    let have = s.as_str().unicode_len();
    let mut r = s;
    if have < width {
        let mut i: usize = have;
        while i < width
            invariant
                have <= i <= width,
                r@ == s@ + Seq::new((i - have) as nat, |k: int| ' '),
            decreases width - i,
        {
            let ghost before = r@;
            r.push(' ');
            assert(r@ =~= s@ + Seq::new((i + 1 - have) as nat, |k: int| ' '));
            i = i + 1;
        }
    }
    r
}

/// The line that the log shows for `req`, `seconds` after the start of 1970.
pub fn request_log_line(req: &Request, seconds: u64) -> (line: String)
    ensures
        line@ == log_line(seconds as nat, req.method@, req.path@),
{
    let mut date = decimal_text(1970 + seconds / 31536000);
    date.append("-");
    date.append(two_digit_text((seconds % 31536000) / 2592000).as_str());
    date.append("-");
    date.append(two_digit_text((seconds % 2592000) / 86400).as_str());
    date.append(" ");
    date.append(two_digit_text((seconds % 86400) / 3600).as_str());
    date.append(":");
    date.append(two_digit_text((seconds % 3600) / 60).as_str());
    date.append(":");
    date.append(two_digit_text(seconds % 60).as_str());
    let mut method = "[\x1b[96;1m".to_owned();
    method.append(req.method.as_str());
    method.append("\x1b[0m]");
    let method = pad_right(method, 19);
    let mut line = "\x1b[2m".to_owned();
    line.append(date.as_str());
    line.append("\x1b[0m ");
    line.append(method.as_str());
    line.append(" ");
    line.append(req.path.as_str());
    line
}

} // verus!
