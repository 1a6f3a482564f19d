//! Laws of the library: what holds of every request line, of every block of
//! headers and of every response, proved from the definitions.

use vstd::prelude::*;
use vstd::utf8::{encode_utf8, valid_utf8};

use crate::content_type::ContentType;
use crate::file_body::{extension_text, lemma_json_path, plain_path, FileBody};
use crate::decimal::{
    all_digits, decimal, digit, digit_value, digits_value, parse_usize, unsigned_digits,
};
use crate::parser::{header_block, line_len};
use crate::request::{
    decoded_line, normalize, request_method, request_path, request_target, with_header_line, Fault,
};
use crate::response::{
    head_text, header_line, header_lines, lemma_default_status, starts_with, status_line,
    with_defaults, PayloadModel, ResponseModel, Sendable,
};
use crate::status_code::StatusCode;
use crate::transfer::{
    first_turn, turn, ActionModel, EventModel, Phase, ReportModel, TransmissionModel, TurnModel,
};
use crate::string_map::{
    distinct_keys, lemma_position_from, lemma_put, lookup, position, put, Entries,
};
use crate::text::{find, lemma_find_from_is, matches_at, split, trim_end, trim_start};

verus! {

/// A character that stands at `i` and nowhere before is found at `i`.
pub proof fn lemma_find_char(s: Seq<char>, c: char, i: int)
    requires
        0 <= i < s.len(),
        s[i] == c,
        forall|j: int| 0 <= j < i ==> s[j] != c,
    ensures
        find(s, seq![c]) == Some(i),
{
    assert(s.subrange(i, i + 1) == seq![c]);
    assert forall|j: int| 0 <= j < i implies !matches_at(s, seq![c], j) by {
        if matches_at(s, seq![c], j) {
            assert(s.subrange(j, j + 1)[0] == c);
        }
    }
    lemma_find_from_is(s, seq![c], 0, i);
}

/// What is left of `s` after the run of `c` at its end is a start of `s`
/// that does not end in `c`.
pub proof fn lemma_trim_end(s: Seq<char>, c: char)
    ensures
        trim_end(s, c).len() <= s.len(),
        trim_end(s, c) == s.take(trim_end(s, c).len() as int),
        trim_end(s, c).len() > 0 ==> trim_end(s, c).last() != c,
    decreases s.len(),
{
    if s.len() > 0 && s.last() == c {
        lemma_trim_end(s.drop_last(), c);
        let t = trim_end(s.drop_last(), c);
        assert(s.drop_last().take(t.len() as int) == s.take(t.len() as int));
    } else {
        assert(s.take(s.len() as int) == s);
    }
}

/// What is left of `s` after the run of `c` at its start is an end of `s`
/// that does not start with `c`.
pub proof fn lemma_trim_start(s: Seq<char>, c: char)
    ensures
        trim_start(s, c).len() <= s.len(),
        trim_start(s, c) == s.skip(s.len() - trim_start(s, c).len()),
        trim_start(s, c).len() > 0 ==> trim_start(s, c).first() != c,
    decreases s.len(),
{
    if s.len() > 0 && s.first() == c {
        lemma_trim_start(s.drop_first(), c);
        let t = trim_start(s.drop_first(), c);
        assert(s.drop_first().skip(s.len() - 1 - t.len()) == s.skip(s.len() - t.len()));
    } else {
        assert(s.skip(0) == s);
    }
}

/// A path in normal form starts with one slash, and neither starts with two
/// nor, unless it is the slash alone, ends in one.
pub proof fn law_normal_form(path: Seq<char>)
    ensures
        normalize(path).len() >= 1,
        normalize(path)[0] == '/',
        normalize(path).len() > 1 ==> normalize(path)[1] != '/' && normalize(path).last() != '/',
{
    let cut = trim_end(path, '/');
    let inner = trim_start(cut, '/');
    lemma_trim_end(path, '/');
    lemma_trim_start(cut, '/');
    if inner.len() > 0 {
        assert(inner.last() == cut.last());
        assert(normalize(path)[1] == inner[0]);
        assert(normalize(path).last() == inner.last());
    }
}

/// Of a request line made of a method, a space, a path, a question mark, a
/// query, a space and a version, the method is parsed as it stands, or as
/// `GET` where it is empty; the path is parsed into its normal form, and the
/// query is left out. The method, the path and the query hold no space, and
/// the path holds no question mark.
pub proof fn law_request_line(
    method: Seq<char>,
    path: Seq<char>,
    query: Seq<char>,
    version: Seq<char>,
)
    requires
        !method.contains(' '),
        !path.contains(' '),
        !path.contains('?'),
        !query.contains(' '),
    ensures
        request_method(method + seq![' '] + path + seq!['?'] + query + seq![' '] + version) == (
        if method.len() > 0 {
            method
        } else {
            "GET"@
        }),
        request_target(method + seq![' '] + path + seq!['?'] + query + seq![' '] + version)
            == path + seq!['?'] + query,
        request_path(method + seq![' '] + path + seq!['?'] + query + seq![' '] + version)
            == normalize(path),
{
    let line = method + seq![' '] + path + seq!['?'] + query + seq![' '] + version;
    let target = path + seq!['?'] + query;
    let a = method.len() as int;
    assert forall|j: int| 0 <= j < a implies line[j] != ' ' by {
        assert(line[j] == method[j]);
    }
    lemma_find_char(line, ' ', a);
    let rest = line.skip(a + 1);
    assert(line.take(a) == method);
    assert(rest == target + seq![' '] + version);
    let b = target.len() as int;
    assert forall|j: int| 0 <= j < b implies rest[j] != ' ' by {
        if j < path.len() {
            assert(rest[j] == path[j]);
        } else if j > path.len() {
            assert(rest[j] == query[j - path.len() - 1]);
        }
    }
    lemma_find_char(rest, ' ', b);
    assert(rest.take(b) == target);
    let tail = split(rest.skip(b + 1), seq![' ']);
    assert(split(rest, seq![' ']) == seq![target] + tail);
    assert(split(line, seq![' ']) == seq![method] + (seq![target] + tail));
    assert(split(line, seq![' '])[0] == method);
    assert(split(line, seq![' '])[1] == target);
    let p = path.len() as int;
    assert forall|j: int| 0 <= j < p implies target[j] != '?' by {
        assert(target[j] == path[j]);
    }
    lemma_find_char(target, '?', p);
    assert(target.take(p) == path);
    assert(split(target, seq!['?'])[0] == path);
}

/// The headers after the first `n` of `lines` were taken in, one by one.
pub open spec fn headers_after(lines: Seq<Seq<char>>, n: int) -> Entries
    decreases n,
{
    if n <= 0 {
        Seq::empty()
    } else {
        with_header_line(headers_after(lines, n - 1), lines[n - 1])
    }
}

/// The line of a header with this name and this value.
pub open spec fn line_of(pair: (Seq<char>, Seq<char>)) -> Seq<char> {
    pair.0 + seq![':', ' '] + pair.1
}

/// The lines of these headers.
pub open spec fn lines_of(pairs: Entries) -> Seq<Seq<char>> {
    Seq::new(pairs.len(), |i: int| line_of(pairs[i]))
}

/// A line made of a name without a colon, a colon, a space and a value
/// writes the value under the name.
pub proof fn lemma_header_line(headers: Entries, pair: (Seq<char>, Seq<char>))
    requires
        !pair.0.contains(':'),
    ensures
        with_header_line(headers, line_of(pair)) == put(headers, pair.0, pair.1),
{
    let line = line_of(pair);
    let pat = seq![':', ' '];
    let k = pair.0.len() as int;
    assert(line.subrange(k, k + 2) == pat);
    assert forall|j: int| 0 <= j < k implies !matches_at(line, pat, j) by {
        if matches_at(line, pat, j) {
            assert(line.subrange(j, j + 2)[0] == ':');
            assert(line[j] == pair.0[j]);
        }
    }
    lemma_find_from_is(line, pat, 0, k);
    assert(line.take(k) == pair.0);
    assert(line.skip(k + 2) == pair.1);
}

/// Of a block of well-formed header lines, each a name without a colon, a
/// colon, a space and a value: no name stands twice in the headers, there are
/// no more headers than lines, every name of a line has a value, and it is
/// the value of the last line with that name. Where no two lines share a
/// name, the headers are the lines' names and values, one entry for each line.
pub proof fn law_header_lines(pairs: Entries, n: int)
    requires
        0 <= n <= pairs.len(),
        forall|i: int| 0 <= i < pairs.len() ==> !(#[trigger] pairs[i]).0.contains(':'),
    ensures
        distinct_keys(headers_after(lines_of(pairs), n)),
        headers_after(lines_of(pairs), n).len() <= n,
        forall|i: int|
            #![trigger pairs[i]]
            0 <= i < n && (forall|j: int| i < j < n ==> (#[trigger] pairs[j]).0 != pairs[i].0)
                ==> lookup(headers_after(lines_of(pairs), n), pairs[i].0) == Some(pairs[i].1),
        forall|key: Seq<char>|
            (forall|i: int| 0 <= i < n ==> (#[trigger] pairs[i]).0 != key) ==> lookup(
                headers_after(lines_of(pairs), n),
                key,
            ) is None,
        distinct_keys(pairs) ==> headers_after(lines_of(pairs), n) == pairs.take(n),
    decreases n,
{
    let lines = lines_of(pairs);
    if n > 0 {
        law_header_lines(pairs, n - 1);
        let before = headers_after(lines, n - 1);
        let last = pairs[n - 1];
        lemma_header_line(before, last);
        lemma_put(before, last.0, last.1);
        let after = headers_after(lines, n);
        assert(after == put(before, last.0, last.1));
        assert forall|i: int|
            #![trigger pairs[i]]
            0 <= i < n && (forall|j: int| i < j < n ==> (#[trigger] pairs[j]).0 != pairs[i].0)
                implies lookup(after, pairs[i].0) == Some(pairs[i].1) by {
            if i < n - 1 {
                assert(pairs[n - 1].0 != pairs[i].0);
                assert(lookup(after, pairs[i].0) == lookup(before, pairs[i].0));
            }
        }
        assert forall|key: Seq<char>|
            (forall|i: int| 0 <= i < n ==> (#[trigger] pairs[i]).0 != key) implies lookup(
            after,
            key,
        ) is None by {
            assert(pairs[n - 1].0 != key);
            assert(lookup(after, key) == lookup(before, key));
        }
        if distinct_keys(pairs) {
            assert(lookup(before, last.0) is None);
            assert(pairs.take(n) == pairs.take(n - 1).push(last));
        }
    } else {
        assert(pairs.take(0) == Seq::<(Seq<char>, Seq<char>)>::empty());
    }
}

/// The bytes are one line: they end in a line feed and hold no other.
pub open spec fn is_line(raw: Seq<u8>) -> bool {
    raw.len() > 0 && raw.last() == 10 && forall|i: int| 0 <= i < raw.len() - 1 ==> raw[i] != 10
}

/// The lines, one after the other.
pub open spec fn flat(raws: Seq<Seq<u8>>) -> Seq<u8>
    decreases raws.len(),
{
    if raws.len() == 0 {
        Seq::empty()
    } else {
        raws[0] + flat(raws.skip(1))
    }
}

/// The headers after each of the lines was taken in, from the first on.
pub open spec fn headers_with(headers: Entries, raws: Seq<Seq<u8>>) -> Entries
    decreases raws.len(),
{
    if raws.len() == 0 {
        headers
    } else {
        headers_with(with_header_line(headers, decoded_line(raws[0]).unwrap()), raws.skip(1))
    }
}

/// The first line of bytes that start with a line is that line.
pub proof fn lemma_first_line(raw: Seq<u8>, tail: Seq<u8>)
    requires
        is_line(raw),
    ensures
        line_len(raw + tail) == raw.len(),
    decreases raw.len(),
{
    let all = raw + tail;
    if raw.len() > 1 {
        assert(all[0] == raw[0]);
        assert(all.skip(1) == raw.skip(1) + tail);
        assert(is_line(raw.skip(1))) by {
            assert(raw.skip(1).last() == raw.last());
            assert forall|i: int| 0 <= i < raw.skip(1).len() - 1 implies raw.skip(1)[i] != 10 by {
                assert(raw.skip(1)[i] == raw[i + 1]);
            }
        }
        lemma_first_line(raw.skip(1), tail);
    } else {
        assert(all[0] == raw.last());
    }
}

/// Parsing the headers takes in every line up to the first line of two bytes
/// or less and stops there: of header lines of more than two bytes, a line
/// `end` of at most two bytes and any bytes `rest` after it, the headers are
/// those of the lines before `end`, and `rest` is what is left.
pub proof fn law_header_block(
    headers: Entries,
    raws: Seq<Seq<u8>>,
    end: Seq<u8>,
    rest: Seq<u8>,
)
    requires
        forall|i: int|
            0 <= i < raws.len() ==> is_line(#[trigger] raws[i]) && raws[i].len() > 2 && valid_utf8(
                raws[i],
            ),
        is_line(end),
        end.len() <= 2,
        valid_utf8(end),
    ensures
        header_block(headers, flat(raws) + end + rest) == Ok::<(Entries, Seq<u8>), Fault>(
            (headers_with(headers, raws), rest),
        ),
    decreases raws.len(),
{
    if raws.len() == 0 {
        let bytes = flat(raws) + end + rest;
        assert(bytes == end + rest);
        lemma_first_line(end, rest);
        assert(bytes.take(end.len() as int) == end);
        assert(bytes.skip(end.len() as int) == rest);
    } else {
        let first = raws[0];
        let tail = flat(raws.skip(1)) + end + rest;
        let bytes = flat(raws) + end + rest;
        assert(bytes == first + tail);
        lemma_first_line(first, tail);
        assert(bytes.take(first.len() as int) == first);
        assert(bytes.skip(first.len() as int) == tail);
        assert forall|i: int| 0 <= i < raws.skip(1).len() implies is_line(
            #[trigger] raws.skip(1)[i],
        ) && raws.skip(1)[i].len() > 2 && valid_utf8(raws.skip(1)[i]) by {
            assert(raws.skip(1)[i] == raws[i + 1]);
        }
        law_header_block(
            with_header_line(headers, decoded_line(first).unwrap()),
            raws.skip(1),
            end,
            rest,
        );
    }
}

/// `pat` stands somewhere in `s`.
pub open spec fn occurs_in(s: Seq<char>, pat: Seq<char>) -> bool {
    exists|i: int| matches_at(s, pat, i)
}

/// What stands in a part of a text stands in the text.
pub proof fn lemma_occurs_in_part(before: Seq<char>, part: Seq<char>, after: Seq<char>, pat: Seq<char>)
    requires
        occurs_in(part, pat),
    ensures
        occurs_in(before + part + after, pat),
{
    let i = choose|i: int| matches_at(part, pat, i);
    let all = before + part + after;
    assert(all.subrange(before.len() + i, before.len() + i + pat.len()) == part.subrange(
        i,
        i + pat.len(),
    ));
    assert(matches_at(all, pat, before.len() + i));
}

/// The lines of the headers hold the line of every header among them.
pub proof fn lemma_lines_hold(headers: Entries, n: int, i: int)
    requires
        0 <= i < n <= headers.len(),
    ensures
        occurs_in(header_lines(headers, n), header_line(headers[i])),
    decreases n,
{
    let line = header_line(headers[i]);
    if i == n - 1 {
        let before = header_lines(headers, n - 1);
        assert(matches_at(line, line, 0)) by {
            assert(line.subrange(0, line.len() as int) == line);
        }
        lemma_occurs_in_part(before, line, Seq::empty(), line);
        assert(before + line + Seq::<char>::empty() == header_lines(headers, n));
    } else {
        lemma_lines_hold(headers, n - 1, i);
        lemma_occurs_in_part(
            Seq::empty(),
            header_lines(headers, n - 1),
            header_line(headers[n - 1]),
            line,
        );
        assert(Seq::<char>::empty() + header_lines(headers, n - 1) + header_line(headers[n - 1])
            == header_lines(headers, n));
    }
}

/// The head of a response holds a line for every header that the response
/// has: the name, a colon, a space and the value that stands under the name.
pub proof fn law_head_holds_header(r: ResponseModel, name: Seq<char>)
    requires
        lookup(r.headers, name) is Some,
    ensures
        occurs_in(head_text(r), header_line((name, lookup(r.headers, name).unwrap()))),
{
    lemma_position_from(r.headers, name, 0);
    let i = position(r.headers, name).unwrap();
    assert(r.headers[i] == (name, lookup(r.headers, name).unwrap()));
    lemma_lines_hold(r.headers, r.headers.len() as int, i);
    lemma_occurs_in_part(
        status_line(r.status),
        header_lines(r.headers, r.headers.len() as int),
        "\r\n\r\n"@,
        header_line(r.headers[i]),
    );
}

/// A text body that is sent on a response without a `Content-Type` and
/// without a `Content-Length` goes out as plain text in UTF-8 with its length
/// in bytes, and the head says both.
pub proof fn law_text_body(r: ResponseModel, text: Seq<char>)
    requires
        lookup(r.headers, "Content-Type"@) is None,
        lookup(r.headers, "Content-Length"@) is None,
    ensures
        ({
            let ready = with_defaults(r, decimal(encode_utf8(text).len()));
            &&& lookup(ready.headers, "Content-Type"@) == Some(ContentType::TextPlain.rendered())
            &&& lookup(ready.headers, "Content-Length"@) == Some(decimal(encode_utf8(text).len()))
            &&& occurs_in(
                head_text(ready),
                header_line(("Content-Type"@, ContentType::TextPlain.rendered())),
            )
            &&& occurs_in(
                head_text(ready),
                header_line(("Content-Length"@, decimal(encode_utf8(text).len()))),
            )
        }),
{
    let length = decimal(encode_utf8(text).len());
    let ready = with_defaults(r, length);
    let typed = put(r.headers, "Content-Type"@, ContentType::TextPlain.rendered());
    reveal_strlit("Content-Type");
    reveal_strlit("Content-Length");
    assert("Content-Type"@ != "Content-Length"@) by {
        assert("Content-Type"@.len() != "Content-Length"@.len());
    }
    lemma_put(r.headers, "Content-Type"@, ContentType::TextPlain.rendered());
    assert(lookup(typed, "Content-Length"@) == lookup(r.headers, "Content-Length"@));
    lemma_put(typed, "Content-Length"@, length);
    assert(ready.headers == put(typed, "Content-Length"@, length));
    assert(lookup(ready.headers, "Content-Type"@) == lookup(typed, "Content-Type"@));
    law_head_holds_header(ready, "Content-Type"@);
    law_head_holds_header(ready, "Content-Length"@);
}

/// A response that is sent without a body says `Content-Length: 0` in its
/// head, whatever its headers were.
pub proof fn law_empty_length(r: ResponseModel)
    ensures
        ({
            let ready = ResponseModel {
                headers: put(r.headers, "Content-Length"@, decimal(0)),
                ..r
            };
            &&& lookup(ready.headers, "Content-Length"@) == Some(seq!['0'])
            &&& occurs_in(head_text(ready), "\r\n"@ + "Content-Length"@ + ": "@ + seq!['0'])
        }),
{
    let ready = ResponseModel { headers: put(r.headers, "Content-Length"@, decimal(0)), ..r };
    lemma_put(r.headers, "Content-Length"@, decimal(0));
    assert(decimal(0) == seq!['0']);
    law_head_holds_header(ready, "Content-Length"@);
}

/// The head of a response whose status was never set, and so is still the
/// one a response starts with, begins with the line `HTTP/1.1 200 Ok`. Every
/// send keeps the status, so this is the head of every send on such a response.
pub proof fn law_default_status(r: ResponseModel)
    requires
        r.status == StatusCode::OK,
    ensures
        starts_with(head_text(r), "HTTP/1.1 200 Ok\r\n"@),
{
    lemma_default_status(r);
}

/// The body is not begun before all of the head is written: where the
/// writing of the head is answered by anything but its completion, the
/// delivery is a write failure.
pub proof fn law_head_first(payload: PayloadModel, event: EventModel)
    requires
        event != EventModel::Done,
    ensures
        turn(
            TransmissionModel { phase: Phase::Head, payload: payload, done: 0 },
            event,
        ) == TurnModel::Report(ReportModel::WriteFailed),
{
}

/// A number written in base ten is made of digits that spell the number.
pub proof fn lemma_decimal_digits(n: nat)
    ensures
        decimal(n).len() >= 1,
        all_digits(decimal(n)),
        digits_value(decimal(n)) == n,
    decreases n,
{
    if n < 10 {
        assert(decimal(n).drop_last() == Seq::<char>::empty());
        assert(digits_value(Seq::<char>::empty()) == 0);
        assert(digit_value(digit(n as int)) == Some(n as int));
    } else {
        lemma_decimal_digits(n / 10);
        let front = decimal(n / 10);
        let last = digit((n % 10) as int);
        assert(decimal(n) == front.push(last));
        assert(decimal(n).drop_last() == front);
        assert(digit_value(last) == Some((n % 10) as int));
        assert forall|i: int| 0 <= i < decimal(n).len() implies (#[trigger] digit_value(
            decimal(n)[i],
        )) is Some by {
            if i < front.len() {
                assert(decimal(n)[i] == front[i]);
            }
        }
    }
}

/// A length that is written as a response writes it is read back as a
/// request reads it: reading the decimal text of a number gives the number.
pub proof fn law_length_round_trip(n: usize)
    ensures
        parse_usize(decimal(n as nat)) == Some(n),
{
    lemma_decimal_digits(n as nat);
    let text = decimal(n as nat);
    assert(digit_value(text[0]) is Some);
    assert(text[0] != '+');
    assert(unsigned_digits(text) == text);
}

/// A text that the stream takes whole goes out in three actions: all of the
/// head is written, then all the bytes of the text and no others, then the
/// stream is flushed; and the delivery is reported as flushed.
pub proof fn law_text_goes_out(head: Seq<char>, text: Seq<char>, taken: usize)
    requires
        encode_utf8(text).len() > 0,
        taken >= encode_utf8(text).len(),
    ensures
        ({
            let payload = PayloadModel::Text(text);
            let waiting = |phase: Phase, done: nat|
                TransmissionModel { phase: phase, payload: payload, done: done };
            &&& first_turn(head, payload) == TurnModel::Perform(
                ActionModel::WriteAll(encode_utf8(head)),
                waiting(Phase::Head, 0),
            )
            &&& turn(waiting(Phase::Head, 0), EventModel::Done) == TurnModel::Perform(
                ActionModel::Write(encode_utf8(text)),
                waiting(Phase::Text, 0),
            )
            &&& turn(waiting(Phase::Text, 0), EventModel::Wrote(taken)) == TurnModel::Perform(
                ActionModel::Flush,
                waiting(Phase::Flushing, encode_utf8(text).len()),
            )
            &&& turn(waiting(Phase::Flushing, encode_utf8(text).len()), EventModel::Done)
                == TurnModel::Report(ReportModel::Flushed)
        }),
{
    assert(encode_utf8(text).skip(0) == encode_utf8(text));
}

/// The extension `json` names JSON.
pub proof fn lemma_json_extension()
    ensures
        ContentType::of_extension("json"@) == ContentType::Json,
{
    reveal_strlit("json");
    reveal_strlit("aac");
    assert("json"@.len() != "aac"@.len());
    reveal_strlit("abw");
    assert("json"@.len() != "abw"@.len());
    reveal_strlit("apng");
    assert("json"@[0] != "apng"@[0]);
    reveal_strlit("arc");
    assert("json"@.len() != "arc"@.len());
    reveal_strlit("avif");
    assert("json"@[0] != "avif"@[0]);
    reveal_strlit("avi");
    assert("json"@.len() != "avi"@.len());
    reveal_strlit("azw");
    assert("json"@.len() != "azw"@.len());
    reveal_strlit("bin");
    assert("json"@.len() != "bin"@.len());
    reveal_strlit("bmp");
    assert("json"@.len() != "bmp"@.len());
    reveal_strlit("bz");
    assert("json"@.len() != "bz"@.len());
    reveal_strlit("bz2");
    assert("json"@.len() != "bz2"@.len());
    reveal_strlit("cda");
    assert("json"@.len() != "cda"@.len());
    reveal_strlit("csh");
    assert("json"@.len() != "csh"@.len());
    reveal_strlit("css");
    assert("json"@.len() != "css"@.len());
    reveal_strlit("csv");
    assert("json"@.len() != "csv"@.len());
    reveal_strlit("doc");
    assert("json"@.len() != "doc"@.len());
    reveal_strlit("docx");
    assert("json"@[0] != "docx"@[0]);
    reveal_strlit("eot");
    assert("json"@.len() != "eot"@.len());
    reveal_strlit("epub");
    assert("json"@[0] != "epub"@[0]);
    reveal_strlit("gz");
    assert("json"@.len() != "gz"@.len());
    reveal_strlit("gif");
    assert("json"@.len() != "gif"@.len());
    reveal_strlit("htm");
    assert("json"@.len() != "htm"@.len());
    reveal_strlit("html");
    assert("json"@[0] != "html"@[0]);
    reveal_strlit("ico");
    assert("json"@.len() != "ico"@.len());
    reveal_strlit("ics");
    assert("json"@.len() != "ics"@.len());
    reveal_strlit("jar");
    assert("json"@.len() != "jar"@.len());
    reveal_strlit("jpeg");
    assert("json"@[1] != "jpeg"@[1]);
    reveal_strlit("js");
    assert("json"@.len() != "js"@.len());
}

/// A file with the extension `json` that is sent on a response without a
/// `Content-Type` and without a `Content-Length` goes out as JSON in UTF-8
/// with the size of the file as its length, or 0 where the size is not known.
pub proof fn law_json_file(r: ResponseModel, body: FileBody)
    requires
        body@.extension == "json"@,
        lookup(r.headers, "Content-Type"@) is None,
        lookup(r.headers, "Content-Length"@) is None,
    ensures
        ({
            let ready = with_defaults(body.prepared(r), body.length_text());
            &&& lookup(ready.headers, "Content-Type"@) == Some(ContentType::Json.rendered())
            &&& lookup(ready.headers, "Content-Length"@) == Some(
                match body@.size {
                    Some(n) => decimal(n as nat),
                    None => decimal(0),
                },
            )
        }),
{
    lemma_json_extension();
    let typed = put(r.headers, "Content-Type"@, ContentType::Json.rendered());
    reveal_strlit("Content-Type");
    reveal_strlit("Content-Length");
    assert("Content-Type"@ != "Content-Length"@) by {
        assert("Content-Type"@.len() != "Content-Length"@.len());
    }
    lemma_put(r.headers, "Content-Type"@, ContentType::Json.rendered());
    assert(body.prepared(r).headers == typed);
    assert(lookup(typed, "Content-Length"@) == lookup(r.headers, "Content-Length"@));
    lemma_put(typed, "Content-Length"@, body.length_text());
}

/// A file at a plain path that ends in `.json` after the start of a file
/// name, sent on a response without a `Content-Type` and without a
/// `Content-Length`, goes out as JSON in UTF-8 with the size of the file as
/// its length, or 0 where the size is not known.
pub proof fn law_json_path(r: ResponseModel, body: FileBody, front: Seq<char>)
    requires
        front.len() > 0,
        front.last() != '/',
        plain_path(front + ".json"@),
        body@.path == front + ".json"@,
        body@.extension == extension_text(body@.path),
        lookup(r.headers, "Content-Type"@) is None,
        lookup(r.headers, "Content-Length"@) is None,
    ensures
        ({
            let ready = with_defaults(body.prepared(r), body.length_text());
            &&& lookup(ready.headers, "Content-Type"@) == Some(ContentType::Json.rendered())
            &&& lookup(ready.headers, "Content-Length"@) == Some(
                match body@.size {
                    Some(n) => decimal(n as nat),
                    None => decimal(0),
                },
            )
        }),
{
    lemma_json_path(front);
    law_json_file(r, body);
}

} // verus!
