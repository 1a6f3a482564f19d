//! Text as sequences of characters: searching, splitting and trimming.
//!
//! Every function here is specified over `Seq<char>`, the view of `str` and
//! `String`. The executable versions work on character slices, so that each
//! index is a character position and never a byte offset.

use vstd::prelude::*;

verus! {

/// `String::push` of the standard library: the string afterwards is the string
/// before with `c` as one more character at its end.
pub assume_specification[ String::push ](s: &mut String, c: char)
    ensures
        final(s)@ == old(s)@.push(c),
;

/// Equality of `str` in the standard library: two string slices are equal
/// exactly when they hold the same characters.
pub assume_specification[ <str as PartialEq>::eq ](a: &str, b: &str) -> (r: bool)
    ensures
        r == (a@ == b@),
;

/// Whether two string slices hold the same characters.
pub fn same_text(a: &str, b: &str) -> (r: bool)
    ensures
        r == (a@ == b@),
{
    *a == *b
}

/// The characters of `s`, in order.
pub fn chars_of(s: &str) -> (v: Vec<char>)
    ensures
        v@ == s@,
{
    let mut v: Vec<char> = Vec::new();
    for c in it: s.chars()
        invariant
            v@ == it.seq().take(it.index()),
            it.seq() == s@,
    {
        v.push(c);
    }
    v
}

/// The string made of the characters `v[from..to]`.
pub fn text_between(v: &[char], from: usize, to: usize) -> (s: String)
    requires
        from <= to <= v@.len(),
    ensures
        s@ == v@.subrange(from as int, to as int),
{
    let mut s = String::new();
    let mut i: usize = from;
    while i < to
        invariant
            from <= i <= to <= v@.len(),
            s@ == v@.subrange(from as int, i as int),
        decreases to - i,
    {
        s.push(v[i]);
        i = i + 1;
    }
    s
}

/// The string made of the characters of `v`.
pub fn text_of(v: &[char]) -> (s: String)
    ensures
        s@ == v@,
{
    let s = text_between(v, 0, v.len());
    assert(v@.subrange(0, v@.len() as int) == v@);
    s
}

/// `pat` stands in `s` at position `i`.
pub open spec fn matches_at(s: Seq<char>, pat: Seq<char>, i: int) -> bool {
    0 <= i && i + pat.len() <= s.len() && s.subrange(i, i + pat.len()) == pat
}

/// The first position at or after `from` where `pat` stands in `s`.
pub open spec fn find_from(s: Seq<char>, pat: Seq<char>, from: int) -> Option<int>
    decreases s.len() - from + 1,
{
    if from < 0 || from + pat.len() > s.len() {
        None
    } else if matches_at(s, pat, from) {
        Some(from)
    } else {
        find_from(s, pat, from + 1)
    }
}

/// The first position where `pat` stands in `s`.
pub open spec fn find(s: Seq<char>, pat: Seq<char>) -> Option<int> {
    find_from(s, pat, 0)
}

/// `s` cut at the first occurrence of `pat`: what stands before it and what
/// stands after it.
pub open spec fn split_once(s: Seq<char>, pat: Seq<char>) -> Option<(Seq<char>, Seq<char>)> {
    match find(s, pat) {
        Some(i) => Some((s.take(i), s.skip(i + pat.len()))),
        None => None,
    }
}

/// The pieces of `s` between the occurrences of `pat`, found from the left and
/// without overlap. There is always at least one piece.
pub open spec fn split(s: Seq<char>, pat: Seq<char>) -> Seq<Seq<char>>
    decreases s.len(),
{
    match find(s, pat) {
        Some(i) => if pat.len() > 0 && 0 <= i && i + pat.len() <= s.len() {
            seq![s.take(i)] + split(s.skip(i + pat.len()), pat)
        } else {
            seq![s]
        },
        None => seq![s],
    }
}

/// `s` without the run of `c` at its end.
pub open spec fn trim_end(s: Seq<char>, c: char) -> Seq<char>
    decreases s.len(),
{
    if s.len() > 0 && s.last() == c {
        trim_end(s.drop_last(), c)
    } else {
        s
    }
}

/// `s` without the run of `c` at its start.
pub open spec fn trim_start(s: Seq<char>, c: char) -> Seq<char>
    decreases s.len(),
{
    if s.len() > 0 && s.first() == c {
        trim_start(s.drop_first(), c)
    } else {
        s
    }
}

/// `s` with every carriage return that a line feed follows removed together
/// with that line feed, scanning from the left.
pub open spec fn without_crlf(s: Seq<char>) -> Seq<char>
    decreases s.len(),
{
    if s.len() == 0 {
        s
    } else if s.len() >= 2 && s[0] == '\r' && s[1] == '\n' {
        without_crlf(s.skip(2))
    } else {
        seq![s[0]] + without_crlf(s.skip(1))
    }
}

/// What `find_from` returns is a match, and nothing matches between `from` and it.
pub proof fn lemma_find_from(s: Seq<char>, pat: Seq<char>, from: int)
    requires
        0 <= from,
    ensures
        match find_from(s, pat, from) {
            Some(i) => from <= i && matches_at(s, pat, i) && forall|j: int|
                from <= j < i ==> !matches_at(s, pat, j),
            None => forall|j: int| from <= j ==> !matches_at(s, pat, j),
        },
    decreases s.len() - from + 1,
{
    if from + pat.len() > s.len() {
    } else if matches_at(s, pat, from) {
    } else {
        lemma_find_from(s, pat, from + 1);
    }
}

/// A match with none before it is what `find_from` returns.
pub proof fn lemma_find_from_is(s: Seq<char>, pat: Seq<char>, from: int, i: int)
    requires
        0 <= from <= i,
        matches_at(s, pat, i),
        forall|j: int| from <= j < i ==> !matches_at(s, pat, j),
    ensures
        find_from(s, pat, from) == Some(i),
    decreases i - from,
{
    if from < i {
        lemma_find_from_is(s, pat, from + 1, i);
    }
}

/// Searching in what follows the first `k` characters is searching from `k`.
pub proof fn lemma_find_skip(s: Seq<char>, pat: Seq<char>, k: int, from: int)
    requires
        0 <= k <= s.len(),
        0 <= from,
    ensures
        find_from(s.skip(k), pat, from) == match find_from(s, pat, k + from) {
            Some(i) => Some(i - k),
            None => None,
        },
    decreases s.len() - k - from + 1,
{
    let t = s.skip(k);
    if from + pat.len() > t.len() {
    } else {
        assert(t.subrange(from, from + pat.len()) == s.subrange(k + from, k + from + pat.len()));
        if matches_at(t, pat, from) {
        } else {
            lemma_find_skip(s, pat, k, from + 1);
        }
    }
}

/// The first position at or after `from` where `pat` stands in `s`.
pub fn find_in(s: &[char], pat: &[char], from: usize) -> (r: Option<usize>)
    ensures
        match r {
            Some(i) => find_from(s@, pat@, from as int) == Some(i as int),
            None => find_from(s@, pat@, from as int) is None,
        },
{
    let n = s.len();
    let m = pat.len();
    if m > n {
        return None;
    }
    let mut i: usize = from;
    while i <= n - m
        invariant
            n == s@.len(),
            m == pat@.len(),
            m <= n,
            from <= i,
            find_from(s@, pat@, from as int) == find_from(s@, pat@, i as int),
        decreases n - i,
    {
        let mut j: usize = 0;
        while j < m && s[i + j] == pat[j]
            invariant
                n == s@.len(),
                m == pat@.len(),
                i + m <= n,
                j <= m,
                s@.subrange(i as int, i + j) == pat@.subrange(0, j as int),
            decreases m - j,
        {
            assert(s@.subrange(i as int, i + j + 1) == s@.subrange(i as int, i + j).push(
                s@[i + j],
            ));
            assert(pat@.subrange(0, j + 1) == pat@.subrange(0, j as int).push(pat@[j as int]));
            j = j + 1;
        }
        if j == m {
            assert(pat@.subrange(0, m as int) == pat@);
            return Some(i);
        }
        assert(!matches_at(s@, pat@, i as int)) by {
            if matches_at(s@, pat@, i as int) {
                assert(s@.subrange(i as int, i + m)[j as int] == pat@[j as int]);
            }
        }
        i = i + 1;
    }
    None
}

/// The characters `v[from..to]` as a vector of their own.
pub fn copy_between(v: &[char], from: usize, to: usize) -> (r: Vec<char>)
    requires
        from <= to <= v@.len(),
    ensures
        r@ == v@.subrange(from as int, to as int),
{
    let mut r: Vec<char> = Vec::new();
    let mut i: usize = from;
    while i < to
        invariant
            from <= i <= to <= v@.len(),
            r@ == v@.subrange(from as int, i as int),
        decreases to - i,
    {
        r.push(v[i]);
        i = i + 1;
    }
    r
}

/// `s` cut at the first occurrence of `pat`, as two strings.
pub fn cut(s: &[char], pat: &[char]) -> (r: Option<(String, String)>)
    ensures
        match r {
            Some((head, tail)) => split_once(s@, pat@) == Some((head@, tail@)),
            None => split_once(s@, pat@) is None,
        },
{
    match find_in(s, pat, 0) {
        Some(i) => {
            proof {
                lemma_find_from(s@, pat@, 0);
                assert(matches_at(s@, pat@, i as int));
            }
            let n = s.len();
            let head = text_between(s, 0, i);
            let tail = text_between(s, i + pat.len(), n);
            Some((head, tail))
        },
        None => None,
    }
}

/// The pieces of `s` between the occurrences of `pat`.
pub fn pieces(s: &[char], pat: &[char]) -> (r: Vec<Vec<char>>)
    ensures
        r@.len() == split(s@, pat@).len(),
        forall|k: int| 0 <= k < r@.len() ==> (#[trigger] r@[k])@ == split(s@, pat@)[k],
{
    let n = s.len();
    let m = pat.len();
    let mut r: Vec<Vec<char>> = Vec::new();
    let ghost mut done: Seq<Seq<char>> = Seq::empty();
    let mut start: usize = 0;
    let mut more = true;
    proof {
        assert(s@.skip(0) == s@);
        assert(done + split(s@, pat@) == split(s@, pat@));
    }
    while more
        invariant
            n == s@.len(),
            m == pat@.len(),
            start <= n,
            r@.len() == done.len(),
            forall|k: int| 0 <= k < r@.len() ==> (#[trigger] r@[k])@ == done[k],
            more ==> split(s@, pat@) == done + split(s@.skip(start as int), pat@),
            !more ==> split(s@, pat@) == done,
        decreases n - start, if more { 1int } else { 0int },
    {
        let ghost rest = s@.skip(start as int);
        proof {
            lemma_find_skip(s@, pat@, start as int, 0);
            lemma_find_from(s@, pat@, start as int);
        }
        let found = find_in(s, pat, start);
        match found {
            Some(i) => {
                if m == 0 {
                    let piece = copy_between(s, start, n);
                    proof {
                        assert(s@.subrange(start as int, n as int) == rest);
                        done = done.push(rest);
                        assert(done == done.drop_last() + seq![rest]);
                    }
                    r.push(piece);
                    more = false;
                } else {
                    let piece = copy_between(s, start, i);
                    proof {
                        assert(rest.take(i - start) == s@.subrange(start as int, i as int));
                        assert(rest.skip(i - start + m) == s@.skip(i + m));
                        assert(split(rest, pat@) == seq![rest.take(i - start)] + split(
                            rest.skip(i - start + m),
                            pat@,
                        ));
                        let before = done;
                        done = done.push(rest.take(i - start));
                        assert(before + (seq![rest.take(i - start)] + split(
                            s@.skip(i + m),
                            pat@,
                        )) == done + split(s@.skip(i + m), pat@));
                    }
                    r.push(piece);
                    start = i + m;
                }
            },
            None => {
                let piece = copy_between(s, start, n);
                proof {
                    assert(s@.subrange(start as int, n as int) == rest);
                    done = done.push(rest);
                    assert(done == done.drop_last() + seq![rest]);
                }
                r.push(piece);
                more = false;
            },
        }
    }
    r
}

/// `s` with every carriage return and line feed pair removed.
pub fn strip_crlf(s: &[char]) -> (r: Vec<char>)
    ensures
        r@ == without_crlf(s@),
{
    let n = s.len();
    let mut r: Vec<char> = Vec::new();
    let mut i: usize = 0;
    proof {
        assert(s@.skip(0) == s@);
        assert(r@ + without_crlf(s@) == without_crlf(s@));
    }
    while i < n
        invariant
            n == s@.len(),
            i <= n,
            without_crlf(s@) == r@ + without_crlf(s@.skip(i as int)),
        decreases n - i,
    {
        let ghost rest = s@.skip(i as int);
        let ghost before = r@;
        if s[i] == '\r' && i + 1 < n && s[i + 1] == '\n' {
            assert(rest.skip(2) == s@.skip(i + 2));
            i = i + 2;
        } else {
            assert(rest.skip(1) == s@.skip(i + 1));
            r.push(s[i]);
            assert(before + (seq![rest[0]] + without_crlf(rest.skip(1))) == r@ + without_crlf(
                rest.skip(1),
            ));
            i = i + 1;
        }
    }
    assert(r@ + Seq::<char>::empty() == r@);
    r
}

/// Where `s` ends once the run of `c` at its end is left out.
pub fn end_without(s: &[char], c: char) -> (end: usize)
    ensures
        end <= s@.len(),
        trim_end(s@, c) == s@.take(end as int),
{
    let mut end: usize = s.len();
    assert(s@.take(end as int) == s@);
    while end > 0 && s[end - 1] == c
        invariant
            end <= s@.len(),
            trim_end(s@, c) == trim_end(s@.take(end as int), c),
        decreases end,
    {
        assert(s@.take(end as int).drop_last() == s@.take(end - 1));
        end = end - 1;
    }
    end
}

/// Where `s[..end]` starts once the run of `c` at its start is left out.
pub fn start_without(s: &[char], end: usize, c: char) -> (start: usize)
    requires
        end <= s@.len(),
    ensures
        start <= end,
        trim_start(s@.take(end as int), c) == s@.subrange(start as int, end as int),
{
    let mut start: usize = 0;
    assert(s@.subrange(0, end as int) == s@.take(end as int));
    while start < end && s[start] == c
        invariant
            start <= end <= s@.len(),
            trim_start(s@.take(end as int), c) == trim_start(
                s@.subrange(start as int, end as int),
                c,
            ),
        decreases end - start,
    {
        assert(s@.subrange(start as int, end as int).drop_first() == s@.subrange(
            start + 1,
            end as int,
        ));
        start = start + 1;
    }
    start
}

/// The texts that the strings hold.
pub open spec fn texts(items: Seq<String>) -> Seq<Seq<char>> {
    Seq::new(items.len(), |i: int| items[i]@)
}

/// The first `n` of `items`, one after the other with `sep` between them.
pub open spec fn joined(items: Seq<Seq<char>>, sep: Seq<char>, n: int) -> Seq<char>
    decreases n,
{
    if n <= 0 {
        Seq::empty()
    } else if n == 1 {
        items[0]
    } else {
        joined(items, sep, n - 1) + sep + items[n - 1]
    }
}

/// `items`, one after the other with `sep` between them.
pub fn join_texts(items: &Vec<String>, sep: &str) -> (r: String)
    ensures
        r@ == joined(texts(items@), sep@, items@.len() as int),
{
    let mut r = String::new();
    let mut i: usize = 0;
    while i < items.len()
        invariant
            i <= items@.len(),
            r@ == joined(texts(items@), sep@, i as int),
        decreases items@.len() - i,
    {
        if i > 0 {
            let s = chars_of(sep);
            let mut k: usize = 0;
            let ghost before = r@;
            while k < s.len()
                invariant
                    k <= s@.len(),
                    s@ == sep@,
                    r@ == before + sep@.take(k as int),
                decreases s@.len() - k,
            {
                r.push(s[k]);
                assert(sep@.take(k + 1) == sep@.take(k as int).push(sep@[k as int]));
                k = k + 1;
            }
            assert(sep@.take(sep@.len() as int) == sep@);
        }
        let item = chars_of(items[i].as_str());
        let ghost before = r@;
        let mut k: usize = 0;
        while k < item.len()
            invariant
                k <= item@.len(),
                r@ == before + item@.take(k as int),
            decreases item@.len() - k,
        {
            r.push(item[k]);
            assert(item@.take(k + 1) == item@.take(k as int).push(item@[k as int]));
            k = k + 1;
        }
        assert(item@.take(item@.len() as int) == item@);
        assert(texts(items@)[i as int] == item@);
        i = i + 1;
    }
    r
}

/// Whether `c` is white space: the characters that Unicode gives the
/// property `White_Space`.
pub open spec fn is_space(c: char) -> bool {
    let n = c as u32;
    (0x9 <= n <= 0xd) || n == 0x20 || n == 0x85 || n == 0xa0 || n == 0x1680 || (0x2000 <= n
        <= 0x200a) || n == 0x2028 || n == 0x2029 || n == 0x202f || n == 0x205f || n == 0x3000
}

/// `s` without the white space at its end.
pub open spec fn trim_space_end(s: Seq<char>) -> Seq<char>
    decreases s.len(),
{
    if s.len() > 0 && is_space(s.last()) {
        trim_space_end(s.drop_last())
    } else {
        s
    }
}

/// `s` without the white space at its start.
pub open spec fn trim_space_start(s: Seq<char>) -> Seq<char>
    decreases s.len(),
{
    if s.len() > 0 && is_space(s.first()) {
        trim_space_start(s.drop_first())
    } else {
        s
    }
}

/// `s` without the white space at both of its ends.
pub open spec fn trimmed(s: Seq<char>) -> Seq<char> {
    trim_space_start(trim_space_end(s))
}

/// Whether `c` is white space.
pub fn space(c: char) -> (b: bool)
    ensures
        b == is_space(c),
{
    let n = c as u32;
    (0x9 <= n && n <= 0xd) || n == 0x20 || n == 0x85 || n == 0xa0 || n == 0x1680 || (0x2000 <= n
        && n <= 0x200a) || n == 0x2028 || n == 0x2029 || n == 0x202f || n == 0x205f || n == 0x3000
}

/// `s` without the white space at both of its ends.
pub fn trim_text(s: &str) -> (r: String)
    ensures
        r@ == trimmed(s@),
{
    let chars = chars_of(s);
    let mut end: usize = chars.len();
    assert(chars@.take(end as int) == chars@);
    while end > 0 && space(chars[end - 1])
        invariant
            end <= chars@.len(),
            trim_space_end(chars@) == trim_space_end(chars@.take(end as int)),
        decreases end,
    {
        assert(chars@.take(end as int).drop_last() == chars@.take(end - 1));
        end = end - 1;
    }
    let mut start: usize = 0;
    assert(chars@.subrange(0, end as int) == chars@.take(end as int));
    while start < end && space(chars[start])
        invariant
            start <= end <= chars@.len(),
            trim_space_start(chars@.take(end as int)) == trim_space_start(
                chars@.subrange(start as int, end as int),
            ),
        decreases end - start,
    {
        assert(chars@.subrange(start as int, end as int).drop_first() == chars@.subrange(
            start + 1,
            end as int,
        ));
        start = start + 1;
    }
    text_between(chars.as_slice(), start, end)
}

} // verus!
