//! The request line: `METHOD /path HTTP/VERSION`.
//!
//! Only the first line of a request is read, and only retrieval is served.
//! A line is cut at `/` into segments and at white space into words: the
//! method is what stands before the first `/`, the target is the second word,
//! and the version is what follows the last `/`.

use crate::text::{find_char, position_of, same_text, slice_of, to_chars};
use vstd::prelude::*;

verus! {

/// White space as `char::is_whitespace` defines it: the code points with the
/// Unicode property `White_Space`.
pub open spec fn is_space(c: char) -> bool {
    let u = c as u32;
    ||| 0x09 <= u <= 0x0d
    ||| u == 0x20
    ||| u == 0x85
    ||| u == 0xa0
    ||| u == 0x1680
    ||| 0x2000 <= u <= 0x200a
    ||| u == 0x2028
    ||| u == 0x2029
    ||| u == 0x202f
    ||| u == 0x205f
    ||| u == 0x3000
}

/// Tests a character for white space.
pub fn is_whitespace(c: char) -> (b: bool)
    ensures
        b == is_space(c),
{
    let u: u32 = c as u32;
    (0x09 <= u && u <= 0x0d) || u == 0x20 || u == 0x85 || u == 0xa0 || u == 0x1680 || (0x2000 <= u
        && u <= 0x200a) || u == 0x2028 || u == 0x2029 || u == 0x202f || u == 0x205f || u == 0x3000
}

/// The first position at or after `from` that holds no white space, or the
/// length of `s`.
pub open spec fn skip_spaces(s: Seq<char>, from: int) -> int
    decreases s.len() - from,
{
    if from >= s.len() {
        s.len() as int
    } else if !is_space(s[from]) {
        from
    } else {
        skip_spaces(s, from + 1)
    }
}

/// The first position at or after `from` that holds white space, or the
/// length of `s`.
pub open spec fn skip_word(s: Seq<char>, from: int) -> int
    decreases s.len() - from,
{
    if from >= s.len() {
        s.len() as int
    } else if is_space(s[from]) {
        from
    } else {
        skip_word(s, from + 1)
    }
}

/// The end of `s` once the white space that ends before `to` is left off.
pub open spec fn trim_end(s: Seq<char>, to: int) -> int
    decreases to,
{
    if to <= 0 {
        0
    } else if !is_space(s[to - 1]) {
        to
    } else {
        trim_end(s, to - 1)
    }
}

/// `s` without the white space at its two ends.
pub open spec fn trimmed(s: Seq<char>) -> Seq<char> {
    let a = skip_spaces(s, 0);
    let b = trim_end(s, s.len() as int);
    if a >= b {
        Seq::empty()
    } else {
        s.subrange(a, b)
    }
}

/// The last position before `to` where `c` stands in `s`, or `-1`.
pub open spec fn last_position_of(s: Seq<char>, c: char, to: int) -> int
    decreases to,
{
    if to <= 0 {
        -1
    } else if s[to - 1] == c {
        to - 1
    } else {
        last_position_of(s, c, to - 1)
    }
}

/// Whether the line has at least three segments, that is two `/`.
pub open spec fn has_three_segments(line: Seq<char>) -> bool {
    let first = position_of(line, '/', 0);
    first < line.len() && position_of(line, '/', first + 1) < line.len()
}

/// The method: the first segment without the white space round it.
pub open spec fn method_of(line: Seq<char>) -> Seq<char> {
    trimmed(line.subrange(0, position_of(line, '/', 0)))
}

/// Where the second word of the line starts; the length of the line when it
/// has fewer than two words.
pub open spec fn target_start(line: Seq<char>) -> int {
    skip_spaces(line, skip_word(line, skip_spaces(line, 0)))
}

/// The target: the second word of the line.
pub open spec fn target_of(line: Seq<char>) -> Seq<char> {
    line.subrange(target_start(line), skip_word(line, target_start(line)))
}

/// The version: what follows the last `/`.
pub open spec fn version_of(line: Seq<char>) -> Seq<char> {
    line.subrange(last_position_of(line, '/', line.len() as int) + 1, line.len() as int)
}

/// What a request line asks for.
#[derive(Clone, Debug, PartialEq, Eq)]
pub enum RequestLine {
    /// Fewer than three segments, or no second word: answered with 400.
    Malformed,
    /// A method other than `GET`: answered with 501.
    Unsupported,
    /// A retrieval of `target`, by a client that speaks `version`.
    Get { target: String, version: String },
}

/// What a request line asks for, over plain text.
pub enum Request {
    Malformed,
    Unsupported,
    Get { target: Seq<char>, version: Seq<char> },
}

impl View for RequestLine {
    type V = Request;

    open spec fn view(&self) -> Request {
        match self {
            RequestLine::Malformed => Request::Malformed,
            RequestLine::Unsupported => Request::Unsupported,
            RequestLine::Get { target, version } => Request::Get {
                target: target@,
                version: version@,
            },
        }
    }
}

/// The reading of a request line. A line with fewer than three segments is
/// malformed; then one whose method is not `GET` is unsupported; then one
/// without a second word is malformed; any other is a retrieval.
pub open spec fn request_of(line: Seq<char>) -> Request {
    if !has_three_segments(line) {
        Request::Malformed
    } else if method_of(line) != "GET"@ {
        Request::Unsupported
    } else if target_start(line) >= line.len() {
        Request::Malformed
    } else {
        Request::Get { target: target_of(line), version: version_of(line) }
    }
}

/// The status that a request line alone decides: 400, 501, or 200 so far.
pub open spec fn status_of(request: Request) -> i32 {
    match request {
        Request::Malformed => 400,
        Request::Unsupported => 501,
        Request::Get { .. } => 200,
    }
}

fn skip_spaces_from(s: &Vec<char>, from: usize) -> (i: usize)
    requires
        from <= s.len(),
    ensures
        i == skip_spaces(s@, from as int),
        from <= i <= s.len(),
{
    let mut i: usize = from;
    while i < s.len() && is_whitespace(s[i])
        invariant
            from <= i <= s.len(),
            skip_spaces(s@, from as int) == skip_spaces(s@, i as int),
        decreases s.len() - i,
    {
        i += 1;
    }
    i
}

fn skip_word_from(s: &Vec<char>, from: usize) -> (i: usize)
    requires
        from <= s.len(),
    ensures
        i == skip_word(s@, from as int),
        from <= i <= s.len(),
{
    let mut i: usize = from;
    while i < s.len() && !is_whitespace(s[i])
        invariant
            from <= i <= s.len(),
            skip_word(s@, from as int) == skip_word(s@, i as int),
        decreases s.len() - i,
    {
        i += 1;
    }
    i
}

fn trim_end_before(s: &Vec<char>, to: usize) -> (i: usize)
    requires
        to <= s.len(),
    ensures
        i == trim_end(s@, to as int),
        i <= to,
{
    let mut i: usize = to;
    while i > 0 && is_whitespace(s[i - 1])
        invariant
            i <= to <= s.len(),
            trim_end(s@, to as int) == trim_end(s@, i as int),
        decreases i,
    {
        i -= 1;
    }
    i
}

fn last_slash_before(s: &Vec<char>, to: usize) -> (i: usize)
    requires
        to <= s.len(),
    ensures
        i == last_position_of(s@, '/', to as int) + 1,
        i <= to,
{
    let mut i: usize = to;
    while i > 0 && s[i - 1] != '/'
        invariant
            i <= to <= s.len(),
            last_position_of(s@, '/', to as int) == last_position_of(s@, '/', i as int),
        decreases i,
    {
        i -= 1;
    }
    i
}

/// Tests whether `s`, without the white space at its ends, is `word`.
pub fn trimmed_is(s: &Vec<char>, word: &str) -> (b: bool)
    ensures
        b == (trimmed(s@) == word@),
{
    let a = skip_spaces_from(s, 0);
    let b = trim_end_before(s, s.len());
    let w = to_chars(word);
    if a >= b {
        assert(trimmed(s@) == Seq::<char>::empty());
        let empty = w.len() == 0;
        assert(empty == (word@ =~= Seq::<char>::empty()));
        empty
    } else {
        let mut inner: Vec<char> = Vec::new();
        let mut i: usize = a;
        while i < b
            invariant
                a <= i <= b <= s.len(),
                inner@ == s@.subrange(a as int, i as int),
            decreases b - i,
        {
            inner.push(s[i]);
            assert(inner@ =~= s@.subrange(a as int, i + 1));
            i += 1;
        }
        same_text(&inner, &w)
    }
}

/// Reads a request line.
pub fn parse_request_line(line: &str) -> (r: RequestLine)
    ensures
        r@ == request_of(line@),
{
    let chars = to_chars(line);
    let n = chars.len();
    let first = find_char(&chars, '/', 0);
    if first >= n {
        return RequestLine::Malformed;
    }
    let second = find_char(&chars, '/', first + 1);
    if second >= n {
        return RequestLine::Malformed;
    }
    let method = slice_of(line, 0, first);
    let method_chars = to_chars(method.as_str());
    if !trimmed_is(&method_chars, "GET") {
        return RequestLine::Unsupported;
    }
    let first_word = skip_spaces_from(&chars, 0);
    let first_end = skip_word_from(&chars, first_word);
    let start = skip_spaces_from(&chars, first_end);
    if start >= n {
        return RequestLine::Malformed;
    }
    let end = skip_word_from(&chars, start);
    let after_slash = last_slash_before(&chars, n);
    RequestLine::Get { target: slice_of(line, start, end), version: slice_of(line, after_slash, n) }
}

} // verus!
