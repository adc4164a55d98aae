//! The sequencer's answer to a `get_last_block` request: an HTTP response
//! whose body is a JSON-RPC reply holding `result.last_block`.

use vstd::prelude::*;
use crate::text::{
    to_chars, string_of_range, trim, trim_start, trim_range, lines, line_ranges, is_ws,
    is_whitespace,
};

verus! {

/// What `serde_json::from_str::<Value>` makes of a text, read at
/// `value[outer][inner]` with `Value::as_u64`: `Err` with the `Display` text
/// of serde's error where it refuses the text; `Ok(Some(n))` where that entry
/// is an integer from 0 to `u64::MAX`; `Ok(None)` where it is anything else
/// or missing (indexing a `Value` by a key it lacks gives `Null`).
pub uninterp spec fn json_u64_at(text: Seq<char>, outer: Seq<char>, inner: Seq<char>) -> Result<
    Option<u64>,
    Seq<char>,
>;

/// `serde_json::from_str::<Value>`, then `value[outer][inner].as_u64()`, or
/// the `Display` text of serde's error. Trusted to agree with `json_u64_at`.
#[verifier::external_body]
fn read_u64_at(text: &str, outer: &str, inner: &str) -> (r: Result<Option<u64>, String>)
    ensures
        match r {
            Ok(h) => json_u64_at(text@, outer@, inner@) == Ok::<Option<u64>, Seq<char>>(h),
            Err(m) => json_u64_at(text@, outer@, inner@) == Err::<Option<u64>, Seq<char>>(m@),
        },
{
    match serde_json::from_str::<serde_json::Value>(text) {
        Ok(v) => Ok(v[outer][inner].as_u64()),
        Err(e) => Err(e.to_string()),
    }
}

/// The key of a JSON-RPC reply that holds the answer.
pub const RESULT_KEY: &'static str = "result";

/// The key of the answer that holds the last block's height.
pub const LAST_BLOCK_KEY: &'static str = "last_block";

/// Why a reply gave no block height.
#[derive(Debug, Clone, PartialEq, Eq)]
pub enum RpcReplyError {
    /// No blank line separates the HTTP head from the body.
    Malformed,
    /// The status is not a success (2xx); this is the status line.
    HttpStatus(String),
    /// The body is not JSON; this is what serde_json said.
    InvalidJson(String),
    /// The body holds no `result.last_block` height; this is the body.
    Unexpected(String),
}

/// The mathematical value of an [`RpcReplyError`].
pub enum RpcReplyErrorView {
    Malformed,
    HttpStatus(Seq<char>),
    InvalidJson(Seq<char>),
    Unexpected(Seq<char>),
}

impl View for RpcReplyError {
    type V = RpcReplyErrorView;

    open spec fn view(&self) -> RpcReplyErrorView {
        match self {
            RpcReplyError::Malformed => RpcReplyErrorView::Malformed,
            RpcReplyError::HttpStatus(l) => RpcReplyErrorView::HttpStatus(l@),
            RpcReplyError::InvalidJson(m) => RpcReplyErrorView::InvalidJson(m@),
            RpcReplyError::Unexpected(b) => RpcReplyErrorView::Unexpected(b@),
        }
    }
}

/// The message of a reply error.
pub open spec fn reply_error_text(e: RpcReplyErrorView) -> Seq<char> {
    match e {
        RpcReplyErrorView::Malformed => "malformed HTTP response"@,
        RpcReplyErrorView::HttpStatus(l) => "HTTP error: "@ + l,
        RpcReplyErrorView::InvalidJson(m) => "invalid JSON-RPC response: "@ + m,
        RpcReplyErrorView::Unexpected(b) => "unexpected JSON-RPC response: "@ + b,
    }
}

impl RpcReplyError {
    /// The message that the command line prints for this error.
    pub fn message(&self) -> (s: String)
        ensures
            s@ == reply_error_text(self@),
    {
        match self {
            RpcReplyError::Malformed => String::from_str("malformed HTTP response"),
            RpcReplyError::HttpStatus(l) => {
                let mut s = String::from_str("HTTP error: ");
                s.append(l.as_str());
                s
            },
            RpcReplyError::InvalidJson(m) => {
                let mut s = String::from_str("invalid JSON-RPC response: ");
                s.append(m.as_str());
                s
            },
            RpcReplyError::Unexpected(b) => {
                let mut s = String::from_str("unexpected JSON-RPC response: ");
                s.append(b.as_str());
                s
            },
        }
    }
}

/// The value of a reply's outcome.
pub open spec fn reply_view(r: Result<u64, RpcReplyError>) -> Result<u64, RpcReplyErrorView> {
    match r {
        Ok(h) => Ok(h),
        Err(e) => Err(e@),
    }
}

/// Whether the blank line `\r\n\r\n` that ends an HTTP head starts at `i`.
pub open spec fn head_end_at(s: Seq<char>, i: int) -> bool {
    0 <= i && i + 4 <= s.len() && s[i] == '\r' && s[i + 1] == '\n' && s[i + 2] == '\r' && s[i
        + 3] == '\n'
}

/// Where the first `\r\n\r\n` at or after `i` starts, if anywhere.
pub open spec fn find_head_end(s: Seq<char>, i: int) -> Option<int>
    decreases s.len() - i,
{
    if i < 0 || i + 4 > s.len() {
        None
    } else if head_end_at(s, i) {
        Some(i)
    } else {
        find_head_end(s, i + 1)
    }
}

/// The first line of an HTTP head, or nothing where the head is empty.
pub open spec fn status_line(head: Seq<char>) -> Seq<char> {
    if lines(head).len() > 0 {
        lines(head)[0]
    } else {
        Seq::<char>::empty()
    }
}

/// `s` without the word it starts with.
pub open spec fn drop_word(s: Seq<char>) -> Seq<char>
    decreases s.len(),
{
    if s.len() > 0 && !is_ws(s[0]) {
        drop_word(s.drop_first())
    } else {
        s
    }
}

/// Whether the second word of a status line (the status code) starts with
/// `2`.
pub open spec fn status_ok(line: Seq<char>) -> bool {
    let code = trim_start(drop_word(trim_start(line)));
    code.len() > 0 && code[0] == '2'
}

/// What a body gives, from what serde_json read at `result.last_block`.
pub open spec fn body_outcome(body: Seq<char>, read: Result<Option<u64>, Seq<char>>) -> Result<
    u64,
    RpcReplyErrorView,
> {
    match read {
        Err(m) => Err(RpcReplyErrorView::InvalidJson(m)),
        Ok(None) => Err(RpcReplyErrorView::Unexpected(body)),
        Ok(Some(h)) => Ok(h),
    }
}

/// What a whole HTTP response gives: the head ends at the first blank line;
/// a status that is not 2xx is refused; the body, trimmed, is read as JSON.
pub open spec fn reply_outcome(s: Seq<char>) -> Result<u64, RpcReplyErrorView> {
    match find_head_end(s, 0) {
        None => Err(RpcReplyErrorView::Malformed),
        Some(i) => {
            let line = status_line(s.take(i));
            if !status_ok(line) {
                Err(RpcReplyErrorView::HttpStatus(line))
            } else {
                let body = trim(s.skip(i + 4));
                body_outcome(body, json_u64_at(body, RESULT_KEY@, LAST_BLOCK_KEY@))
            }
        },
    }
}

/// The block height that a body gives, from what serde_json read in it.
pub fn body_height(body: &str, read: Result<Option<u64>, String>) -> (r: Result<u64, RpcReplyError>)
    ensures
        reply_view(r) == body_outcome(
            body@,
            match read {
                Ok(h) => Ok::<Option<u64>, Seq<char>>(h),
                Err(m) => Err::<Option<u64>, Seq<char>>(m@),
            },
        ),
{
    match read {
        Err(m) => Err(RpcReplyError::InvalidJson(m)),
        Ok(None) => Err(RpcReplyError::Unexpected(String::from_str(body))),
        Ok(Some(h)) => Ok(h),
    }
}

/// Where the first `\r\n\r\n` of `v` starts, if anywhere.
fn head_end(v: &Vec<char>) -> (r: Option<usize>)
    ensures
        match r {
            Some(i) => find_head_end(v@, 0) == Some(i as int) && i + 4 <= v@.len(),
            None => find_head_end(v@, 0) is None,
        },
{
    let n = v.len();
    if n < 4 {
        return None;
    }
    let mut i: usize = 0;
    while i <= n - 4
        invariant
            n == v@.len(),
            n >= 4,
            i <= n - 3,
            find_head_end(v@, 0) == find_head_end(v@, i as int),
        decreases n - i,
    {
        if v[i] == '\r' && v[i + 1] == '\n' && v[i + 2] == '\r' && v[i + 3] == '\n' {
            return Some(i);
        }
        i = i + 1;
    }
    None
}

/// Whether the status line `v[start..end]` reports a success.
fn status_ok_range(v: &Vec<char>, start: usize, end: usize) -> (r: bool)
    requires
        start <= end <= v@.len(),
    ensures
        r == status_ok(v@.subrange(start as int, end as int)),
{
    let ghost line = v@.subrange(start as int, end as int);
    let mut i = start;
    while i < end && is_whitespace(v[i])
        invariant
            start <= i <= end <= v@.len(),
            trim_start(line) == trim_start(v@.subrange(i as int, end as int)),
        decreases end - i,
    {
        assert(v@.subrange(i as int, end as int).drop_first() == v@.subrange(i + 1, end as int));
        i = i + 1;
    }
    assert(trim_start(v@.subrange(i as int, end as int)) == v@.subrange(i as int, end as int));
    while i < end && !is_whitespace(v[i])
        invariant
            start <= i <= end <= v@.len(),
            drop_word(trim_start(line)) == drop_word(v@.subrange(i as int, end as int)),
        decreases end - i,
    {
        assert(v@.subrange(i as int, end as int).drop_first() == v@.subrange(i + 1, end as int));
        i = i + 1;
    }
    assert(drop_word(v@.subrange(i as int, end as int)) == v@.subrange(i as int, end as int));
    while i < end && is_whitespace(v[i])
        invariant
            start <= i <= end <= v@.len(),
            trim_start(drop_word(trim_start(line))) == trim_start(v@.subrange(i as int, end as int)),
        decreases end - i,
    {
        assert(v@.subrange(i as int, end as int).drop_first() == v@.subrange(i + 1, end as int));
        i = i + 1;
    }
    assert(trim_start(v@.subrange(i as int, end as int)) == v@.subrange(i as int, end as int));
    i < end && v[i] == '2'
}

/// The last block height that the sequencer's HTTP response reports.
pub fn last_block_of_reply(response: &str) -> (r: Result<u64, RpcReplyError>)
    ensures
        reply_view(r) == reply_outcome(response@),
{
    let v = to_chars(response);
    let n = v.len();
    let found = head_end(&v);
    if found.is_none() {
        return Err(RpcReplyError::Malformed);
    }
    let i = found.unwrap();
    assert(i + 4 <= n);
    let head = to_chars(string_of_range(&v, 0, i).as_str());
    assert(head@ == v@.take(i as int));
    let rs = line_ranges(&head);
    if rs.len() == 0 {
        assert(status_line(head@) == Seq::<char>::empty());
        assert(!status_ok(Seq::<char>::empty()));
        return Err(RpcReplyError::HttpStatus(String::new()));
    }
    let (a, b) = rs[0];
    let line = string_of_range(&head, a, b);
    if !status_ok_range(&head, a, b) {
        return Err(RpcReplyError::HttpStatus(line));
    }
    let (bs, be) = trim_range(&v, i + 4, n);
    let body = string_of_range(&v, bs, be);
    let read = read_u64_at(body.as_str(), RESULT_KEY, LAST_BLOCK_KEY);
    body_height(body.as_str(), read)
}

} // verus!
