use vstd::prelude::*;
use vstd::utf8::encode_utf8;
use crate::text::dec_rep;
use crate::text::str_eq;
use crate::text::usize_to_string;

verus! {

/// What one authentication attempt's callback delivered. Exactly one of
/// these is produced per attempt.
pub enum CallbackOutcome {
    /// The provider delivered an authorization code and the state matched.
    Code(String),
    /// The provider reported an OAuth error; carries the error value.
    ProviderError(String),
    /// The received state did not match the expected one: a security failure.
    StateMismatch,
    /// The state matched but no non-empty code was delivered.
    NoCode,
    /// No callback arrived within the configured bound.
    Timeout,
}

/// Index of the first occurrence of `c` in `s`, if any.
pub open spec fn first_index_of(s: Seq<char>, c: char) -> Option<int>
    decreases s.len(),
{
    if s.len() == 0 {
        None
    } else if s[0] == c {
        Some(0int)
    } else {
        match first_index_of(s.drop_first(), c) {
            None => None,
            Some(j) => Some(j + 1),
        }
    }
}

/// What `first_index_of` finds is the first occurrence.
pub proof fn lemma_first_index_of(s: Seq<char>, c: char)
    ensures
        match first_index_of(s, c) {
            None => forall|j: int| 0 <= j < s.len() ==> #[trigger] s[j] != c,
            Some(i) => 0 <= i < s.len() && s[i] == c && (forall|j: int|
                0 <= j < i ==> #[trigger] s[j] != c),
        },
    decreases s.len(),
{
    if s.len() == 0 {
    } else if s[0] == c {
    } else {
        let rest = s.drop_first();
        lemma_first_index_of(rest, c);
        match first_index_of(s, c) {
            None => {
                assert forall|j: int| 0 <= j < s.len() implies #[trigger] s[j] != c by {
                    if j > 0 {
                        assert(rest[j - 1] != c);
                        assert(s[j] == rest[j - 1]);
                    }
                }
            },
            Some(i) => {
                assert(s[i] == rest[i - 1]);
                assert forall|j: int| 0 <= j < i implies #[trigger] s[j] != c by {
                    if j > 0 {
                        assert(rest[j - 1] != c);
                        assert(s[j] == rest[j - 1]);
                    }
                }
            },
        }
    }
}

/// A character that ends the query part of a request line: a second `?` or
/// whitespace.
pub open spec fn is_query_end(c: char) -> bool {
    c == '?' || c == ' ' || c == '\t' || c == '\r' || c == '\n'
}

/// Index of the first query-ending character of `s`, if any.
pub open spec fn first_query_end(s: Seq<char>) -> Option<int>
    decreases s.len(),
{
    if s.len() == 0 {
        None
    } else if is_query_end(s[0]) {
        Some(0int)
    } else {
        match first_query_end(s.drop_first()) {
            None => None,
            Some(j) => Some(j + 1),
        }
    }
}

/// What `first_query_end` finds is the first query-ending character.
pub proof fn lemma_first_query_end(s: Seq<char>)
    ensures
        match first_query_end(s) {
            None => forall|j: int| 0 <= j < s.len() ==> !is_query_end(#[trigger] s[j]),
            Some(i) => 0 <= i < s.len() && is_query_end(s[i]) && (forall|j: int|
                0 <= j < i ==> !is_query_end(#[trigger] s[j])),
        },
    decreases s.len(),
{
    if s.len() == 0 {
    } else if is_query_end(s[0]) {
    } else {
        let rest = s.drop_first();
        lemma_first_query_end(rest);
        match first_query_end(s) {
            None => {
                assert forall|j: int| 0 <= j < s.len() implies !is_query_end(#[trigger] s[j]) by {
                    if j > 0 {
                        assert(!is_query_end(rest[j - 1]));
                        assert(s[j] == rest[j - 1]);
                    }
                }
            },
            Some(i) => {
                assert(s[i] == rest[i - 1]);
                assert forall|j: int| 0 <= j < i implies !is_query_end(#[trigger] s[j]) by {
                    if j > 0 {
                        assert(!is_query_end(rest[j - 1]));
                        assert(s[j] == rest[j - 1]);
                    }
                }
            },
        }
    }
}

/// The query string of an HTTP request line: what stands between the first
/// `?` and the next query-ending character, empty when there is no `?`.
pub open spec fn query_of(line: Seq<char>) -> Seq<char> {
    match first_index_of(line, '?') {
        None => Seq::empty(),
        Some(i) => {
            let rest = line.skip(i + 1);
            match first_query_end(rest) {
                None => rest,
                Some(j) => rest.take(j),
            }
        },
    }
}

/// Reads one `key=value` parameter: the key before the first `=`, the value
/// after it. A parameter without `=`, or with more than one, is ignored.
pub open spec fn param_kv(p: Seq<char>) -> Option<(Seq<char>, Seq<char>)> {
    match first_index_of(p, '=') {
        None => None,
        Some(i) => {
            let v = p.skip(i + 1);
            if first_index_of(v, '=') is Some {
                None
            } else {
                Some((p.take(i), v))
            }
        },
    }
}

/// The value of the first `&`-separated parameter of `q` whose key is `key`,
/// if any: only the first value of a recognized key is honored.
pub open spec fn first_param_value(q: Seq<char>, key: Seq<char>) -> Option<Seq<char>>
    decreases q.len(),
    via first_param_value_decreases
{
    let head = match first_index_of(q, '&') {
        None => q,
        Some(i) => q.take(i),
    };
    let found = match param_kv(head) {
        Some(kv) => if kv.0 == key {
            Some(kv.1)
        } else {
            None
        },
        None => None,
    };
    if found is Some {
        found
    } else {
        match first_index_of(q, '&') {
            None => None,
            Some(i) => first_param_value(q.skip(i + 1), key),
        }
    }
}

#[via_fn]
proof fn first_param_value_decreases(q: Seq<char>, key: Seq<char>) {
    lemma_first_index_of(q, '&');
}

/// The classification the listener owes for a request line, in priority
/// order: a provider error first, then the state check, then the code.
pub open spec fn callback_outcome_matches(
    r: CallbackOutcome,
    line: Seq<char>,
    expected_state: Seq<char>,
) -> bool {
    let q = query_of(line);
    match first_param_value(q, "error"@) {
        Some(e) => r matches CallbackOutcome::ProviderError(m) && m@ == e,
        None => if first_param_value(q, "state"@) != Some(expected_state) {
            r is StateMismatch
        } else {
            match first_param_value(q, "code"@) {
                Some(c) => if c.len() > 0 {
                    r matches CallbackOutcome::Code(m) && m@ == c
                } else {
                    r is NoCode
                },
                None => r is NoCode,
            }
        },
    }
}

/// Finds the first occurrence of `c` in `s`.
fn find_char(s: &str, c: char) -> (r: Option<usize>)
    ensures
        match r {
            Some(i) => i < s@.len() && s@[i as int] == c && first_index_of(s@, c) == Some(
                i as int,
            ),
            None => first_index_of(s@, c) is None,
        },
{
    let n = s.unicode_len();
    let mut i: usize = 0;
    proof {
        lemma_first_index_of(s@, c);
    }
    while i < n
        invariant
            i <= n,
            n == s@.len(),
            forall|j: int| 0 <= j < i ==> #[trigger] s@[j] != c,
            match first_index_of(s@, c) {
                None => forall|j: int| 0 <= j < s@.len() ==> #[trigger] s@[j] != c,
                Some(k) => 0 <= k < s@.len() && s@[k] == c && (forall|j: int|
                    0 <= j < k ==> #[trigger] s@[j] != c),
            },
        decreases n - i,
    {
        if s.get_char(i) == c {
            return Some(i);
        }
        i += 1;
    }
    None
}

/// Finds the first query-ending character of `s`.
fn find_query_end(s: &str) -> (r: Option<usize>)
    ensures
        match r {
            Some(i) => i < s@.len() && is_query_end(s@[i as int]) && first_query_end(s@) == Some(
                i as int,
            ),
            None => first_query_end(s@) is None,
        },
{
    let n = s.unicode_len();
    let mut i: usize = 0;
    proof {
        lemma_first_query_end(s@);
    }
    while i < n
        invariant
            i <= n,
            n == s@.len(),
            forall|j: int| 0 <= j < i ==> !is_query_end(#[trigger] s@[j]),
            match first_query_end(s@) {
                None => forall|j: int| 0 <= j < s@.len() ==> !is_query_end(#[trigger] s@[j]),
                Some(k) => 0 <= k < s@.len() && is_query_end(s@[k]) && (forall|j: int|
                    0 <= j < k ==> !is_query_end(#[trigger] s@[j])),
            },
        decreases n - i,
    {
        let ch = s.get_char(i);
        if ch == '?' || ch == ' ' || ch == '\t' || ch == '\r' || ch == '\n' {
            return Some(i);
        }
        i += 1;
    }
    None
}

/// Extracts the query string of a request line.
fn query_string(line: &str) -> (q: String)
    ensures
        q@ == query_of(line@),
{
    match find_char(line, '?') {
        None => {
            let q = String::new();
            proof {
                assert(q@ =~= query_of(line@));
            }
            q
        },
        Some(i) => {
            let n = line.unicode_len();
            let rest = line.substring_char(i + 1, n);
            proof {
                assert(rest@ =~= line@.skip(i + 1));
            }
            let end = match find_query_end(rest) {
                Some(j) => j,
                None => rest.unicode_len(),
            };
            let q = String::from_str(rest.substring_char(0, end));
            proof {
                assert(q@ =~= query_of(line@));
            }
            q
        },
    }
}

/// Reads one parameter as `key=value`, if it has that shape.
fn param_kv_split(p: &str) -> (r: Option<(String, String)>)
    ensures
        match r {
            Some(kv) => param_kv(p@) == Some((kv.0@, kv.1@)),
            None => param_kv(p@) is None,
        },
{
    match find_char(p, '=') {
        None => None,
        Some(i) => {
            let n = p.unicode_len();
            let v = p.substring_char(i + 1, n);
            proof {
                assert(v@ =~= p@.skip(i + 1));
            }
            match find_char(v, '=') {
                Some(_) => None,
                None => {
                    let k = String::from_str(p.substring_char(0, i));
                    Some((k, String::from_str(v)))
                },
            }
        },
    }
}

/// The first value carried under `key` in the query `q`, if any.
fn lookup_param(q: &str, key: &str) -> (r: Option<String>)
    ensures
        match r {
            Some(v) => first_param_value(q@, key@) == Some(v@),
            None => first_param_value(q@, key@) is None,
        },
    decreases q@.len(),
{
    let n = q.unicode_len();
    let amp = find_char(q, '&');
    let head_end = match amp {
        Some(i) => i,
        None => n,
    };
    let head = q.substring_char(0, head_end);
    proof {
        if amp is None {
            assert(head@ =~= q@);
        }
    }
    match param_kv_split(head) {
        Some(kv) => {
            if str_eq(kv.0.as_str(), key) {
                return Some(kv.1);
            }
        },
        None => {},
    }
    match amp {
        None => None,
        Some(i) => {
            let tail = q.substring_char(i + 1, n);
            proof {
                assert(tail@ =~= q@.skip(i + 1));
            }
            lookup_param(tail, key)
        },
    }
}

/// Parses the first line of the redirect request and classifies it against
/// the expected state. A provider-reported error wins; then a wrong or
/// missing state is a security failure; then a non-empty code is accepted;
/// anything else carries no code.
pub fn parse_callback_request(line: &str, expected_state: &str) -> (r: CallbackOutcome)
    ensures
        callback_outcome_matches(r, line@, expected_state@),
{
    let q = query_string(line);
    if let Some(e) = lookup_param(q.as_str(), "error") {
        return CallbackOutcome::ProviderError(e);
    }
    let state_ok = match lookup_param(q.as_str(), "state") {
        Some(s) => str_eq(s.as_str(), expected_state),
        None => false,
    };
    if !state_ok {
        return CallbackOutcome::StateMismatch;
    }
    match lookup_param(q.as_str(), "code") {
        Some(c) => {
            if c.as_str().is_empty() {
                CallbackOutcome::NoCode
            } else {
                CallbackOutcome::Code(c)
            }
        },
        None => CallbackOutcome::NoCode,
    }
}

/// The HTML page shown to the human in the browser for each outcome.
pub open spec fn html_body_of(outcome: CallbackOutcome) -> Seq<char> {
    match outcome {
        CallbackOutcome::Code(_) =>
            "<html><head><meta charset=\"utf-8\"></head><body><h1>Authentication succeeded</h1><p>You can close this window and return to the application.</p></body></html>"@,
        CallbackOutcome::ProviderError(e) =>
            "<html><head><meta charset=\"utf-8\"></head><body><h1>Authentication failed</h1><p>Provider error: "@
            + e@ + "</p></body></html>"@,
        CallbackOutcome::StateMismatch =>
            "<html><head><meta charset=\"utf-8\"></head><body><h1>Authentication failed</h1><p>State validation failed (security error).</p></body></html>"@,
        CallbackOutcome::NoCode =>
            "<html><head><meta charset=\"utf-8\"></head><body><h1>Authentication failed</h1><p>No authorization code was delivered.</p></body></html>"@,
        CallbackOutcome::Timeout =>
            "<html><head><meta charset=\"utf-8\"></head><body><h1>Authentication failed</h1><p>The attempt timed out.</p></body></html>"@,
    }
}

/// A complete HTTP/1.1 200 response around `body`, whose Content-Length is
/// exactly the body's length in bytes.
pub open spec fn http_response_of(body: Seq<char>) -> Seq<char> {
    "HTTP/1.1 200 OK\r\nContent-Type: text/html; charset=utf-8\r\nContent-Length: "@ + dec_rep(
        encode_utf8(body).len(),
    ) + "\r\nConnection: close\r\n\r\n"@ + body
}

/// Renders the response owed for `outcome`, whatever it was.
pub fn render_callback_response(outcome: &CallbackOutcome) -> (r: String)
    ensures
        r@ == http_response_of(html_body_of(*outcome)),
{
    let body: String = match outcome {
        CallbackOutcome::Code(_) => String::from_str(
            "<html><head><meta charset=\"utf-8\"></head><body><h1>Authentication succeeded</h1><p>You can close this window and return to the application.</p></body></html>",
        ),
        CallbackOutcome::ProviderError(e) => {
            let mut b = String::from_str(
                "<html><head><meta charset=\"utf-8\"></head><body><h1>Authentication failed</h1><p>Provider error: ",
            );
            b.append(e.as_str());
            b.append("</p></body></html>");
            b
        },
        CallbackOutcome::StateMismatch => String::from_str(
            "<html><head><meta charset=\"utf-8\"></head><body><h1>Authentication failed</h1><p>State validation failed (security error).</p></body></html>",
        ),
        CallbackOutcome::NoCode => String::from_str(
            "<html><head><meta charset=\"utf-8\"></head><body><h1>Authentication failed</h1><p>No authorization code was delivered.</p></body></html>",
        ),
        CallbackOutcome::Timeout => String::from_str(
            "<html><head><meta charset=\"utf-8\"></head><body><h1>Authentication failed</h1><p>The attempt timed out.</p></body></html>",
        ),
    };
    let blen = body.as_str().as_bytes().len();
    let mut resp = String::from_str(
        "HTTP/1.1 200 OK\r\nContent-Type: text/html; charset=utf-8\r\nContent-Length: ",
    );
    let blen_str = usize_to_string(blen);
    resp.append(blen_str.as_str());
    resp.append("\r\nConnection: close\r\n\r\n");
    resp.append(body.as_str());
    proof {
        assert(resp@ =~= http_response_of(html_body_of(*outcome)));
    }
    resp
}

} // verus!
