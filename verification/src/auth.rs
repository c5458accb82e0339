//! API authentication: which token is used, which paths need none, and when
//! a request carries it.
use vstd::prelude::*;
use crate::text::{chars_of, split_char, split_spec, starts_with, starts_with_spec, str_eq, trim, trim_spec, vecs_view};

verus! {

/// The token: the environment's when set and not empty, else the token
/// file's trimmed contents when not empty.
pub open spec fn choose_token_spec(env: Option<Seq<char>>, file: Option<Seq<char>>) -> Option<Seq<char>> {
    match env {
        Some(e) if e.len() > 0 => Some(e),
        _ => match file {
            Some(f) => if trim_spec(f).len() > 0 {
                Some(trim_spec(f))
            } else {
                None
            },
            None => None,
        },
    }
}

/// Picks the API token from the environment variable's value and the token
/// file's contents; none when neither holds one.
pub fn choose_token(env: Option<String>, file: Option<String>) -> (r: Option<String>)
    ensures
        crate::types::opt_str_view(r) == choose_token_spec(
            crate::types::opt_str_view(env),
            crate::types::opt_str_view(file),
        ),
{
    if let Some(e) = env {
        if !e.as_str().is_empty() {
            return Some(e);
        }
    }
    match file {
        Some(f) => {
            let t = trim(chars_of(f.as_str()).as_slice());
            if t.len() > 0 {
                Some(crate::text::string_of(t.as_slice()))
            } else {
                None
            }
        },
        None => None,
    }
}

/// Paths served without a token: the health check, and the noVNC static files
/// (but not their WebSocket).
pub open spec fn exempt_spec(path: Seq<char>) -> bool {
    path == "/health"@ || (starts_with_spec(path, "/vnc/"@) && path != "/vnc/websockify"@)
}

/// Whether a path needs no token.
pub fn auth_exempt(path: &str) -> (r: bool)
    ensures
        r == exempt_spec(path@),
{
    let p = chars_of(path);
    str_eq(path, "/health") || (starts_with(p.as_slice(), chars_of("/vnc/").as_slice()) && !str_eq(
        path,
        "/vnc/websockify",
    ))
}

/// The header is `Bearer ` followed by exactly the token.
pub open spec fn bearer_spec(header: Option<Seq<char>>, expected: Seq<char>) -> bool {
    match header {
        Some(h) => h == "Bearer "@ + expected,
        None => false,
    }
}

fn bearer_ok(header: Option<&str>, expected: &str) -> (r: bool)
    ensures
        r == bearer_spec(
            match header {
                Some(h) => Some(h@),
                None => None,
            },
            expected@,
        ),
{
    match header {
        None => false,
        Some(h) => {
            let hv = chars_of(h);
            let p = chars_of("Bearer ");
            let e = chars_of(expected);
            if !starts_with(hv.as_slice(), p.as_slice()) {
                proof {
                    if hv@ == p@ + e@ {
                        assert(hv@.take(p@.len() as int) == p@);
                    }
                }
                return false;
            }
            let rest = crate::text::slice_chars(hv.as_slice(), p.len(), hv.len());
            let same = crate::text::seq_eq(rest.as_slice(), e.as_slice());
            proof {
                assert(hv@ == p@ + hv@.skip(p@.len() as int));
                if hv@ == p@ + e@ {
                    assert(hv@.skip(p@.len() as int) == e@);
                }
            }
            same
        },
    }
}

/// Some `&`-separated part of the query is `token=` followed by exactly the token.
pub open spec fn query_spec(query: Option<Seq<char>>, expected: Seq<char>) -> bool {
    match query {
        Some(q) => query_has_token(q, expected),
        None => false,
    }
}

pub open spec fn query_has_token(q: Seq<char>, expected: Seq<char>) -> bool {
    exists|i: int| 0 <= i < split_spec(q, '&').len() && #[trigger] split_spec(q, '&')[i]
        == "token="@ + expected
}

fn query_has(q: &str, expected: &str) -> (r: bool)
    ensures
        r == query_has_token(q@, expected@),
{
    let parts = split_char(chars_of(q).as_slice(), '&');
    let ghost pv = vecs_view(parts@);
    let mut want = String::from_str("token=");
    crate::router::file_downloads::append_str(&mut want, expected);
    let w = chars_of(want.as_str());
    let mut i: usize = 0;
    while i < parts.len()
        invariant
            i <= parts.len(),
            pv == vecs_view(parts@),
            pv == split_spec(q@, '&'),
            w@ == "token="@ + expected@,
            forall|j: int| 0 <= j < i ==> pv[j] != w@,
        decreases parts.len() - i,
    {
        if crate::text::seq_eq(parts[i].as_slice(), w.as_slice()) {
            assert(split_spec(q@, '&')[i as int] == "token="@ + expected@);
            return true;
        }
        i += 1;
    }
    false
}

fn query_ok(query: Option<&str>, expected: &str) -> (r: bool)
    ensures
        r == query_spec(
            match query {
                Some(q) => Some(q@),
                None => None,
            },
            expected@,
        ),
{
    match query {
        None => false,
        Some(q) => query_has(q, expected),
    }
}

/// A request is let through on an exempt path, with the bearer token, or with
/// the token as a query parameter.
pub open spec fn authorized_spec(
    path: Seq<char>,
    header: Option<Seq<char>>,
    query: Option<Seq<char>>,
    expected: Seq<char>,
) -> bool {
    exempt_spec(path) || bearer_spec(header, expected) || query_spec(query, expected)
}

/// Whether a request may pass: `header` is the `Authorization` value when it
/// is readable text, `query` the request's query string.
pub fn authorized(path: &str, header: Option<&str>, query: Option<&str>, expected: &str) -> (r: bool)
    ensures
        r == authorized_spec(
            path@,
            match header {
                Some(h) => Some(h@),
                None => None,
            },
            match query {
                Some(q) => Some(q@),
                None => None,
            },
            expected@,
        ),
{
    auth_exempt(path) || bearer_ok(header, expected) || query_ok(query, expected)
}

} // verus!
