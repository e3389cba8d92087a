//! Request gates: the mobile API key check and the base-path rewrite.

use vstd::prelude::*;

use crate::text::{chars_equal_str, chars_of, has_prefix, rest_equals, starts_with};

verus! {

/// Outcome of the API key check.
#[derive(Clone, Copy, PartialEq, Eq, Structural, Debug)]
pub enum ApiKeyDecision {
    /// The request may proceed.
    Allow,
    /// Missing or wrong `Authorization: Bearer <key>` header.
    Unauthorized,
    /// No API key is configured: the mobile API is disabled.
    ServiceUnavailable,
}

/// The API key check on the `Authorization` header value (when present and
/// readable as text): the API is disabled without a configured key, and a
/// request passes exactly when the header is `Bearer ` followed by the key.
pub fn check_api_key(expected: &str, authorization: Option<&str>) -> (r: ApiKeyDecision)
    ensures
        expected@.len() == 0 ==> r == ApiKeyDecision::ServiceUnavailable,
        expected@.len() > 0 ==> (r == ApiKeyDecision::Allow <==> (authorization matches Some(h)
            && h@ == "Bearer "@ + expected@)),
        expected@.len() > 0 ==> r != ApiKeyDecision::ServiceUnavailable,
{
    let e = chars_of(expected);
    if e.len() == 0 {
        return ApiKeyDecision::ServiceUnavailable;
    }
    match authorization {
        None => ApiKeyDecision::Unauthorized,
        Some(h) => {
            let hv = chars_of(h);
            let bearer = chars_of("Bearer ");
            if starts_with(hv.as_slice(), bearer.as_slice()) && rest_equals(
                hv.as_slice(),
                bearer.len(),
                e.as_slice(),
            ) {
                assert(hv@ =~= "Bearer "@ + expected@);
                ApiKeyDecision::Allow
            } else {
                proof {
                    if h@ == "Bearer "@ + expected@ {
                        assert(hv@.subrange(0, bearer@.len() as int) =~= bearer@);
                        assert(hv@.subrange(bearer@.len() as int, hv@.len() as int) =~= e@);
                    }
                }
                ApiKeyDecision::Unauthorized
            }
        },
    }
}

/// The request target after removing the base path: the rest of the path
/// (`/` when nothing remains) with the query kept. Nothing to rewrite when
/// the base path is empty or the path does not start with it.
pub open spec fn stripped_target(base: Seq<char>, path: Seq<char>, query: Option<Seq<char>>) -> Option<Seq<char>> {
    if base.len() == 0 || !has_prefix(path, base) {
        None
    } else {
        let rest = path.subrange(base.len() as int, path.len() as int);
        let new_path = if rest.len() == 0 {
            "/"@
        } else {
            rest
        };
        Some(
            match query {
                None => new_path,
                Some(q) => new_path + "?"@ + q,
            },
        )
    }
}

pub fn strip_base_path(base_path: &str, path: &str, query: Option<&str>) -> (r: Option<String>)
    ensures
        match r {
            None => stripped_target(base_path@, path@, match query {
                None => None,
                Some(q) => Some(q@),
            }) is None,
            Some(t) => stripped_target(base_path@, path@, match query {
                None => None,
                Some(q) => Some(q@),
            }) == Some(t@),
        },
{
    let b = chars_of(base_path);
    if b.len() == 0 {
        return None;
    }
    let p = chars_of(path);
    if !starts_with(p.as_slice(), b.as_slice()) {
        return None;
    }
    let mut r = if b.len() == p.len() {
        String::from_str("/")
    } else {
        String::from_str(path.substring_char(b.len(), p.len()))
    };
    match query {
        None => {},
        Some(q) => {
            r.append("?");
            r.append(q);
        },
    }
    Some(r)
}

} // verus!
