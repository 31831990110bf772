//! Who may invoke the write path: callers that present the configured
//! bearer token.
use vstd::prelude::*;

use crate::errors::Error;
use crate::text::{str_eq, trim, trimmed};

verus! {

/// The scheme word that opens an authorization header.
pub const BEARER_PREFIX: &'static str = "Bearer ";

/// Whether `s` begins with `p`.
pub open spec fn has_prefix(s: Seq<char>, p: Seq<char>) -> bool {
    p.len() <= s.len() && s.take(p.len() as int) == p
}

/// `s` with every leading repetition of the non-empty `p` removed.
pub open spec fn strip_prefixes(s: Seq<char>, p: Seq<char>) -> Seq<char>
    decreases s.len(),
{
    if p.len() > 0 && has_prefix(s, p) {
        strip_prefixes(s.skip(p.len() as int), p)
    } else {
        s
    }
}

/// Relies on `str::starts_with` with a `&str` pattern: whether `p` is a
/// prefix of `s`.
#[verifier::external_body]
fn starts_with(s: &str, p: &str) -> (r: bool)
    ensures
        r == has_prefix(s@, p@),
{
    s.starts_with(p)
}

/// Relies on `str::trim_start_matches` with a `&str` pattern: `s` with
/// every leading repetition of `p` removed.
#[verifier::external_body]
fn trim_start_matches<'a>(s: &'a str, p: &str) -> (r: &'a str)
    requires
        p@.len() > 0,
    ensures
        r@ == strip_prefixes(s@, p@),
{
    s.trim_start_matches(p)
}

/// The token that a header presents: the text after the bearer prefix (and
/// any repetition of it), trimmed. None when the header lacks the prefix.
pub open spec fn presented_token(header: Seq<char>) -> Option<Seq<char>> {
    if has_prefix(header, BEARER_PREFIX@) {
        Some(trimmed(strip_prefixes(header, BEARER_PREFIX@)))
    } else {
        None
    }
}

/// Lets a request through when its authorization header presents exactly
/// the expected token; otherwise `Unauthorized`. `header` is None when the
/// request has no header or one that is not visible text.
pub fn authorize(header: Option<&str>, expected: &str) -> (r: Result<(), Error>)
    ensures
        r is Ok <==> (header is Some && presented_token(header->Some_0@) == Some(expected@)),
        r is Err ==> r == Err::<(), Error>(Error::Unauthorized),
{
    let value = match header {
        Some(v) => v,
        None => return Err(Error::Unauthorized),
    };
    if !starts_with(value, BEARER_PREFIX) {
        return Err(Error::Unauthorized);
    }
    proof {
        reveal_strlit("Bearer ");
    }
    let token = trim(trim_start_matches(value, BEARER_PREFIX));
    if str_eq(token, expected) {
        Ok(())
    } else {
        Err(Error::Unauthorized)
    }
}

} // verus!
