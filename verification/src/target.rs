//! Rebuilding the address of an inbound request below the upstream base.

use vstd::prelude::*;
use vstd::string::*;

verus! {

/// `p` without its first character where that is a slash, else `p` itself.
pub open spec fn without_leading_slash(p: Seq<char>) -> Seq<char> {
    if p.len() > 0 && p[0] == '/' {
        p.skip(1)
    } else {
        p
    }
}

/// `b` without its last character where that is a slash, else `b` itself.
pub open spec fn without_trailing_slash(b: Seq<char>) -> Seq<char> {
    if b.len() > 0 && b.last() == '/' {
        b.drop_last()
    } else {
        b
    }
}

/// The upstream address: the base less one trailing slash, one slash, and the
/// inbound path and query less one leading slash.
pub open spec fn upstream_target(base: Seq<char>, path_query: Seq<char>) -> Seq<char> {
    without_trailing_slash(base) + seq!['/'] + without_leading_slash(path_query)
}

/// What is forwarded of an inbound address: path and query where the request
/// has them, the bare path otherwise.
pub open spec fn forwarded_part(path_and_query: Option<Seq<char>>, path: Seq<char>) -> Seq<char> {
    match path_and_query {
        Some(pq) => pq,
        None => path,
    }
}

/// Drops one leading slash, and only one.
pub fn strip_leading_slash(path_query: &str) -> (r: &str)
    ensures
        r@ == without_leading_slash(path_query@),
{
    let n: usize = path_query.unicode_len();
    if n > 0 && path_query.get_char(0) == '/' {
        path_query.substring_char(1, n)
    } else {
        path_query
    }
}

/// Drops one trailing slash, and only one.
pub fn strip_trailing_slash(base: &str) -> (r: &str)
    ensures
        r@ == without_trailing_slash(base@),
{
    let n: usize = base.unicode_len();
    if n > 0 && base.get_char(n - 1) == '/' {
        base.substring_char(0, n - 1)
    } else {
        base
    }
}

/// Joins the upstream base and an inbound path and query with exactly one
/// slash between them, whether or not either side brought its own.
pub fn build_target(base: &str, path_query: &str) -> (r: String)
    ensures
        r@ == upstream_target(base@, path_query@),
{
    let mut out = String::from_str(strip_trailing_slash(base));
    out.append("/");
    out.append(strip_leading_slash(path_query));
    proof {
        reveal_strlit("/");
        assert("/"@ =~= seq!['/']);
    }
    out
}

/// `http::uri::Uri`, a parsed address.
#[verifier::external_type_specification]
#[verifier::external_body]
pub struct ExUri(http::uri::Uri);

/// `http::uri::InvalidUri`, the refusal of a text as an address.
#[verifier::external_type_specification]
#[verifier::external_body]
pub struct ExInvalidUri(http::uri::InvalidUri);

/// The address that `http::uri::Uri` parses `text` into, `None` where it
/// refuses the text.
pub uninterp spec fn parsed_uri(text: Seq<char>) -> Option<http::uri::Uri>;

/// Whether `text` is taken for an address.
pub open spec fn uri_accepted(text: Seq<char>) -> bool {
    parsed_uri(text) is Some
}

/// Calls `Uri::try_from` on a `String`, which parses the text and depends on
/// nothing else. The contract names what the parse gives and says no more
/// of it.
#[verifier::external_body]
pub(crate) fn parse_uri(text: String) -> (r: Result<http::uri::Uri, http::uri::InvalidUri>)
    ensures
        r matches Ok(uri) ==> parsed_uri(text@) == Some(uri),
        r is Err ==> parsed_uri(text@) is None,
{
    http::uri::Uri::try_from(text)
}

/// Calls `to_string` on an `InvalidUri`, for the sentence that says what was
/// wrong with the text. Each of the sentences it can write is a fixed one of
/// at least one character, which is all the contract claims.
#[verifier::external_body]
pub(crate) fn describe_invalid_uri(error: &http::uri::InvalidUri) -> (r: String)
    ensures
        r@.len() > 0,
{
    error.to_string()
}

/// A slash at the end of the base or at the start of the inbound side makes
/// no difference: for a base `b` that ends in no slash and an inbound `p`
/// that starts with none, each of the four ways to write them is sent to `b`,
/// one slash, and `p`.
pub proof fn lemma_target_ignores_edge_slashes(b: Seq<char>, p: Seq<char>)
    requires
        b.len() == 0 || b.last() != '/',
        p.len() == 0 || p[0] != '/',
    ensures
        upstream_target(b, p) == b + seq!['/'] + p,
        upstream_target(b, seq!['/'] + p) == b + seq!['/'] + p,
        upstream_target(b + seq!['/'], p) == b + seq!['/'] + p,
        upstream_target(b + seq!['/'], seq!['/'] + p) == b + seq!['/'] + p,
{
    assert((seq!['/'] + p).skip(1) =~= p);
    assert((b + seq!['/']).drop_last() =~= b);
}

/// The address splits at one separating slash: before it stands the base
/// less its own trailing slash, after it the inbound side less its own
/// leading slash, so that no slash is doubled and none is lost.
pub proof fn lemma_target_has_one_separator(base: Seq<char>, path_query: Seq<char>)
    ensures
        upstream_target(base, path_query).len() == without_trailing_slash(base).len() + 1
            + without_leading_slash(path_query).len(),
        upstream_target(base, path_query).subrange(
            0,
            without_trailing_slash(base).len() as int,
        ) == without_trailing_slash(base),
        upstream_target(base, path_query)[without_trailing_slash(base).len() as int] == '/',
        upstream_target(base, path_query).skip(without_trailing_slash(base).len() as int + 1)
            == without_leading_slash(path_query),
        path_query.len() > 0 && path_query[0] == '/' ==> seq!['/'] + without_leading_slash(
            path_query,
        ) == path_query,
        base.len() > 0 && base.last() == '/' ==> without_trailing_slash(base) + seq!['/'] == base,
{
    let t = upstream_target(base, path_query);
    let b = without_trailing_slash(base);
    assert(t.subrange(0, b.len() as int) =~= b);
    assert(t.skip(b.len() as int + 1) =~= without_leading_slash(path_query));
    if path_query.len() > 0 && path_query[0] == '/' {
        assert(seq!['/'] + path_query.skip(1) =~= path_query);
    }
    if base.len() > 0 && base.last() == '/' {
        assert(base.drop_last() + seq!['/'] =~= base);
    }
}

} // verus!
