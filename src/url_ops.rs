//! The calls into the `url` crate that the library makes, with what it relies
//! on of each.
//!
//! A parsed URL is modelled by its serialization: every component that `url`
//! keeps besides it is an index into that text.
use vstd::prelude::*;
use crate::query::{Param, params_of};

verus! {

#[verifier::external_type_specification]
#[verifier::external_body]
pub struct ExUrl(url::Url);

#[verifier::external_type_specification]
#[verifier::external_body]
pub struct ExParseError(url::ParseError);

/// Room, in characters, for a URL together with three times its new query.
/// Four bytes a character and three bytes a percent-encoded byte keep the
/// serialization well inside the four gigabytes that `url` supports.
pub const QUERY_ROOM: usize = 0x3FFF_0000;

/// The serialization of a parsed URL.
pub uninterp spec fn url_text(u: url::Url) -> Seq<char>;

/// The serialization of the URL that `text` parses to, or `None` where it
/// does not parse.
pub uninterp spec fn parsed_text(text: Seq<char>) -> Option<Seq<char>>;

/// The decoded query parameters of the URL serialized as `text`.
pub uninterp spec fn query_params_in(text: Seq<char>) -> Seq<Param>;

/// The serialization of the URL serialized as `text` once its query is
/// replaced by `query`, or removed where `query` is `None`.
pub uninterp spec fn text_with_query(text: Seq<char>, query: Option<Seq<char>>) -> Seq<char>;

/// The text of an optional string slice.
pub open spec fn opt_str_text(s: Option<&str>) -> Option<Seq<char>> {
    match s {
        Some(t) => Some(t@),
        None => None,
    }
}

/// Relies on `url::Url::as_str`: it returns the URL's serialization.
pub assume_specification[ url::Url::as_str ](u: &url::Url) -> (r: &str)
    ensures
        r@ == url_text(*u),
;

/// Relies on `url::Url::parse`: whether an input parses, and to what, depends
/// on the input alone.
pub assume_specification[ url::Url::parse ](input: &str) -> (r: Result<url::Url, url::ParseError>)
    ensures
        r is Ok <==> parsed_text(input@) is Some,
        r is Ok ==> parsed_text(input@) == Some(url_text(r->Ok_0)),
;

/// Relies on `url::Url::set_query`: the new serialization depends on the old
/// one and the new query alone. It unwraps conversions of positions to `u32`,
/// so the result must stay under four gigabytes.
pub assume_specification[ url::Url::set_query ](u: &mut url::Url, query: Option<&str>)
    requires
        query is Some ==> url_text(*old(u)).len() + 3 * query->0@.len() < QUERY_ROOM,
    ensures
        url_text(*final(u)) == text_with_query(url_text(*old(u)), opt_str_text(query)),
;

/// Relies on `url::Url::query_pairs`: the query of the URL, decoded as
/// `application/x-www-form-urlencoded`, as owned name and value pairs in
/// order.
#[verifier::external_body]
pub(crate) fn query_pairs(u: &url::Url) -> (r: Vec<(String, String)>)
    ensures
        params_of(r@) == query_params_in(url_text(*u)),
{
    u.query_pairs().map(|(n, v)| (n.into_owned(), v.into_owned())).collect()
}

/// Relies on `url::ParseError::Overflow`, the error that `url` gives for a
/// URL over four gigabytes.
#[verifier::external_body]
pub(crate) fn overflow_error() -> (r: url::ParseError) {
    url::ParseError::Overflow
}

} // verus!
