//! Removes tracking query parameters from URLs.
//!
//! A URL is parsed, the parameters of its query whose names start with one of
//! a list of filter prefixes are dropped, and the URL is written out again with
//! the remaining parameters in their original order. Where nothing is left,
//! the URL has no query at all.
use vstd::prelude::*;
use vstd::string::*;
pub use crate::policy::{AllowedMarketingTracking, AllowedTracking};
use crate::policy::{policy_filters, tracking_filters};
use crate::query::{
    filtered_query, kept_params, lemma_all_matched_none_kept, lemma_superset_filters_refine,
    lemma_unmatched_kept, query_for, starts_with_any, texts_of,
};
use crate::url_ops::{
    overflow_error, parsed_text, query_pairs, query_params_in, text_with_query, url_text,
    QUERY_ROOM,
};

pub mod policy;
pub mod query;
pub mod url_ops;

verus! {

/// Whether the serialization `text` has room for `query`.
pub open spec fn room_for(text: Seq<char>, query: Option<Seq<char>>) -> bool {
    query is Some ==> text.len() + 3 * query->0.len() < QUERY_ROOM
}

/// The URL serialized as `text` with the parameters that `filters` match
/// removed; `None` where the result would be too long for `url`.
pub open spec fn cleaned_text(text: Seq<char>, filters: Seq<Seq<char>>) -> Option<Seq<char>> {
    let q = query_for(query_params_in(text), filters);
    if room_for(text, q) {
        Some(text_with_query(text, q))
    } else {
        None
    }
}

/// What cleaning the input `url` with `filters` gives; `None` where it does
/// not parse, or the result would be too long.
pub open spec fn cleaned(url: Seq<char>, filters: Seq<Seq<char>>) -> Option<Seq<char>> {
    match parsed_text(url) {
        Some(text) => cleaned_text(text, filters),
        None => None,
    }
}

/// Filters that match no parameter of `url` give the same result as no
/// filters at all: the URL as the parser writes it out with its parameters
/// rebuilt.
pub proof fn lemma_unmatched_filters_change_nothing(url: Seq<char>, filters: Seq<Seq<char>>)
    requires
        parsed_text(url) is Some ==> forall|i: int|
            0 <= i < query_params_in(parsed_text(url)->0).len() ==> !starts_with_any(
                #[trigger] query_params_in(parsed_text(url)->0)[i].0,
                filters,
            ),
    ensures
        cleaned(url, filters) == cleaned(url, Seq::empty()),
{
    if parsed_text(url) is Some {
        let params = query_params_in(parsed_text(url)->0);
        lemma_unmatched_kept(params, filters);
        lemma_unmatched_kept(params, Seq::empty());
    }
}

/// With a set of filters that holds every filter of another, the parameters
/// that are kept are those that the other keeps, less some: they keep their
/// order and form a subset.
pub proof fn lemma_more_filters_keep_fewer(url: Seq<char>, f1: Seq<Seq<char>>, f2: Seq<Seq<char>>)
    requires
        parsed_text(url) is Some,
        forall|x: Seq<char>| f1.contains(x) ==> f2.contains(x),
    ensures
        ({
            let params = query_params_in(parsed_text(url)->0);
            &&& kept_params(params, f2) == kept_params(kept_params(params, f1), f2)
            &&& kept_params(params, f2).to_set().subset_of(kept_params(params, f1).to_set())
        }),
{
    let params = query_params_in(parsed_text(url)->0);
    let k1 = kept_params(params, f1);
    lemma_superset_filters_refine(params, f1, f2);
    assert forall|x| kept_params(params, f2).to_set().contains(x) implies k1.to_set().contains(x) by {
        k1.lemma_filter_contains_rev(|p: query::Param| !starts_with_any(p.0, f2), x);
    }
}

/// Where the filters match every parameter, the URL loses its query
/// altogether rather than keeping an empty one.
pub proof fn lemma_all_removed_drops_query(url: Seq<char>, filters: Seq<Seq<char>>)
    requires
        parsed_text(url) is Some,
        forall|i: int|
            0 <= i < query_params_in(parsed_text(url)->0).len() ==> starts_with_any(
                #[trigger] query_params_in(parsed_text(url)->0)[i].0,
                filters,
            ),
    ensures
        cleaned(url, filters) == Some(text_with_query(parsed_text(url)->0, None)),
{
    lemma_all_matched_none_kept(query_params_in(parsed_text(url)->0), filters);
}

/// Removes from a parsed URL every query parameter whose name starts with
/// one of `filters`, and returns its serialization.
///
/// An error from parsing is handed back as it is. Where the new query would
/// make the URL too long, the error is `ParseError::Overflow`.
pub fn clean_parsed(
    parsed: Result<url::Url, url::ParseError>,
    filters: &Vec<&str>,
) -> (r: Result<String, url::ParseError>)
    ensures
        parsed is Err ==> r == Err::<String, url::ParseError>(parsed->Err_0),
        parsed is Ok ==> (r is Ok <==> cleaned_text(url_text(parsed->Ok_0), texts_of(filters@))
            is Some),
        parsed is Ok && r is Ok ==> cleaned_text(url_text(parsed->Ok_0), texts_of(filters@))
            == Some(r->Ok_0@),
{
    let mut uri = match parsed {
        Ok(u) => u,
        Err(e) => {
            return Err(e);
        },
    };
    let pairs = query_pairs(&uri);
    let query = filtered_query(&pairs, filters);
    match query {
        None => {
            uri.set_query(None);
        },
        Some(q) => {
            let text_len = uri.as_str().unicode_len();
            let query_len = q.as_str().unicode_len();
            if text_len >= QUERY_ROOM || query_len >= QUERY_ROOM || text_len as u64 + 3
                * query_len as u64 >= QUERY_ROOM as u64 {
                return Err(overflow_error());
            }
            uri.set_query(Some(q.as_str()));
        },
    }
    Ok(uri.as_str().to_string())
}

/// Removes every query parameter of `url` whose name starts with one of
/// `filters`, and returns the URL as the parser writes it out.
///
/// Fails where `url` does not parse, with the parser's error, and with
/// `ParseError::Overflow` where the result would outgrow what the parser
/// supports.
pub fn clean<'a>(url: &str, filters: Vec<&'a str>) -> (r: Result<String, url::ParseError>)
    ensures
        r is Ok <==> cleaned(url@, texts_of(filters@)) is Some,
        r is Ok ==> cleaned(url@, texts_of(filters@)) == Some(r->Ok_0@),
{
    clean_parsed(url::Url::parse(url), &filters)
}

/// Removes every tracking parameter of `url` whose family `opts` does not
/// allow; `clean` with the prefixes of those families.
pub fn untrack(url: &'static str, opts: AllowedTracking) -> (r: Result<String, url::ParseError>)
    ensures
        r is Ok <==> cleaned(url@, policy_filters(opts)) is Some,
        r is Ok ==> cleaned(url@, policy_filters(opts)) == Some(r->Ok_0@),
{
    let filters = tracking_filters(opts);
    clean(url, filters)
}

} // verus!
