//! Filtering and reassembly of query parameters, on plain strings.
use vstd::prelude::*;
use vstd::string::*;

verus! {

/// A query parameter as a pair of name and value.
pub type Param = (Seq<char>, Seq<char>);

/// The text of each filter prefix.
pub open spec fn texts_of(filters: Seq<&str>) -> Seq<Seq<char>> {
    filters.map_values(|f: &str| f@)
}

/// The names and values of executable parameters.
pub open spec fn params_of(pairs: Seq<(String, String)>) -> Seq<Param> {
    pairs.map_values(|p: (String, String)| (p.0@, p.1@))
}

/// `name` starts with at least one of `filters`.
pub open spec fn starts_with_any(name: Seq<char>, filters: Seq<Seq<char>>) -> bool {
    exists|i: int| 0 <= i < filters.len() && #[trigger] filters[i].is_prefix_of(name)
}

/// Filtering keeps every parameter that no filter matches.
pub proof fn lemma_unmatched_kept(params: Seq<Param>, filters: Seq<Seq<char>>)
    requires
        forall|i: int| 0 <= i < params.len() ==> !starts_with_any(#[trigger] params[i].0, filters),
    ensures
        kept_params(params, filters) == params,
    decreases params.len(),
{
    reveal_with_fuel(Seq::filter, 1);
    if params.len() > 0 {
        lemma_unmatched_kept(params.drop_last(), filters);
        assert(params.drop_last().push(params.last()) =~= params);
    }
}

/// Filtering keeps nothing where every parameter is matched.
pub proof fn lemma_all_matched_none_kept(params: Seq<Param>, filters: Seq<Seq<char>>)
    requires
        forall|i: int| 0 <= i < params.len() ==> starts_with_any(#[trigger] params[i].0, filters),
    ensures
        kept_params(params, filters).len() == 0,
    decreases params.len(),
{
    reveal_with_fuel(Seq::filter, 1);
    if params.len() > 0 {
        lemma_all_matched_none_kept(params.drop_last(), filters);
        assert(starts_with_any(params[params.len() - 1].0, filters));
    }
}

/// A name that some filter of `f1` matches is matched by `f2` where `f2`
/// holds every filter of `f1`.
proof fn lemma_matched_by_superset(name: Seq<char>, f1: Seq<Seq<char>>, f2: Seq<Seq<char>>)
    requires
        forall|x: Seq<char>| f1.contains(x) ==> f2.contains(x),
        starts_with_any(name, f1),
    ensures
        starts_with_any(name, f2),
{
    let i = choose|i: int| 0 <= i < f1.len() && #[trigger] f1[i].is_prefix_of(name);
    assert(f1.contains(f1[i]));
    let j = choose|j: int| 0 <= j < f2.len() && f2[j] == f1[i];
    assert(f2[j].is_prefix_of(name));
}

/// With more filters, what is kept is what the fewer filters keep, filtered
/// once more.
pub proof fn lemma_superset_filters_refine(
    params: Seq<Param>,
    f1: Seq<Seq<char>>,
    f2: Seq<Seq<char>>,
)
    requires
        forall|x: Seq<char>| f1.contains(x) ==> f2.contains(x),
    ensures
        kept_params(params, f2) == kept_params(kept_params(params, f1), f2),
    decreases params.len(),
{
    reveal_with_fuel(Seq::filter, 1);
    if params.len() > 0 {
        let rest = params.drop_last();
        let x = params.last();
        lemma_superset_filters_refine(rest, f1, f2);
        if starts_with_any(x.0, f1) {
            lemma_matched_by_superset(x.0, f1, f2);
        } else {
            let k = kept_params(rest, f1);
            assert(k.push(x).drop_last() =~= k);
        }
    }
}

/// Whether `prefix` is a prefix of `name`, character by character.
pub fn has_prefix(name: &str, prefix: &str) -> (r: bool)
    ensures
        r == prefix@.is_prefix_of(name@),
{
    let n = name.unicode_len();
    let m = prefix.unicode_len();
    if m > n {
        return false;
    }
    let mut i: usize = 0;
    while i < m
        invariant
            m == prefix@.len(),
            n == name@.len(),
            m <= n,
            i <= m,
            forall|j: int| 0 <= j < i ==> prefix@[j] == name@[j],
        decreases m - i,
    {
        if prefix.get_char(i) != name.get_char(i) {
            return false;
        }
        i = i + 1;
    }
    assert(prefix@ =~= name@.subrange(0, m as int));
    true
}

/// Whether a parameter named `name` is removed by `filters`.
pub fn is_filtered(name: &str, filters: &Vec<&str>) -> (r: bool)
    ensures
        r == starts_with_any(name@, texts_of(filters@)),
{
    let mut i: usize = 0;
    while i < filters.len()
        invariant
            i <= filters@.len(),
            forall|j: int| 0 <= j < i ==> !(#[trigger] texts_of(filters@)[j]).is_prefix_of(name@),
        decreases filters@.len() - i,
    {
        if has_prefix(name, filters[i]) {
            assert(texts_of(filters@)[i as int].is_prefix_of(name@));
            return true;
        }
        i = i + 1;
    }
    false
}

/// The parameters that no filter removes, in their original order.
pub open spec fn kept_params(params: Seq<Param>, filters: Seq<Seq<char>>) -> Seq<Param> {
    params.filter(|p: Param| !starts_with_any(p.0, filters))
}

/// `name=value`.
pub open spec fn param_text(p: Param) -> Seq<char> {
    p.0 + seq!['='] + p.1
}

/// The parameters written as `name=value` and joined by `&`.
pub open spec fn joined(params: Seq<Param>) -> Seq<char>
    decreases params.len(),
{
    if params.len() == 0 {
        Seq::empty()
    } else if params.len() == 1 {
        param_text(params[0])
    } else {
        joined(params.drop_last()) + seq!['&'] + param_text(params.last())
    }
}

/// The query left after filtering; `None` where no parameter is left.
pub open spec fn query_for(params: Seq<Param>, filters: Seq<Seq<char>>) -> Option<Seq<char>> {
    let kept = kept_params(params, filters);
    if kept.len() == 0 {
        None
    } else {
        Some(joined(kept))
    }
}

/// The text of an optional string.
pub open spec fn opt_text(s: Option<String>) -> Option<Seq<char>> {
    match s {
        Some(t) => Some(t@),
        None => None,
    }
}

/// The parameters whose names start with none of `filters`, in order.
pub fn retain_unfiltered(pairs: &Vec<(String, String)>, filters: &Vec<&str>) -> (r: Vec<(String, String)>)
    ensures
        params_of(r@) == kept_params(params_of(pairs@), texts_of(filters@)),
{
    let ghost fs = texts_of(filters@);
    let ghost pred = |p: Param| !starts_with_any(p.0, fs);
    let mut r: Vec<(String, String)> = Vec::new();
    let mut i: usize = 0;
    while i < pairs.len()
        invariant
            i <= pairs@.len(),
            fs == texts_of(filters@),
            pred == (|p: Param| !starts_with_any(p.0, fs)),
            params_of(r@) == params_of(pairs@).take(i as int).filter(pred),
        decreases pairs@.len() - i,
    {
        let ghost before = params_of(pairs@).take(i as int);
        let ghost after = params_of(pairs@).take(i + 1);
        assert(after.drop_last() =~= before);
        assert(after.last() == params_of(pairs@)[i as int]);
        reveal_with_fuel(Seq::filter, 1);
        if !is_filtered(pairs[i].0.as_str(), filters) {
            let name = pairs[i].0.clone();
            let value = pairs[i].1.clone();
            let ghost old_r = r@;
            r.push((name, value));
            assert(params_of(r@) =~= params_of(old_r).push(params_of(pairs@)[i as int]));
        }
        i = i + 1;
    }
    assert(params_of(pairs@).take(pairs@.len() as int) =~= params_of(pairs@));
    r
}

/// The parameters written as `name=value` and joined by `&`.
pub fn join_params(pairs: &Vec<(String, String)>) -> (r: String)
    ensures
        r@ == joined(params_of(pairs@)),
{
    let mut r = String::new();
    let mut i: usize = 0;
    while i < pairs.len()
        invariant
            i <= pairs@.len(),
            r@ == joined(params_of(pairs@).take(i as int)),
        decreases pairs@.len() - i,
    {
        let ghost after = params_of(pairs@).take(i + 1);
        assert(after.drop_last() =~= params_of(pairs@).take(i as int));
        if i > 0 {
            r.append("&");
        }
        r.append(pairs[i].0.as_str());
        r.append("=");
        r.append(pairs[i].1.as_str());
        proof {
            reveal_strlit("&");
            reveal_strlit("=");
        }
        assert(r@ =~= joined(after));
        i = i + 1;
    }
    assert(params_of(pairs@).take(pairs@.len() as int) =~= params_of(pairs@));
    r
}

/// The query that is left of `pairs` once `filters` are applied, or `None`
/// where every parameter is removed.
pub fn filtered_query(pairs: &Vec<(String, String)>, filters: &Vec<&str>) -> (r: Option<String>)
    ensures
        opt_text(r) == query_for(params_of(pairs@), texts_of(filters@)),
{
    let kept = retain_unfiltered(pairs, filters);
    if kept.len() == 0 {
        None
    } else {
        Some(join_params(&kept))
    }
}

} // verus!
