//! Which families of tracking parameters to keep, and the filter prefixes
//! that remove the others.
use vstd::prelude::*;
use crate::query::texts_of;

verus! {

/// Which marketing tracking parameters `untrack` leaves alone. A flag that is
/// `false` has its parameters removed.
#[derive(Default, Copy, Clone)]
pub struct AllowedMarketingTracking {
    /// Urchin Tracking Module
    pub utm: bool,
    /// Google Click Identifier
    pub gclid: bool,
    /// Google Ads
    pub gclsrc: bool,
    /// DoubleClick click identifier, now Google
    pub dclid: bool,
    /// Facebook click identifier
    pub fbclid: bool,
    /// Microsoft Bing Ads click identifier
    pub mscklid: bool,
    /// zanox click identifier, now Awin
    pub zanpid: bool,
}

/// Which tracking parameters `untrack` leaves alone.
#[derive(Default, Copy, Clone)]
pub struct AllowedTracking {
    /// Marketing tracking
    pub marketing: AllowedMarketingTracking,
}

/// `prefix` where its family is not allowed, nothing where it is.
pub open spec fn filter_unless(allowed: bool, prefix: Seq<char>) -> Seq<Seq<char>> {
    if allowed {
        Seq::empty()
    } else {
        seq![prefix]
    }
}

/// The filter prefixes of the families that `opts` does not allow, in a
/// fixed order.
pub open spec fn policy_filters(opts: AllowedTracking) -> Seq<Seq<char>> {
    let m = opts.marketing;
    filter_unless(m.utm, seq!['u', 't', 'm', '_']) + filter_unless(
        m.gclid,
        seq!['g', 'c', 'l', 'i', 'd'],
    ) + filter_unless(m.gclsrc, seq!['g', 'c', 'l', 's', 'r', 'c']) + filter_unless(
        m.dclid,
        seq!['d', 'c', 'l', 'i', 'd'],
    ) + filter_unless(m.fbclid, seq!['f', 'b', 'c', 'l', 'i', 'd']) + filter_unless(
        m.mscklid,
        seq!['m', 's', 'c', 'k', 'l', 'i', 'd'],
    ) + filter_unless(m.zanpid, seq!['z', 'a', 'n', 'p', 'i', 'd'])
}

/// Appends `prefix` to `filters` unless its family is allowed.
fn push_unless(filters: &mut Vec<&'static str>, allowed: bool, prefix: &'static str)
    ensures
        texts_of(final(filters)@) == texts_of(old(filters)@) + filter_unless(allowed, prefix@),
{
    if !allowed {
        filters.push(prefix);
    }
    assert(texts_of(final(filters)@) =~= texts_of(old(filters)@) + filter_unless(allowed, prefix@));
}

/// The filter prefixes that remove every tracking parameter that `opts` does
/// not allow.
pub fn tracking_filters(opts: AllowedTracking) -> (r: Vec<&'static str>)
    ensures
        texts_of(r@) == policy_filters(opts),
{
    let m = opts.marketing;
    let mut filters: Vec<&'static str> = Vec::new();
    proof {
        reveal_strlit("utm_");
        reveal_strlit("gclid");
        reveal_strlit("gclsrc");
        reveal_strlit("dclid");
        reveal_strlit("fbclid");
        reveal_strlit("mscklid");
        reveal_strlit("zanpid");
    }
    assert(texts_of(filters@) =~= Seq::empty());
    push_unless(&mut filters, m.utm, "utm_");
    assert("utm_"@ =~= seq!['u', 't', 'm', '_']);
    push_unless(&mut filters, m.gclid, "gclid");
    assert("gclid"@ =~= seq!['g', 'c', 'l', 'i', 'd']);
    push_unless(&mut filters, m.gclsrc, "gclsrc");
    assert("gclsrc"@ =~= seq!['g', 'c', 'l', 's', 'r', 'c']);
    push_unless(&mut filters, m.dclid, "dclid");
    assert("dclid"@ =~= seq!['d', 'c', 'l', 'i', 'd']);
    push_unless(&mut filters, m.fbclid, "fbclid");
    assert("fbclid"@ =~= seq!['f', 'b', 'c', 'l', 'i', 'd']);
    push_unless(&mut filters, m.mscklid, "mscklid");
    assert("mscklid"@ =~= seq!['m', 's', 'c', 'k', 'l', 'i', 'd']);
    push_unless(&mut filters, m.zanpid, "zanpid");
    assert("zanpid"@ =~= seq!['z', 'a', 'n', 'p', 'i', 'd']);
    assert(texts_of(filters@) =~= policy_filters(opts));
    filters
}

} // verus!
