//! The asset of an up/down market, read from its slug
//! (`btc-updown-5m-1772296200` is a BTC market).
use vstd::prelude::*;
use crate::text::{chars_of, trim_chars, lower_chars, first_segment_chars, chars_occur_at,
    string_from_chars, to_ascii_uppercase, lower, trim, first_segment, occurs_at, upper};

verus! {

broadcast use vstd::string::group_string_axioms;

/// The asset of an up/down market slug: the text before the first dash of
/// the trimmed, lower-cased slug, when it is not empty and `-updown-`
/// follows it.
pub open spec fn spec_updown_asset(slug: Seq<char>) -> Option<Seq<char>> {
    let t = lower(trim(slug));
    let a = first_segment(t, '-');
    if a.len() > 0 && occurs_at(t, "-updown-"@, a.len() as int) {
        Some(a)
    } else {
        None
    }
}

/// The lower-case asset of an up/down market slug.
pub fn find_updown_asset(market_slug: &str) -> (r: Option<String>)
    ensures
        r matches Some(a) ==> spec_updown_asset(market_slug@) == Some(a@),
        r is None ==> spec_updown_asset(market_slug@) is None,
{
    let v = chars_of(market_slug);
    let t = trim_chars(&v);
    let l = lower_chars(&t);
    let a = first_segment_chars(&l, '-');
    let pattern = chars_of("-updown-");
    proof { reveal_strlit("-updown-"); }
    if a.len() == 0 || pattern.len() > l.len() - a.len() {
        return None;
    }
    if chars_occur_at(&l, &pattern, a.len()) {
        Some(string_from_chars(&a))
    } else {
        None
    }
}

/// The upper-case asset of an up/down market slug (`BTC`).
pub fn trade_builder_asset_from_market_slug(market_slug: &str) -> (r: Option<String>)
    ensures
        r matches Some(a) ==> spec_updown_asset(market_slug@) matches Some(x) && a@ == upper(x),
        r is None ==> spec_updown_asset(market_slug@) is None,
{
    match find_updown_asset(market_slug) {
        Some(a) => Some(to_ascii_uppercase(a.as_str())),
        None => None,
    }
}

} // verus!
