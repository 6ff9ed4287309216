//! Fields of the bot's decision logs: the volume regime of a market, the
//! entry risk tags with their values and thresholds, and the shadow volume
//! guard.
use vstd::prelude::*;
use crate::json::{JsonValue, JsonView, view_members, push_member, object_from, opt_get, opt_as_str, opt_as_i64, opt_as_bool};
use crate::decimal::{micros_json, micros_value};
use crate::json_number::{spec_number_micros, number_micros};
use crate::text::str_eq;

verus! {

broadcast use vstd::string::group_string_axioms;

/// The volume regime of a market from its volume ratio (recent notional
/// over its baseline, in millionths): unknown without a usable ratio,
/// normal below 1.5, elevated below 2.5, high below 4, extreme from 4.
pub open spec fn spec_decision_volume_regime(ratio_micros: Option<i64>) -> Seq<char> {
    match ratio_micros {
        None => "unknown"@,
        Some(r) => if r < 0 {
            "unknown"@
        } else if r < 1_500_000 {
            "normal"@
        } else if r < 2_500_000 {
            "elevated"@
        } else if r < 4_000_000 {
            "high"@
        } else {
            "extreme"@
        },
    }
}

pub fn decision_volume_regime(ratio_micros: Option<i64>) -> (r: &'static str)
    ensures
        r@ == spec_decision_volume_regime(ratio_micros),
{
    match ratio_micros {
        None => "unknown",
        Some(r) => if r < 0 {
            "unknown"
        } else if r < 1_500_000 {
            "normal"
        } else if r < 2_500_000 {
            "elevated"
        } else if r < 4_000_000 {
            "high"
        } else {
            "extreme"
        },
    }
}

/// The thresholds of the entry risk tags, as the decision log records them.
pub open spec fn spec_risk_tag_thresholds_payload() -> JsonView {
    JsonView::Object(seq![
        ("late_entry_elapsed_s"@, JsonView::Int(210)),
        ("last_60s_remaining_s"@, JsonView::Int(60)),
        ("high_price"@, JsonView::Float("0.75"@)),
        ("very_high_price"@, JsonView::Float("0.85"@)),
        ("gap_slope_negative_threshold"@, JsonView::Float("0.0"@)),
        ("gap_collapsing_threshold"@, JsonView::Float("-2.0"@)),
        ("gap_peak_drawdown_high_threshold"@, JsonView::Float("6.0"@)),
        ("wide_spread_cent"@, JsonView::Float("3.0"@)),
        ("high_slippage_cent"@, JsonView::Float("2.0"@)),
    ])
}

pub fn risk_tag_thresholds_payload() -> (r: JsonValue)
    ensures
        r@ == spec_risk_tag_thresholds_payload(),
{
    let mut m: Vec<(String, JsonValue)> = Vec::new();
    assert(view_members(m@) =~= Seq::<(Seq<char>, JsonView)>::empty());
    push_member(&mut m, "late_entry_elapsed_s", JsonValue::Int(210));
    push_member(&mut m, "last_60s_remaining_s", JsonValue::Int(60));
    push_member(&mut m, "high_price", JsonValue::Float("0.75".to_string()));
    push_member(&mut m, "very_high_price", JsonValue::Float("0.85".to_string()));
    push_member(&mut m, "gap_slope_negative_threshold", JsonValue::Float("0.0".to_string()));
    push_member(&mut m, "gap_collapsing_threshold", JsonValue::Float("-2.0".to_string()));
    push_member(&mut m, "gap_peak_drawdown_high_threshold", JsonValue::Float("6.0".to_string()));
    push_member(&mut m, "wide_spread_cent", JsonValue::Float("3.0".to_string()));
    push_member(&mut m, "high_slippage_cent", JsonValue::Float("2.0".to_string()));
    let r = object_from(m);
    assert(r@->Object_0 =~= spec_risk_tag_thresholds_payload()->Object_0);
    r
}

pub open spec fn opt_number_micros(v: Option<JsonView>) -> Option<i64> {
    match v {
        Some(v) => spec_number_micros(v),
        None => None,
    }
}

/// Whether the shadow volume guard would block an entry: the market's
/// Polymarket volume regime is high or extreme and the price-to-beat gap is
/// collapsing, its five-second slope (a JSON number, in millionths) below
/// minus two.
pub open spec fn spec_shadow_volume_would_block(ptb: JsonView, volume: JsonView) -> bool {
    let regime = match opt_as_str(opt_get(volume.get("polymarket"@), "regime"@)) {
        Some(r) => r,
        None => "unknown"@,
    };
    let high_volume = regime == "high"@ || regime == "extreme"@;
    let collapsing = match opt_number_micros(ptb.get("slope_5s"@)) {
        Some(slope) => slope < -2_000_000,
        None => false,
    };
    high_volume && collapsing
}

/// The shadow volume guard's record: always evaluated, whether it would
/// block, and why.
pub open spec fn spec_shadow_volume_guard_payload(ptb: JsonView, volume: JsonView) -> JsonView {
    let would_block = spec_shadow_volume_would_block(ptb, volume);
    JsonView::Object(seq![
        ("evaluated"@, JsonView::Bool(true)),
        ("would_block"@, JsonView::Bool(would_block)),
        ("reason"@, JsonView::Str(if would_block { "high_volume_gap_collapsing"@ } else { "not_high_volume_gap_collapsing"@ })),
    ])
}

pub fn build_shadow_volume_guard_payload(ptb: &JsonValue, volume: &JsonValue) -> (r: JsonValue)
    ensures
        r@ == spec_shadow_volume_guard_payload(ptb@, volume@),
{
    let slope = match ptb.get("slope_5s") {
        Some(v) => number_micros(v),
        None => None,
    };
    let regime: &str = match volume.get("polymarket") {
        Some(p) => match p.get("regime") {
            Some(r) => match r.as_str() {
                Some(s) => s,
                None => "unknown",
            },
            None => "unknown",
        },
        None => "unknown",
    };
    let high_volume = str_eq(regime, "high") || str_eq(regime, "extreme");
    let collapsing = match slope {
        Some(v) => v < -2_000_000,
        None => false,
    };
    let would_block = high_volume && collapsing;
    let mut m: Vec<(String, JsonValue)> = Vec::new();
    assert(view_members(m@) =~= Seq::<(Seq<char>, JsonView)>::empty());
    push_member(&mut m, "evaluated", JsonValue::Bool(true));
    push_member(&mut m, "would_block", JsonValue::Bool(would_block));
    let reason = if would_block { "high_volume_gap_collapsing" } else { "not_high_volume_gap_collapsing" };
    push_member(&mut m, "reason", JsonValue::Str(reason.to_string()));
    let r = object_from(m);
    assert(r@->Object_0 =~= spec_shadow_volume_guard_payload(ptb@, volume@)->Object_0);
    r
}

/// `tag` where `cond` holds, else nothing.
pub open spec fn tag_if(cond: bool, tag: Seq<char>) -> Seq<Seq<char>> {
    if cond { seq![tag] } else { Seq::empty() }
}

/// 210 s or more into the market.
pub open spec fn is_late_entry(market: JsonView) -> bool {
    opt_as_i64(market.get("market_elapsed_s"@)) matches Some(v) && v >= 210
}

/// 60 s or less remaining.
pub open spec fn is_last_minute(market: JsonView) -> bool {
    opt_as_i64(market.get("remaining_s"@)) matches Some(v) && v <= 60
}

/// `very_high_price` from a desired price of 0.85, else `high_price` from
/// 0.75 (in millionths).
pub open spec fn price_tags(desired_price: i64) -> Seq<Seq<char>> {
    if desired_price >= 850_000 {
        seq!["very_high_price"@]
    } else {
        tag_if(desired_price >= 750_000, "high_price"@)
    }
}

/// `high_volume` or `extreme_volume` by the Polymarket volume regime.
pub open spec fn volume_tags(volume: JsonView) -> Seq<Seq<char>> {
    let regime = opt_as_str(opt_get(volume.get("polymarket"@), "regime"@));
    if regime == Some("high"@) {
        seq!["high_volume"@]
    } else {
        tag_if(regime == Some("extreme"@), "extreme_volume"@)
    }
}

/// The gap's five-second slope is below zero.
pub open spec fn is_slope_negative(ptb: JsonView) -> bool {
    opt_number_micros(ptb.get("slope_5s"@)) matches Some(v) && v < 0
}

pub open spec fn is_gap_collapsing(ptb: JsonView) -> bool {
    opt_as_str(ptb.get("trend"@)) == Some("collapsing"@)
}

/// The drawdown from the gap's peak is 6 or more.
pub open spec fn is_drawdown_high(ptb: JsonView) -> bool {
    opt_number_micros(ptb.get("drawdown_from_peak"@)) matches Some(v) && v >= 6_000_000
}

pub open spec fn is_shadow_block(shadow: JsonView) -> bool {
    opt_as_bool(shadow.get("would_block"@)) == Some(true)
}

/// The risk tags of an entry, in this order: `late_entry`, `last_60s`, the
/// price tags, the volume tags, `gap_slope_negative`, `gap_collapsing`
/// (the gap's trend), `gap_peak_drawdown_high`, `shadow_volume_guard_block`
/// (the shadow guard would block). Prices and gap figures in millionths.
pub open spec fn spec_entry_risk_tags(desired_price: i64, ptb: JsonView, volume: JsonView, market: JsonView, shadow: JsonView) -> Seq<Seq<char>> {
    tag_if(is_late_entry(market), "late_entry"@)
        + tag_if(is_last_minute(market), "last_60s"@)
        + price_tags(desired_price)
        + volume_tags(volume)
        + tag_if(is_slope_negative(ptb), "gap_slope_negative"@)
        + tag_if(is_gap_collapsing(ptb), "gap_collapsing"@)
        + tag_if(is_drawdown_high(ptb), "gap_peak_drawdown_high"@)
        + tag_if(is_shadow_block(shadow), "shadow_volume_guard_block"@)
}

pub open spec fn tag_views(tags: Seq<&'static str>) -> Seq<Seq<char>> {
    tags.map_values(|t: &'static str| t@)
}

fn push_tag_if(tags: &mut Vec<&'static str>, cond: bool, tag: &'static str)
    ensures
        tag_views(final(tags)@) == tag_views(old(tags)@) + tag_if(cond, tag@),
{
    if cond {
        tags.push(tag);
    }
    assert(tag_views(tags@) =~= tag_views(old(tags)@) + tag_if(cond, tag@));
}

fn member_i64(doc: &JsonValue, key: &str) -> (r: Option<i64>)
    ensures
        r == opt_as_i64(doc@.get(key@)),
{
    match doc.get(key) {
        Some(v) => v.as_i64(),
        None => None,
    }
}

fn member_number(doc: &JsonValue, key: &str) -> (r: Option<i64>)
    ensures
        r == opt_number_micros(doc@.get(key@)),
{
    match doc.get(key) {
        Some(v) => number_micros(v),
        None => None,
    }
}

fn member_str_is(doc: &JsonValue, key: &str, text: &str) -> (r: bool)
    ensures
        r == (opt_as_str(doc@.get(key@)) == Some(text@)),
{
    match doc.get(key) {
        Some(v) => match v.as_str() {
            Some(t) => str_eq(t, text),
            None => false,
        },
        None => false,
    }
}

fn push_price_tags(tags: &mut Vec<&'static str>, desired_price: i64)
    ensures
        tag_views(final(tags)@) == tag_views(old(tags)@) + price_tags(desired_price),
{
    if desired_price >= 850_000 {
        push_tag_if(tags, true, "very_high_price");
    } else {
        push_tag_if(tags, desired_price >= 750_000, "high_price");
    }
}

fn push_volume_tags(tags: &mut Vec<&'static str>, volume: &JsonValue)
    ensures
        tag_views(final(tags)@) == tag_views(old(tags)@) + volume_tags(volume@),
{
    let regime: Option<&str> = match volume.get("polymarket") {
        Some(pm) => match pm.get("regime") {
            Some(r) => r.as_str(),
            None => None,
        },
        None => None,
    };
    match regime {
        Some(r) => {
            if str_eq(r, "high") {
                push_tag_if(tags, true, "high_volume");
            } else {
                push_tag_if(tags, str_eq(r, "extreme"), "extreme_volume");
            }
        },
        None => {
            push_tag_if(tags, false, "extreme_volume");
        },
    }
}

pub fn risk_tags_from_entry_payload(
    desired_price: i64,
    ptb: &JsonValue,
    volume: &JsonValue,
    market: &JsonValue,
    shadow: &JsonValue,
) -> (r: Vec<&'static str>)
    ensures
        tag_views(r@) == spec_entry_risk_tags(desired_price, ptb@, volume@, market@, shadow@),
{
    let mut tags: Vec<&'static str> = Vec::new();
    assert(tag_views(tags@) =~= Seq::<Seq<char>>::empty());
    let late = match member_i64(market, "market_elapsed_s") {
        Some(v) => v >= 210,
        None => false,
    };
    push_tag_if(&mut tags, late, "late_entry");
    let last_minute = match member_i64(market, "remaining_s") {
        Some(v) => v <= 60,
        None => false,
    };
    push_tag_if(&mut tags, last_minute, "last_60s");
    push_price_tags(&mut tags, desired_price);
    push_volume_tags(&mut tags, volume);
    let negative = match member_number(ptb, "slope_5s") {
        Some(v) => v < 0,
        None => false,
    };
    push_tag_if(&mut tags, negative, "gap_slope_negative");
    push_tag_if(&mut tags, member_str_is(ptb, "trend", "collapsing"), "gap_collapsing");
    let deep = match member_number(ptb, "drawdown_from_peak") {
        Some(v) => v >= 6_000_000,
        None => false,
    };
    push_tag_if(&mut tags, deep, "gap_peak_drawdown_high");
    let blocks = match shadow.get("would_block") {
        Some(v) => match v.as_bool() {
            Some(b) => b,
            None => false,
        },
        None => false,
    };
    push_tag_if(&mut tags, blocks, "shadow_volume_guard_block");
    tags
}

pub open spec fn actual_threshold(actual: JsonView, threshold: JsonView) -> JsonView {
    JsonView::Object(seq![("actual"@, actual), ("threshold"@, threshold)])
}

pub open spec fn opt_or_null(v: Option<JsonView>) -> JsonView {
    match v {
        Some(v) => v,
        None => JsonView::Null,
    }
}

/// The values behind the entry risk tags beside their thresholds: the
/// desired price (in millionths) against the two price thresholds, the
/// gap's five-second slope against zero and minus two, and the time into
/// the market against 210 s.
pub open spec fn spec_risk_tag_values(desired_price: i64, ptb: JsonView, market: JsonView) -> JsonView {
    let slope = opt_or_null(ptb.get("slope_5s"@));
    JsonView::Object(seq![
        ("high_price"@, actual_threshold(micros_json(desired_price), JsonView::Float("0.75"@))),
        ("very_high_price"@, actual_threshold(micros_json(desired_price), JsonView::Float("0.85"@))),
        ("gap_slope_negative"@, actual_threshold(slope, JsonView::Float("0.0"@))),
        ("gap_collapsing"@, actual_threshold(slope, JsonView::Float("-2.0"@))),
        ("late_entry"@, JsonView::Object(seq![
            ("actual_elapsed_s"@, opt_or_null(market.get("market_elapsed_s"@))),
            ("threshold_s"@, JsonView::Int(210)),
        ])),
    ])
}

fn actual_threshold_value(actual: JsonValue, threshold: JsonValue) -> (r: JsonValue)
    ensures
        r@ == actual_threshold(actual@, threshold@),
{
    let mut m: Vec<(String, JsonValue)> = Vec::new();
    assert(view_members(m@) =~= Seq::<(Seq<char>, JsonView)>::empty());
    let ghost a = actual@;
    let ghost t = threshold@;
    push_member(&mut m, "actual", actual);
    push_member(&mut m, "threshold", threshold);
    let r = object_from(m);
    assert(r@->Object_0 =~= actual_threshold(a, t)->Object_0);
    r
}

fn member_or_null(doc: &JsonValue, key: &str) -> (r: JsonValue)
    ensures
        r@ == opt_or_null(doc@.get(key@)),
{
    match doc.get(key) {
        Some(v) => v.deep_clone(),
        None => JsonValue::Null,
    }
}

pub fn risk_tag_values_from_entry_payload(desired_price: i64, ptb: &JsonValue, market: &JsonValue) -> (r: JsonValue)
    ensures
        r@ == spec_risk_tag_values(desired_price, ptb@, market@),
{
    let high = actual_threshold_value(micros_value(desired_price), JsonValue::Float("0.75".to_string()));
    let very_high = actual_threshold_value(micros_value(desired_price), JsonValue::Float("0.85".to_string()));
    let negative = actual_threshold_value(member_or_null(ptb, "slope_5s"), JsonValue::Float("0.0".to_string()));
    let collapsing = actual_threshold_value(member_or_null(ptb, "slope_5s"), JsonValue::Float("-2.0".to_string()));
    let mut late: Vec<(String, JsonValue)> = Vec::new();
    assert(view_members(late@) =~= Seq::<(Seq<char>, JsonView)>::empty());
    let elapsed = member_or_null(market, "market_elapsed_s");
    let ghost ev = elapsed@;
    push_member(&mut late, "actual_elapsed_s", elapsed);
    push_member(&mut late, "threshold_s", JsonValue::Int(210));
    let late_entry = object_from(late);
    assert(late_entry@->Object_0 =~= seq![("actual_elapsed_s"@, ev), ("threshold_s"@, JsonView::Int(210))]);
    let ghost views = seq![
        ("high_price"@, high@),
        ("very_high_price"@, very_high@),
        ("gap_slope_negative"@, negative@),
        ("gap_collapsing"@, collapsing@),
        ("late_entry"@, late_entry@),
    ];
    let mut m: Vec<(String, JsonValue)> = Vec::new();
    assert(view_members(m@) =~= Seq::<(Seq<char>, JsonView)>::empty());
    push_member(&mut m, "high_price", high);
    push_member(&mut m, "very_high_price", very_high);
    push_member(&mut m, "gap_slope_negative", negative);
    push_member(&mut m, "gap_collapsing", collapsing);
    push_member(&mut m, "late_entry", late_entry);
    let r = object_from(m);
    assert(r@->Object_0 =~= views);
    assert(views =~= spec_risk_tag_values(desired_price, ptb@, market@)->Object_0);
    r
}

} // verus!
