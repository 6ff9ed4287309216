//! Per-second market snapshots: the price-to-beat gap toward an outcome, its
//! recent history as the entry decision log records it, and the exit price
//! a snapshot shows for an outcome.
use vstd::prelude::*;
use crate::json::{JsonValue, JsonView, view_members, push_member, object_from};
use crate::decimal::{opt_micros_json, opt_micros_value};
use crate::decision_ids::{spec_outcome_norm, trade_builder_outcome_norm};
use crate::order::TradeBuilderOrder;
use crate::text::{str_eq, concat2, concat3};
use crate::analysis::{spec_outcome_side, trade_builder_analysis_outcome_side};
use crate::buy_guards::{spec_clamp_probability, clamp_probability};

verus! {

broadcast use vstd::string::group_string_axioms;

/// One second of a market as the snapshot table keeps it: prices and
/// depths in millionths, instants in microseconds since the epoch.
pub struct TradeBuilderMarketSecondSnapshot {
    pub market_slug: String,
    pub asset: String,
    pub window_start: i64,
    pub window_end: i64,
    pub second_ts: i64,
    pub ptb_ref_price: Option<i64>,
    pub chainlink_price: Option<i64>,
    pub yes_best_bid: Option<i64>,
    pub yes_best_ask: Option<i64>,
    pub yes_ask_depth_usdc: Option<i64>,
    pub no_best_bid: Option<i64>,
    pub no_best_ask: Option<i64>,
    pub no_ask_depth_usdc: Option<i64>,
    pub sample_count: i64,
}

pub open spec fn fits_i64(x: int) -> bool {
    i64::MIN <= x <= i64::MAX
}

/// The gap between the chainlink price and the price to beat, toward the
/// outcome: chainlink minus reference, the other way round for `DOWN`; none
/// without both prices, or where it does not fit `i64` millionths.
pub open spec fn spec_directional_gap(s: TradeBuilderMarketSecondSnapshot, outcome_norm: Seq<char>) -> Option<i64> {
    match (s.ptb_ref_price, s.chainlink_price) {
        (Some(p), Some(c)) => {
            let g = if outcome_norm == "DOWN"@ { p - c } else { c - p };
            if fits_i64(g) { Some(g as i64) } else { None }
        },
        _ => None,
    }
}

pub fn directional_ptb_gap(snapshot: &TradeBuilderMarketSecondSnapshot, outcome_norm: &str) -> (r: Option<i64>)
    ensures
        r == spec_directional_gap(*snapshot, outcome_norm@),
{
    match (snapshot.ptb_ref_price, snapshot.chainlink_price) {
        (Some(p), Some(c)) => {
            let g: i128 = if str_eq(outcome_norm, "DOWN") { (p as i128) - (c as i128) } else { (c as i128) - (p as i128) };
            if i64::MIN as i128 <= g && g <= i64::MAX as i128 { Some(g as i64) } else { None }
        },
        _ => None,
    }
}

/// The `(second, gap)` samples of a market's snapshots, in the order the
/// snapshots come, leaving out those with no gap.
pub open spec fn gap_samples(snaps: Seq<TradeBuilderMarketSecondSnapshot>, slug: Seq<char>, outcome_norm: Seq<char>) -> Seq<(i64, i64)>
    decreases snaps.len(),
{
    if snaps.len() == 0 {
        Seq::empty()
    } else {
        let init = gap_samples(snaps.drop_last(), slug, outcome_norm);
        let s = snaps.last();
        if s.market_slug@ == slug {
            match spec_directional_gap(s, outcome_norm) {
                Some(g) => init.push((s.second_ts, g)),
                None => init,
            }
        } else {
            init
        }
    }
}

/// The latest sample at or before `target`; of samples of one second, the
/// last listed.
pub open spec fn latest_at_or_before(samples: Seq<(i64, i64)>, target: i64) -> Option<int>
    decreases samples.len(),
{
    if samples.len() == 0 {
        None
    } else {
        let i = samples.len() - 1;
        let prev = latest_at_or_before(samples.drop_last(), target);
        if samples[i].0 <= target {
            match prev {
                None => Some(i),
                Some(p) => if samples[p].0 <= samples[i].0 { Some(i) } else { Some(p) },
            }
        } else {
            prev
        }
    }
}

/// The earliest sample; of samples of one second, the first listed.
pub open spec fn earliest_sample(samples: Seq<(i64, i64)>) -> Option<int>
    decreases samples.len(),
{
    if samples.len() == 0 {
        None
    } else {
        let i = samples.len() - 1;
        match earliest_sample(samples.drop_last()) {
            None => Some(i),
            Some(p) => if samples[i].0 < samples[p].0 { Some(i) } else { Some(p) },
        }
    }
}

/// The gap at `target`: that of the latest sample at or before it, else
/// that of the earliest sample.
pub open spec fn spec_nearest_gap(samples: Seq<(i64, i64)>, target: i64) -> Option<i64> {
    match latest_at_or_before(samples, target) {
        Some(i) => Some(samples[i].1),
        None => match earliest_sample(samples) {
            Some(i) => Some(samples[i].1),
            None => None,
        },
    }
}

/// The sample of the highest gap within `[lo, hi]`; of equal gaps the
/// latest, and of those of one second the last listed.
pub open spec fn peak_sample(samples: Seq<(i64, i64)>, lo: i64, hi: i64) -> Option<int>
    decreases samples.len(),
{
    if samples.len() == 0 {
        None
    } else {
        let i = samples.len() - 1;
        let prev = peak_sample(samples.drop_last(), lo, hi);
        if lo <= samples[i].0 <= hi {
            match prev {
                None => Some(i),
                Some(p) => if samples[p].1 < samples[i].1 || (samples[p].1 == samples[i].1 && samples[p].0 <= samples[i].0) {
                    Some(i)
                } else {
                    Some(p)
                },
            }
        } else {
            prev
        }
    }
}

fn collect_gap_samples(snapshots: &[TradeBuilderMarketSecondSnapshot], slug: &str, outcome_norm: &str) -> (r: Vec<(i64, i64)>)
    ensures
        r@ == gap_samples(snapshots@, slug@, outcome_norm@),
{
    let mut out: Vec<(i64, i64)> = Vec::new();
    let mut i: usize = 0;
    while i < snapshots.len()
        invariant
            i <= snapshots.len(),
            out@ == gap_samples(snapshots@.subrange(0, i as int), slug@, outcome_norm@),
        decreases snapshots.len() - i,
    {
        let s = &snapshots[i];
        let ghost prefix = snapshots@.subrange(0, i + 1);
        assert(prefix.drop_last() =~= snapshots@.subrange(0, i as int));
        assert(prefix.last() == snapshots@[i as int]);
        if str_eq(s.market_slug.as_str(), slug) {
            match directional_ptb_gap(s, outcome_norm) {
                Some(g) => out.push((s.second_ts, g)),
                None => {},
            }
        }
        i = i + 1;
    }
    assert(snapshots@.subrange(0, snapshots@.len() as int) =~= snapshots@);
    out
}

fn latest_index_at_or_before(samples: &[(i64, i64)], target: i64) -> (r: Option<usize>)
    ensures
        match r {
            Some(i) => latest_at_or_before(samples@, target) == Some(i as int) && i < samples.len(),
            None => latest_at_or_before(samples@, target) is None,
        },
{
    let mut best: Option<usize> = None;
    let mut i: usize = 0;
    while i < samples.len()
        invariant
            i <= samples.len(),
            match best {
                Some(b) => b < i && latest_at_or_before(samples@.subrange(0, i as int), target) == Some(b as int),
                None => latest_at_or_before(samples@.subrange(0, i as int), target) is None,
            },
        decreases samples.len() - i,
    {
        let ghost prefix = samples@.subrange(0, i + 1);
        assert(prefix.drop_last() =~= samples@.subrange(0, i as int));
        if samples[i].0 <= target {
            match best {
                None => best = Some(i),
                Some(b) => if samples[b].0 <= samples[i].0 { best = Some(i); },
            }
        }
        i = i + 1;
    }
    assert(samples@.subrange(0, samples@.len() as int) =~= samples@);
    best
}

fn earliest_index(samples: &[(i64, i64)]) -> (r: Option<usize>)
    ensures
        match r {
            Some(i) => earliest_sample(samples@) == Some(i as int) && i < samples.len(),
            None => earliest_sample(samples@) is None,
        },
{
    let mut best: Option<usize> = None;
    let mut i: usize = 0;
    while i < samples.len()
        invariant
            i <= samples.len(),
            match best {
                Some(b) => b < i && earliest_sample(samples@.subrange(0, i as int)) == Some(b as int),
                None => i == 0,
            },
        decreases samples.len() - i,
    {
        let ghost prefix = samples@.subrange(0, i + 1);
        assert(prefix.drop_last() =~= samples@.subrange(0, i as int));
        match best {
            None => best = Some(i),
            Some(b) => if samples[i].0 < samples[b].0 { best = Some(i); },
        }
        i = i + 1;
    }
    assert(samples@.subrange(0, samples@.len() as int) =~= samples@);
    best
}

/// The gap at `target` (see `spec_nearest_gap`).
pub fn nearest_gap_at_or_before(samples: &[(i64, i64)], target: i64) -> (r: Option<i64>)
    ensures
        r == spec_nearest_gap(samples@, target),
{
    match latest_index_at_or_before(samples, target) {
        Some(i) => Some(samples[i].1),
        None => match earliest_index(samples) {
            Some(i) => Some(samples[i].1),
            None => None,
        },
    }
}

fn peak_index(samples: &[(i64, i64)], lo: i64, hi: i64) -> (r: Option<usize>)
    ensures
        match r {
            Some(i) => peak_sample(samples@, lo, hi) == Some(i as int) && i < samples.len(),
            None => peak_sample(samples@, lo, hi) is None,
        },
{
    let mut best: Option<usize> = None;
    let mut i: usize = 0;
    while i < samples.len()
        invariant
            i <= samples.len(),
            match best {
                Some(b) => b < i && peak_sample(samples@.subrange(0, i as int), lo, hi) == Some(b as int),
                None => peak_sample(samples@.subrange(0, i as int), lo, hi) is None,
            },
        decreases samples.len() - i,
    {
        let ghost prefix = samples@.subrange(0, i + 1);
        assert(prefix.drop_last() =~= samples@.subrange(0, i as int));
        let (ts, gap) = samples[i];
        if lo <= ts && ts <= hi {
            match best {
                None => best = Some(i),
                Some(b) => {
                    let (bts, bgap) = samples[b];
                    if bgap < gap || (bgap == gap && bts <= ts) {
                        best = Some(i);
                    }
                },
            }
        }
        i = i + 1;
    }
    assert(samples@.subrange(0, samples@.len() as int) =~= samples@);
    best
}

/// `a - b` where both are known and the difference fits.
pub open spec fn opt_diff(a: Option<i64>, b: Option<i64>) -> Option<i64> {
    match (a, b) {
        (Some(x), Some(y)) => if fits_i64(x - y) { Some((x - y) as i64) } else { None },
        _ => None,
    }
}

fn opt_sub(a: Option<i64>, b: Option<i64>) -> (r: Option<i64>)
    ensures
        r == opt_diff(a, b),
{
    match (a, b) {
        (Some(x), Some(y)) => {
            let d: i128 = (x as i128) - (y as i128);
            if i64::MIN as i128 <= d && d <= i64::MAX as i128 { Some(d as i64) } else { None }
        },
        _ => None,
    }
}

/// The gap's trend from its five-second slope: expanding above 2,
/// collapsing below minus 2, else flat; unknown without a slope.
pub open spec fn spec_gap_trend(slope: Option<i64>) -> Seq<char> {
    match slope {
        Some(v) => if v > 2_000_000 { "expanding"@ } else if v < -2_000_000 { "collapsing"@ } else { "flat"@ },
        None => "unknown"@,
    }
}

fn gap_trend(slope: Option<i64>) -> (r: &'static str)
    ensures
        r@ == spec_gap_trend(slope),
{
    match slope {
        Some(v) => if v > 2_000_000 { "expanding" } else if v < -2_000_000 { "collapsing" } else { "flat" },
        None => "unknown",
    }
}

/// The direction whose gap is tracked: the order's outcome, `UP` where the
/// label names none.
pub open spec fn gap_direction(order: TradeBuilderOrder) -> Seq<char> {
    match spec_outcome_norm(order.outcome_label@) {
        Some(n) => n,
        None => "UP"@,
    }
}

/// What the gap history of an order's market shows at `event_ts`.
pub struct PtbGapHistory {
    pub now: Option<i64>,
    pub gap_3s: Option<i64>,
    pub gap_5s: Option<i64>,
    pub gap_10s: Option<i64>,
    pub peak_gap: Option<i64>,
    pub since_peak: Option<i64>,
}

/// The gap history of a set of samples at `event_ts`: the gap now, 3, 5
/// and 10 seconds before, and the peak of the last 30 seconds with the time
/// since it (whole milliseconds, in millionths of a second).
pub open spec fn spec_gap_history(samples: Seq<(i64, i64)>, event_ts: i64) -> PtbGapHistory {
    let peak = peak_sample(samples, (event_ts - 30_000_000) as i64, event_ts);
    PtbGapHistory {
        now: spec_nearest_gap(samples, event_ts),
        gap_3s: spec_nearest_gap(samples, (event_ts - 3_000_000) as i64),
        gap_5s: spec_nearest_gap(samples, (event_ts - 5_000_000) as i64),
        gap_10s: spec_nearest_gap(samples, (event_ts - 10_000_000) as i64),
        peak_gap: match peak {
            Some(i) => Some(samples[i].1),
            None => None,
        },
        since_peak: match peak {
            Some(i) => Some((((event_ts - samples[i].0) / 1000) * 1000) as i64),
            None => None,
        },
    }
}

fn gap_history(samples: &[(i64, i64)], event_ts: i64) -> (r: PtbGapHistory)
    requires
        event_ts >= i64::MIN + 30_000_000,
    ensures
        r == spec_gap_history(samples@, event_ts),
{
    let lo: i64 = event_ts - 30_000_000;
    let peak = peak_index(samples, lo, event_ts);
    let (peak_gap, since_peak) = match peak {
        Some(i) => {
            let (ts, gap) = samples[i];
            assert(lo <= ts <= event_ts) by {
                lemma_peak_in_window(samples@, lo, event_ts);
            }
            let ms: i64 = (event_ts - ts) / 1000;
            (Some(gap), Some(ms * 1000))
        },
        None => (None, None),
    };
    PtbGapHistory {
        now: nearest_gap_at_or_before(samples, event_ts),
        gap_3s: nearest_gap_at_or_before(samples, event_ts - 3_000_000),
        gap_5s: nearest_gap_at_or_before(samples, event_ts - 5_000_000),
        gap_10s: nearest_gap_at_or_before(samples, event_ts - 10_000_000),
        peak_gap,
        since_peak,
    }
}

/// The peak sample lies in the window.
pub proof fn lemma_peak_in_window(samples: Seq<(i64, i64)>, lo: i64, hi: i64)
    ensures
        match peak_sample(samples, lo, hi) {
            Some(i) => 0 <= i < samples.len() && lo <= samples[i].0 <= hi,
            None => true,
        },
    decreases samples.len(),
{
    if samples.len() > 0 {
        let init = samples.drop_last();
        lemma_peak_in_window(init, lo, hi);
        match peak_sample(init, lo, hi) {
            Some(p) => assert(init[p] == samples[p]),
            None => {},
        }
    }
}

/// The price-to-beat gap block of the entry decision log: the history key
/// (market, direction, token), the gap now and 3, 5 and 10 seconds before,
/// the slopes over those spans, the trend, the peak of the last 30 seconds,
/// the seconds since it and the drawdown from it. Gaps in millionths.
pub open spec fn spec_ptb_payload(order: TradeBuilderOrder, event_ts: i64, snaps: Seq<TradeBuilderMarketSecondSnapshot>) -> JsonView {
    let dir = gap_direction(order);
    let h = spec_gap_history(gap_samples(snaps, order.market_slug@, dir), event_ts);
    let slope_5s = opt_diff(h.now, h.gap_5s);
    JsonView::Object(seq![
        ("history_key"@, JsonView::Str(order.market_slug@ + ":"@ + dir + ":"@ + order.token_id@)),
        ("gap_now"@, opt_micros_json(h.now)),
        ("gap_3s_ago"@, opt_micros_json(h.gap_3s)),
        ("gap_5s_ago"@, opt_micros_json(h.gap_5s)),
        ("gap_10s_ago"@, opt_micros_json(h.gap_10s)),
        ("slope_3s"@, opt_micros_json(opt_diff(h.now, h.gap_3s))),
        ("slope_5s"@, opt_micros_json(slope_5s)),
        ("slope_10s"@, opt_micros_json(opt_diff(h.now, h.gap_10s))),
        ("trend"@, JsonView::Str(spec_gap_trend(slope_5s))),
        ("peak_last_30s"@, opt_micros_json(h.peak_gap)),
        ("seconds_since_peak"@, opt_micros_json(h.since_peak)),
        ("drawdown_from_peak"@, opt_micros_json(opt_diff(h.peak_gap, h.now))),
    ])
}

pub fn build_ptb_payload_from_snapshots(
    order: &TradeBuilderOrder,
    event_ts: i64,
    snapshots: &[TradeBuilderMarketSecondSnapshot],
) -> (r: JsonValue)
    requires
        event_ts >= i64::MIN + 30_000_000,
    ensures
        r@ == spec_ptb_payload(*order, event_ts, snapshots@),
{
    let dir: &str = match trade_builder_outcome_norm(order.outcome_label.as_str()) {
        Some(n) => n,
        None => "UP",
    };
    let samples = collect_gap_samples(snapshots, order.market_slug.as_str(), dir);
    let h = gap_history(samples.as_slice(), event_ts);
    let slope_3s = opt_sub(h.now, h.gap_3s);
    let slope_5s = opt_sub(h.now, h.gap_5s);
    let slope_10s = opt_sub(h.now, h.gap_10s);
    let drawdown = opt_sub(h.peak_gap, h.now);
    let head = concat3(order.market_slug.as_str(), ":", dir);
    let tail = concat2(":", order.token_id.as_str());
    let key = concat2(head.as_str(), tail.as_str());
    assert(dir@ == gap_direction(*order));
    assert(key@ =~= order.market_slug@ + ":"@ + gap_direction(*order) + ":"@ + order.token_id@);
    assert(h == spec_gap_history(gap_samples(snapshots@, order.market_slug@, gap_direction(*order)), event_ts));
    let mut m: Vec<(String, JsonValue)> = Vec::new();
    assert(view_members(m@) =~= Seq::<(Seq<char>, JsonView)>::empty());
    push_member(&mut m, "history_key", JsonValue::Str(key));
    push_member(&mut m, "gap_now", opt_micros_value(h.now));
    push_member(&mut m, "gap_3s_ago", opt_micros_value(h.gap_3s));
    push_member(&mut m, "gap_5s_ago", opt_micros_value(h.gap_5s));
    push_member(&mut m, "gap_10s_ago", opt_micros_value(h.gap_10s));
    push_member(&mut m, "slope_3s", opt_micros_value(slope_3s));
    push_member(&mut m, "slope_5s", opt_micros_value(slope_5s));
    push_member(&mut m, "slope_10s", opt_micros_value(slope_10s));
    push_member(&mut m, "trend", JsonValue::Str(gap_trend(slope_5s).to_string()));
    push_member(&mut m, "peak_last_30s", opt_micros_value(h.peak_gap));
    push_member(&mut m, "seconds_since_peak", opt_micros_value(h.since_peak));
    push_member(&mut m, "drawdown_from_peak", opt_micros_value(drawdown));
    let r = object_from(m);
    assert(r@->Object_0 =~= spec_ptb_payload(*order, event_ts, snapshots@)->Object_0);
    r
}

pub open spec fn opt_or(a: Option<i64>, b: Option<i64>) -> Option<i64> {
    match a {
        Some(x) => Some(x),
        None => b,
    }
}

pub open spec fn opt_clamp(v: Option<i64>) -> Option<i64> {
    match v {
        Some(x) => Some(spec_clamp_probability(x)),
        None => None,
    }
}

/// The price at which a snapshot would let a position in the outcome be
/// sold: the outcome side's best bid, else its best ask, clamped to a
/// probability; none for a label of neither side.
pub open spec fn spec_snapshot_exit_price(s: TradeBuilderMarketSecondSnapshot, outcome_label: Seq<char>) -> Option<i64> {
    match spec_outcome_side(outcome_label) {
        Some(side) => if side == "yes"@ {
            opt_clamp(opt_or(s.yes_best_bid, s.yes_best_ask))
        } else if side == "no"@ {
            opt_clamp(opt_or(s.no_best_bid, s.no_best_ask))
        } else {
            None
        },
        None => None,
    }
}

pub fn trade_builder_analysis_snapshot_exit_price(snapshot: &TradeBuilderMarketSecondSnapshot, outcome_label: &str) -> (r: Option<i64>)
    ensures
        r == spec_snapshot_exit_price(*snapshot, outcome_label@),
{
    let side = match trade_builder_analysis_outcome_side(outcome_label) {
        Some(side) => side,
        None => return None,
    };
    let raw = if str_eq(side, "yes") {
        match snapshot.yes_best_bid {
            Some(p) => Some(p),
            None => snapshot.yes_best_ask,
        }
    } else if str_eq(side, "no") {
        match snapshot.no_best_bid {
            Some(p) => Some(p),
            None => snapshot.no_best_ask,
        }
    } else {
        None
    };
    match raw {
        Some(p) => Some(clamp_probability(p)),
        None => None,
    }
}

/// The best and worst exit price a position saw while held, and how many
/// snapshots showed one.
pub struct AutoScopeDiagnosticPath {
    pub best_price: Option<i64>,
    pub worst_price: Option<i64>,
    pub sample_count: usize,
}

/// The exit prices of the snapshots within the hold (from `start`, until
/// `end`, where known), in the order the snapshots come.
pub open spec fn hold_prices(snaps: Seq<TradeBuilderMarketSecondSnapshot>, outcome_label: Seq<char>, start: Option<i64>, end: Option<i64>) -> Seq<i64>
    decreases snaps.len(),
{
    if snaps.len() == 0 {
        Seq::empty()
    } else {
        let init = hold_prices(snaps.drop_last(), outcome_label, start, end);
        let s = snaps.last();
        let in_hold = !(start matches Some(a) && s.second_ts < a) && !(end matches Some(b) && s.second_ts > b);
        if in_hold {
            match spec_snapshot_exit_price(s, outcome_label) {
                Some(p) => init.push(p),
                None => init,
            }
        } else {
            init
        }
    }
}

pub open spec fn seq_max(v: Seq<i64>) -> Option<i64>
    decreases v.len(),
{
    if v.len() == 0 {
        None
    } else {
        match seq_max(v.drop_last()) {
            Some(m) => Some(if v.last() > m { v.last() } else { m }),
            None => Some(v.last()),
        }
    }
}

pub open spec fn seq_min(v: Seq<i64>) -> Option<i64>
    decreases v.len(),
{
    if v.len() == 0 {
        None
    } else {
        match seq_min(v.drop_last()) {
            Some(m) => Some(if v.last() < m { v.last() } else { m }),
            None => Some(v.last()),
        }
    }
}

/// The price path of a hold: the highest and lowest exit price within it
/// and their number.
pub open spec fn spec_price_path(snaps: Seq<TradeBuilderMarketSecondSnapshot>, outcome_label: Seq<char>, start: Option<i64>, end: Option<i64>) -> (Option<i64>, Option<i64>, nat) {
    let prices = hold_prices(snaps, outcome_label, start, end);
    (seq_max(prices), seq_min(prices), prices.len())
}

proof fn lemma_seq_bounds(v: Seq<i64>)
    ensures
        match (seq_max(v), seq_min(v)) {
            (Some(hi), Some(lo)) => v.len() > 0 && lo <= hi
                && (forall|k: int| 0 <= k < v.len() ==> lo <= #[trigger] v[k] <= hi)
                && v.contains(hi) && v.contains(lo),
            (None, None) => v.len() == 0,
            _ => false,
        },
    decreases v.len(),
{
    if v.len() > 0 {
        let init = v.drop_last();
        lemma_seq_bounds(init);
        let last = v.last();
        assert(v[v.len() - 1] == last);
        assert forall|k: int| 0 <= k < init.len() implies #[trigger] init[k] == v[k] by {}
        if init.len() > 0 {
            let hi0 = seq_max(init)->0;
            let lo0 = seq_min(init)->0;
            let hi = seq_max(v)->0;
            let lo = seq_min(v)->0;
            assert(hi == if last > hi0 { last } else { hi0 });
            assert(lo == if last < lo0 { last } else { lo0 });
            assert forall|k: int| 0 <= k < v.len() implies lo <= #[trigger] v[k] <= hi by {
                if k < v.len() - 1 {
                    assert(init[k] == v[k]);
                }
            }
            let ih = choose|k: int| 0 <= k < init.len() && init[k] == hi0;
            let il = choose|k: int| 0 <= k < init.len() && init[k] == lo0;
            assert(v[ih] == hi0);
            assert(v[il] == lo0);
            if last > hi0 { assert(v.contains(hi)); } else { assert(v.contains(hi)); }
            if last < lo0 { assert(v.contains(lo)); } else { assert(v.contains(lo)); }
        } else {
            assert(v[0] == last);
            assert(v.contains(last));
        }
    }
}

/// Law: the best price of a hold is the highest exit price seen within it
/// and the worst the lowest, so the worst never exceeds the best; a hold
/// with no exit price has neither.
pub proof fn law_price_path_bounds(snaps: Seq<TradeBuilderMarketSecondSnapshot>, outcome_label: Seq<char>, start: Option<i64>, end: Option<i64>)
    ensures
        ({
            let prices = hold_prices(snaps, outcome_label, start, end);
            let (best, worst, count) = spec_price_path(snaps, outcome_label, start, end);
            match (best, worst) {
                (Some(hi), Some(lo)) => count > 0 && lo <= hi
                    && (forall|k: int| 0 <= k < prices.len() ==> lo <= #[trigger] prices[k] <= hi)
                    && prices.contains(hi) && prices.contains(lo),
                (None, None) => count == 0,
                _ => false,
            }
        }),
{
    lemma_seq_bounds(hold_prices(snaps, outcome_label, start, end));
}

/// Every exit price of a hold is a probability.
proof fn lemma_hold_prices_probabilities(snaps: Seq<TradeBuilderMarketSecondSnapshot>, outcome_label: Seq<char>, start: Option<i64>, end: Option<i64>)
    ensures
        forall|k: int| 0 <= k < hold_prices(snaps, outcome_label, start, end).len()
            ==> 0 <= #[trigger] hold_prices(snaps, outcome_label, start, end)[k] <= 1_000_000,
    decreases snaps.len(),
{
    if snaps.len() > 0 {
        lemma_hold_prices_probabilities(snaps.drop_last(), outcome_label, start, end);
        let init = hold_prices(snaps.drop_last(), outcome_label, start, end);
        let all = hold_prices(snaps, outcome_label, start, end);
        match spec_snapshot_exit_price(snaps.last(), outcome_label) {
            Some(p) => {
                assert(0 <= p <= 1_000_000);
                assert forall|k: int| 0 <= k < all.len() implies 0 <= #[trigger] all[k] <= 1_000_000 by {
                    if k < init.len() {
                        assert(all[k] == init[k]);
                    }
                }
            },
            None => {},
        }
    }
}

pub fn trade_builder_analysis_price_path(
    snapshots: &[TradeBuilderMarketSecondSnapshot],
    outcome_label: &str,
    hold_start: Option<i64>,
    hold_end: Option<i64>,
) -> (r: AutoScopeDiagnosticPath)
    ensures
        (r.best_price, r.worst_price, r.sample_count as nat) == spec_price_path(snapshots@, outcome_label@, hold_start, hold_end),
        r.best_price matches Some(p) ==> 0 <= p <= 1_000_000,
        r.worst_price matches Some(p) ==> 0 <= p <= 1_000_000,
{
    proof {
        lemma_hold_prices_probabilities(snapshots@, outcome_label@, hold_start, hold_end);
        lemma_seq_bounds(hold_prices(snapshots@, outcome_label@, hold_start, hold_end));
    }
    let mut best_price: Option<i64> = None;
    let mut worst_price: Option<i64> = None;
    let mut sample_count: usize = 0;
    let mut i: usize = 0;
    while i < snapshots.len()
        invariant
            i <= snapshots.len(),
            ({
                let prices = hold_prices(snapshots@.subrange(0, i as int), outcome_label@, hold_start, hold_end);
                best_price == seq_max(prices) && worst_price == seq_min(prices) && sample_count as nat == prices.len()
            }),
            sample_count <= i,
        decreases snapshots.len() - i,
    {
        let ghost prefix = snapshots@.subrange(0, i + 1);
        assert(prefix.drop_last() =~= snapshots@.subrange(0, i as int));
        assert(prefix.last() == snapshots@[i as int]);
        let s = &snapshots[i];
        let before_start = match hold_start {
            Some(a) => s.second_ts < a,
            None => false,
        };
        let after_end = match hold_end {
            Some(b) => s.second_ts > b,
            None => false,
        };
        if !before_start && !after_end {
            match trade_builder_analysis_snapshot_exit_price(s, outcome_label) {
                Some(price) => {
                    best_price = match best_price {
                        Some(m) => Some(if price > m { price } else { m }),
                        None => Some(price),
                    };
                    worst_price = match worst_price {
                        Some(m) => Some(if price < m { price } else { m }),
                        None => Some(price),
                    };
                    sample_count = sample_count + 1;
                    let ghost prices = hold_prices(prefix, outcome_label@, hold_start, hold_end);
                    assert(prices.drop_last() == hold_prices(snapshots@.subrange(0, i as int), outcome_label@, hold_start, hold_end));
                },
                None => {},
            }
        }
        i = i + 1;
    }
    assert(snapshots@.subrange(0, snapshots@.len() as int) =~= snapshots@);
    AutoScopeDiagnosticPath { best_price, worst_price, sample_count }
}

} // verus!
