//! The auto-scope trade analysis: reading event payloads, market windows
//! from market slugs, and the small classifications of the analysis rows.
use vstd::prelude::*;
use crate::flow::key_views;
use crate::order::{TradeBuilderOrder, opt_text};
use crate::json::{JsonValue, JsonView, opt_as_str};
use crate::text::{
    str_eq, str_contains, contains, lower, trim, trimmed_non_empty, trimmed_lower, chars_of,
    trim_chars, last_segment, last_segment_chars, all_digits, all_ascii_digits, digits_value,
    parse_digits, to_ascii_lowercase, pow10, lemma_pow10_monotone,
};
use crate::json_number::{spec_json_micros, json_micros};
use crate::time::{
    rfc3339_instant_micros, parse_rfc3339_micros, utc_micros_from_timestamp,
    utc_micros_from_timestamp_millis, utc_now_micros, MICROS_PER_MINUTE,
};

verus! {

broadcast use vstd::string::group_string_axioms;

/// The delays before the retries of an analysis refresh, in seconds.
pub const AUTO_SCOPE_ANALYSIS_REFRESH_RETRY_DELAYS_SECS: [u64; 4] = [1, 3, 8, 20];

/// The result of an analysis refresh.
#[derive(Debug, Clone, Copy, PartialEq, Eq)]
pub enum AutoScopeAnalysisRefreshOutcome {
    Updated,
    Skipped(&'static str),
}

impl AutoScopeAnalysisRefreshOutcome {
    pub fn event_type(self) -> (r: &'static str)
        ensures
            r@ == match self {
                AutoScopeAnalysisRefreshOutcome::Updated => "AUTO_SCOPE_ANALYSIS_REFRESH_UPDATED"@,
                AutoScopeAnalysisRefreshOutcome::Skipped(_) => "AUTO_SCOPE_ANALYSIS_REFRESH_SKIPPED"@,
            },
    {
        match self {
            AutoScopeAnalysisRefreshOutcome::Updated => "AUTO_SCOPE_ANALYSIS_REFRESH_UPDATED",
            AutoScopeAnalysisRefreshOutcome::Skipped(_) => "AUTO_SCOPE_ANALYSIS_REFRESH_SKIPPED",
        }
    }

    pub fn skip_reason(self) -> (r: Option<&'static str>)
        ensures
            r == match self {
                AutoScopeAnalysisRefreshOutcome::Updated => None,
                AutoScopeAnalysisRefreshOutcome::Skipped(reason) => Some(reason),
            },
    {
        match self {
            AutoScopeAnalysisRefreshOutcome::Updated => None,
            AutoScopeAnalysisRefreshOutcome::Skipped(reason) => Some(reason),
        }
    }
}

/// What started an analysis refresh, and which retry it is.
#[derive(Debug, Clone, Copy)]
pub struct AutoScopeAnalysisRefreshContext {
    pub trigger: &'static str,
    pub retry_attempt_no: u8,
    pub max_retry_attempts: u8,
}

impl AutoScopeAnalysisRefreshContext {
    /// A first refresh: no retry yet, as many retries allowed as there are delays.
    pub fn direct(trigger: &'static str) -> (r: Self)
        ensures
            r.trigger == trigger,
            r.retry_attempt_no == 0,
            r.max_retry_attempts == 4,
    {
        AutoScopeAnalysisRefreshContext { trigger, retry_attempt_no: 0, max_retry_attempts: 4 }
    }

    /// The refresh of a given retry.
    pub fn retry(trigger: &'static str, retry_attempt_no: u8) -> (r: Self)
        ensures
            r.trigger == trigger,
            r.retry_attempt_no == retry_attempt_no,
            r.max_retry_attempts == 4,
    {
        AutoScopeAnalysisRefreshContext { trigger, retry_attempt_no, max_retry_attempts: 4 }
    }
}

/// A skipped refresh is retried when the buy fill was not recorded yet.
pub fn auto_scope_analysis_refresh_should_retry(reason: &str) -> (r: bool)
    ensures
        r == (reason@ == "missing_buy_fill_metrics"@ || reason@ == "zero_buy_fill_qty"@),
{
    str_eq(reason, "missing_buy_fill_metrics") || str_eq(reason, "zero_buy_fill_qty")
}

/// The rank of a trigger event type: lower ranks win ties.
pub open spec fn spec_event_priority(event_type: Seq<char>) -> i32 {
    if event_type == "trigger_once_fired"@ {
        0
    } else if event_type == "trigger_cycle_window_condition_met"@ {
        1
    } else if event_type == "trigger_ws_price_enqueued"@ {
        2
    } else {
        99
    }
}

pub fn trade_builder_analysis_event_priority(event_type: &str) -> (r: i32)
    ensures
        r == spec_event_priority(event_type@),
{
    if str_eq(event_type, "trigger_once_fired") {
        0
    } else if str_eq(event_type, "trigger_cycle_window_condition_met") {
        1
    } else if str_eq(event_type, "trigger_ws_price_enqueued") {
        2
    } else {
        99
    }
}

/// The non-blank trimmed text of a string member.
pub open spec fn member_text(doc: JsonView, key: Seq<char>) -> Option<Seq<char>> {
    match opt_as_str(doc.get(key)) {
        Some(s) => if trim(s).len() > 0 { Some(trim(s)) } else { None },
        None => None,
    }
}

/// The first of `keys` whose member is a non-blank string, trimmed.
pub open spec fn first_key_text(doc: JsonView, keys: Seq<Seq<char>>) -> Option<Seq<char>>
    decreases keys.len(),
{
    if keys.len() == 0 {
        None
    } else {
        match member_text(doc, keys[0]) {
            Some(t) => Some(t),
            None => first_key_text(doc, keys.drop_first()),
        }
    }
}

fn member_text_of(doc: &JsonValue, key: &str) -> (r: Option<String>)
    ensures
        match r {
            Some(s) => member_text(doc@, key@) == Some(s@),
            None => member_text(doc@, key@) is None,
        },
{
    match doc.get(key) {
        Some(v) => match v.as_str() {
            Some(s) => trimmed_non_empty(s),
            None => None,
        },
        None => None,
    }
}

pub fn trade_builder_analysis_payload_string(payload: &JsonValue, keys: &[&str]) -> (r: Option<String>)
    ensures
        match r {
            Some(s) => first_key_text(payload@, key_views(keys@)) == Some(s@),
            None => first_key_text(payload@, key_views(keys@)) is None,
        },
{
    let ghost ks = key_views(keys@);
    let mut i: usize = 0;
    proof { assert(ks.subrange(0, ks.len() as int) =~= ks); }
    while i < keys.len()
        invariant
            i <= keys.len(),
            ks == key_views(keys@),
            ks.len() == keys@.len(),
            first_key_text(payload@, ks) == first_key_text(payload@, ks.subrange(i as int, ks.len() as int)),
        decreases keys.len() - i,
    {
        let ghost rest = ks.subrange(i as int, ks.len() as int);
        assert(rest[0] == keys@[i as int]@);
        match member_text_of(payload, keys[i]) {
            Some(t) => return Some(t),
            None => {},
        }
        assert(rest.drop_first() =~= ks.subrange(i + 1, ks.len() as int));
        i = i + 1;
    }
    None
}

/// The first of `keys` whose member is a non-blank string that parses as an
/// RFC 3339 instant.
pub open spec fn first_key_instant(doc: JsonView, keys: Seq<Seq<char>>) -> Option<i64>
    decreases keys.len(),
{
    if keys.len() == 0 {
        None
    } else {
        match member_text(doc, keys[0]) {
            Some(t) => match rfc3339_instant_micros(t) {
                Some(m) => Some(m),
                None => first_key_instant(doc, keys.drop_first()),
            },
            None => first_key_instant(doc, keys.drop_first()),
        }
    }
}

pub fn trade_builder_analysis_payload_datetime(payload: &JsonValue, keys: &[&str]) -> (r: Option<i64>)
    ensures
        r == first_key_instant(payload@, key_views(keys@)),
        r matches Some(t) ==> crate::time::in_chrono_range(t),
{
    let ghost ks = key_views(keys@);
    let mut i: usize = 0;
    proof { assert(ks.subrange(0, ks.len() as int) =~= ks); }
    while i < keys.len()
        invariant
            i <= keys.len(),
            ks == key_views(keys@),
            ks.len() == keys@.len(),
            first_key_instant(payload@, ks) == first_key_instant(payload@, ks.subrange(i as int, ks.len() as int)),
        decreases keys.len() - i,
    {
        let ghost rest = ks.subrange(i as int, ks.len() as int);
        assert(rest[0] == keys@[i as int]@);
        match member_text_of(payload, keys[i]) {
            Some(t) => {
                let parsed = parse_rfc3339_micros(t.as_str());
                if parsed.is_some() {
                    return parsed;
                }
            },
            None => {},
        }
        assert(rest.drop_first() =~= ks.subrange(i + 1, ks.len() as int));
        i = i + 1;
    }
    None
}

/// The opening instant of a market window, from the epoch at the end of its
/// slug (`btc-updown-5m-1772296200`): 9 to 13 digits after the last dash;
/// above ten billion they count milliseconds, else seconds.
pub open spec fn spec_market_open_at_from_slug(slug: Seq<char>) -> Option<i64> {
    let suffix = last_segment(trim(slug), '-');
    if suffix.len() < 9 || suffix.len() > 13 || !all_digits(suffix) {
        None
    } else {
        let raw = digits_value(suffix);
        if raw <= 0 {
            None
        } else if raw > 10_000_000_000 {
            Some((raw * 1000) as i64)
        } else {
            Some((raw * 1_000_000) as i64)
        }
    }
}

pub fn trade_builder_analysis_market_open_at_from_slug(market_slug: &str) -> (r: Option<i64>)
    ensures
        r == spec_market_open_at_from_slug(market_slug@),
        r matches Some(m) ==> 0 < m <= 10_000_000_000_000_000,
{
    let chars = chars_of(market_slug);
    let t = trim_chars(&chars);
    let suffix = last_segment_chars(&t, '-');
    if suffix.len() < 9 || suffix.len() > 13 || !all_ascii_digits(&suffix) {
        return None;
    }
    let raw = parse_digits(&suffix);
    proof {
        lemma_pow10_monotone(suffix.len() as nat, 13);
        assert(pow10(13) == 10_000_000_000_000) by { reveal_with_fuel(pow10, 14); }
    }
    let raw_ts: i64 = raw as i64;
    if raw_ts <= 0 {
        return None;
    }
    if raw_ts > 10_000_000_000 {
        return utc_micros_from_timestamp_millis(raw_ts);
    }
    utc_micros_from_timestamp(raw_ts)
}

/// The closing instant of a market window: fifteen minutes after its
/// opening for a `-15m-` slug, five minutes otherwise.
pub open spec fn spec_market_end_at_from_slug(slug: Seq<char>) -> Option<i64> {
    match spec_market_open_at_from_slug(slug) {
        Some(open) => Some((open + if contains(lower(slug), "-15m-"@) { 15 * MICROS_PER_MINUTE } else { 5 * MICROS_PER_MINUTE }) as i64),
        None => None,
    }
}

pub fn trade_builder_analysis_market_end_at_from_slug(market_slug: &str) -> (r: Option<i64>)
    ensures
        r == spec_market_end_at_from_slug(market_slug@),
{
    let open_at = match trade_builder_analysis_market_open_at_from_slug(market_slug) {
        Some(o) => o,
        None => return None,
    };
    let lowered = to_ascii_lowercase(market_slug);
    let duration: i64 = if str_contains(lowered.as_str(), "-15m-") { 15 * MICROS_PER_MINUTE } else { 5 * MICROS_PER_MINUTE };
    Some(open_at + duration)
}

/// Whether a market window has closed, at a given instant.
pub open spec fn spec_market_has_ended_at(slug: Seq<char>, now: i64) -> bool {
    match spec_market_end_at_from_slug(slug) {
        Some(end) => now >= end,
        None => false,
    }
}

/// Whether a market window has closed at `now`.
pub fn trade_builder_analysis_market_has_ended_at(market_slug: &str, now: i64) -> (r: bool)
    ensures
        r == spec_market_has_ended_at(market_slug@, now),
{
    match trade_builder_analysis_market_end_at_from_slug(market_slug) {
        Some(end) => now >= end,
        None => false,
    }
}

/// Whether a market window has closed, by the clock.
pub fn trade_builder_analysis_market_has_ended(market_slug: &str) -> (r: bool)
    ensures
        spec_market_end_at_from_slug(market_slug@) is None ==> !r,
        exists|now: i64| crate::time::in_chrono_range(now) && r == spec_market_has_ended_at(market_slug@, now),
{
    let now = utc_now_micros();
    let r = trade_builder_analysis_market_has_ended_at(market_slug, now);
    assert(crate::time::in_chrono_range(now) && r == spec_market_has_ended_at(market_slug@, now));
    r
}

/// The outcome side of an outcome label: `yes` for yes/up labels, `no` for
/// no/down labels.
pub open spec fn spec_outcome_side(label: Seq<char>) -> Option<Seq<char>> {
    let n = lower(trim(label));
    if n == "yes"@ || n == "up"@ || contains(n, " up"@) {
        Some("yes"@)
    } else if n == "no"@ || n == "down"@ || contains(n, " down"@) {
        Some("no"@)
    } else {
        None
    }
}

pub fn trade_builder_analysis_outcome_side(label: &str) -> (r: Option<&'static str>)
    ensures
        crate::exit_errors::opt_str_text(r) == spec_outcome_side(label@),
{
    let n = trimmed_lower(label);
    let s = n.as_str();
    if str_eq(s, "yes") || str_eq(s, "up") || str_contains(s, " up") {
        return Some("yes");
    }
    if str_eq(s, "no") || str_eq(s, "down") || str_contains(s, " down") {
        return Some("no");
    }
    None
}

/// Whole milliseconds from `start` to `end`, never negative; `None` unless
/// both are known.
pub open spec fn spec_duration_ms(start: Option<i64>, end: Option<i64>) -> Option<i64> {
    match (start, end) {
        (Some(s), Some(e)) => Some(if e - s <= 0 { 0 } else { ((e - s) / 1000) as i64 }),
        _ => None,
    }
}

pub fn trade_builder_analysis_duration_ms(start: Option<i64>, end: Option<i64>) -> (r: Option<i64>)
    ensures
        r == spec_duration_ms(start, end),
{
    match (start, end) {
        (Some(s), Some(e)) => {
            let d: i128 = (e as i128) - (s as i128);
            if d <= 0 {
                Some(0)
            } else {
                Some((d / 1000) as i64)
            }
        },
        _ => None,
    }
}

/// The earlier of a known instant and a timestamp in seconds; `None` when the
/// timestamp is missing or out of range.
pub open spec fn spec_min_datetime(current: Option<i64>, ts: Option<i64>) -> Option<i64> {
    match ts {
        Some(secs) => if crate::time::CHRONO_MIN_TIMESTAMP_SECS <= secs && secs <= crate::time::CHRONO_MAX_TIMESTAMP_SECS {
            let next = secs * 1_000_000;
            Some(match current {
                Some(c) => if c <= next { c } else { next as i64 },
                None => next as i64,
            })
        } else {
            None
        },
        None => None,
    }
}

/// The later of a known instant and a timestamp in seconds; `None` when the
/// timestamp is missing or out of range.
pub open spec fn spec_max_datetime(current: Option<i64>, ts: Option<i64>) -> Option<i64> {
    match ts {
        Some(secs) => if crate::time::CHRONO_MIN_TIMESTAMP_SECS <= secs && secs <= crate::time::CHRONO_MAX_TIMESTAMP_SECS {
            let next = secs * 1_000_000;
            Some(match current {
                Some(c) => if c >= next { c } else { next as i64 },
                None => next as i64,
            })
        } else {
            None
        },
        None => None,
    }
}

pub fn min_datetime(current: Option<i64>, ts: Option<i64>) -> (r: Option<i64>)
    ensures
        r == spec_min_datetime(current, ts),
{
    let next = match ts {
        Some(secs) => match utc_micros_from_timestamp(secs) {
            Some(n) => n,
            None => return None,
        },
        None => return None,
    };
    Some(match current {
        Some(c) => if c <= next { c } else { next },
        None => next,
    })
}

pub fn max_datetime(current: Option<i64>, ts: Option<i64>) -> (r: Option<i64>)
    ensures
        r == spec_max_datetime(current, ts),
{
    let next = match ts {
        Some(secs) => match utc_micros_from_timestamp(secs) {
            Some(n) => n,
            None => return None,
        },
        None => return None,
    };
    Some(match current {
        Some(c) => if c >= next { c } else { next },
        None => next,
    })
}

/// Adds a data-quality flag unless it is already there.
pub fn trade_builder_analysis_data_flag(flags: &mut Vec<String>, flag: &str)
    ensures
        (exists|i: int| 0 <= i < old(flags)@.len() && #[trigger] old(flags)@[i]@ == flag@) ==> final(flags)@ == old(flags)@,
        !(exists|i: int| 0 <= i < old(flags)@.len() && #[trigger] old(flags)@[i]@ == flag@) ==> (
            final(flags)@.len() == old(flags)@.len() + 1
            && final(flags)@.subrange(0, old(flags)@.len() as int) == old(flags)@
            && final(flags)@.last()@ == flag@),
{
    let mut i: usize = 0;
    while i < flags.len()
        invariant
            i <= flags.len(),
            flags@ == old(flags)@,
            forall|k: int| 0 <= k < i ==> #[trigger] flags@[k]@ != flag@,
        decreases flags.len() - i,
    {
        if str_eq(flags[i].as_str(), flag) {
            return;
        }
        i = i + 1;
    }
    flags.push(flag.to_string());
    proof {
        assert(flags@.subrange(0, old(flags)@.len() as int) =~= old(flags)@);
    }
}

/// An event recorded against a trade-builder order.
pub struct TradeBuilderOrderEventRecord {
    pub id: i64,
    pub order_id: i64,
    pub event_type: String,
    pub payload_json: JsonValue,
    pub created_at: i64,
}

/// An event recorded against a flow run.
pub struct TradeFlowEventRecord {
    pub id: i64,
    pub event_type: String,
    pub payload_json: JsonValue,
    pub created_at: i64,
}

/// The trigger event chosen for an analysed buy: when it fired and when its
/// market window opened.
#[derive(Debug, PartialEq, Eq)]
pub struct SelectedAutoScopeTriggerEvent {
    pub created_at: i64,
    pub market_open_at: Option<i64>,
}

/// Whether a flow event is a trigger of the bought market and token, at or
/// before the buy.
pub open spec fn is_trigger_candidate(event: TradeFlowEventRecord, market_slug: Seq<char>, token_id: Seq<char>, buy_created_at: i64) -> bool {
    &&& event.created_at <= buy_created_at
    &&& first_key_text(event.payload_json@, seq!["market_slug"@, "resolved_market_slug"@, "marketSlug"@, "resolvedMarketSlug"@]) == Some(market_slug)
    &&& first_key_text(event.payload_json@, seq!["triggered_token_id"@, "token_id"@, "tokenId"@]) == Some(token_id)
}

/// Whether event `a` beats event `b`: later, or as late with a lower rank.
pub open spec fn beats(a: TradeFlowEventRecord, b: TradeFlowEventRecord) -> bool {
    a.created_at > b.created_at || (a.created_at == b.created_at && spec_event_priority(a.event_type@) < spec_event_priority(b.event_type@))
}

/// The position of the selected trigger event: scanning in order, a
/// candidate replaces the current choice when it beats it.
pub open spec fn selected_trigger_index(events: Seq<TradeFlowEventRecord>, market_slug: Seq<char>, token_id: Seq<char>, buy_created_at: i64) -> Option<int>
    decreases events.len(),
{
    if events.len() == 0 {
        None
    } else {
        let prev = selected_trigger_index(events.drop_last(), market_slug, token_id, buy_created_at);
        if is_trigger_candidate(events.last(), market_slug, token_id, buy_created_at) && (match prev {
            None => true,
            Some(i) => beats(events.last(), events[i]),
        }) {
            Some(events.len() - 1)
        } else {
            prev
        }
    }
}

/// The selected trigger event of a buy, with the opening of its market
/// window: from the event's `window_open_at`, else from the market slug.
pub open spec fn spec_select_trigger_event(events: Seq<TradeFlowEventRecord>, market_slug: Seq<char>, token_id: Seq<char>, buy_created_at: i64) -> Option<SelectedAutoScopeTriggerEvent> {
    match selected_trigger_index(events, market_slug, token_id, buy_created_at) {
        Some(i) => Some(SelectedAutoScopeTriggerEvent {
            created_at: events[i].created_at,
            market_open_at: match first_key_instant(events[i].payload_json@, seq!["window_open_at"@, "windowOpenAt"@]) {
                Some(t) => Some(t),
                None => spec_market_open_at_from_slug(market_slug),
            },
        }),
        None => None,
    }
}

fn opt_string_is_str(v: &Option<String>, expected: &str) -> (r: bool)
    ensures
        r == (opt_text(*v) == Some(expected@)),
{
    match v {
        Some(s) => str_eq(s.as_str(), expected),
        None => false,
    }
}

pub fn trade_builder_analysis_select_trigger_event(
    events: &[TradeFlowEventRecord],
    market_slug: &str,
    token_id: &str,
    buy_created_at: i64,
) -> (r: Option<SelectedAutoScopeTriggerEvent>)
    ensures
        r == spec_select_trigger_event(events@, market_slug@, token_id@, buy_created_at),
{
    let mut selected: Option<usize> = None;
    let mut i: usize = 0;
    let slug_keys = ["market_slug", "resolved_market_slug", "marketSlug", "resolvedMarketSlug"];
    let token_keys = ["triggered_token_id", "token_id", "tokenId"];
    assert(key_views(slug_keys@) =~= seq!["market_slug"@, "resolved_market_slug"@, "marketSlug"@, "resolvedMarketSlug"@]);
    assert(key_views(token_keys@) =~= seq!["triggered_token_id"@, "token_id"@, "tokenId"@]);
    while i < events.len()
        invariant
            i <= events.len(),
            key_views(slug_keys@) == seq!["market_slug"@, "resolved_market_slug"@, "marketSlug"@, "resolvedMarketSlug"@],
            key_views(token_keys@) == seq!["triggered_token_id"@, "token_id"@, "tokenId"@],
            match selected {
                Some(k) => k < i && selected_trigger_index(events@.subrange(0, i as int), market_slug@, token_id@, buy_created_at) == Some(k as int),
                None => selected_trigger_index(events@.subrange(0, i as int), market_slug@, token_id@, buy_created_at) is None,
            },
        decreases events.len() - i,
    {
        let event = &events[i];
        proof {
            let pre = events@.subrange(0, i + 1);
            assert(pre.drop_last() =~= events@.subrange(0, i as int));
            assert(pre.last() == events@[i as int]);
            if let Some(k) = selected {
                assert(pre[k as int] == events@[k as int]);
            }
        }
        if event.created_at <= buy_created_at {
            let slug = trade_builder_analysis_payload_string(&event.payload_json, &slug_keys);
            let token = trade_builder_analysis_payload_string(&event.payload_json, &token_keys);
            if opt_string_is_str(&slug, market_slug) && opt_string_is_str(&token, token_id) {
                let replace = match selected {
                    None => true,
                    Some(k) => {
                        let current = &events[k];
                        event.created_at > current.created_at || (event.created_at == current.created_at
                            && trade_builder_analysis_event_priority(event.event_type.as_str())
                            < trade_builder_analysis_event_priority(current.event_type.as_str()))
                    },
                };
                if replace {
                    selected = Some(i);
                }
            }
        }
        i = i + 1;
    }
    assert(events@.subrange(0, events.len() as int) =~= events@);
    match selected {
        Some(k) => {
            let event = &events[k];
            let open_keys = ["window_open_at", "windowOpenAt"];
            assert(key_views(open_keys@) =~= seq!["window_open_at"@, "windowOpenAt"@]);
            let market_open_at = match trade_builder_analysis_payload_datetime(&event.payload_json, &open_keys) {
                Some(t) => Some(t),
                None => trade_builder_analysis_market_open_at_from_slug(market_slug),
            };
            Some(SelectedAutoScopeTriggerEvent { created_at: event.created_at, market_open_at })
        },
        None => None,
    }
}

/// The ids that an event payload gives for an exchange order.
pub open spec fn event_exchange_order_ids(payload: JsonView) -> Seq<Option<Seq<char>>> {
    seq![
        first_key_text(payload, seq!["exchange_order_id"@, "exchangeOrderId"@]),
        first_key_text(payload, seq!["new_exchange_order_id"@, "newExchangeOrderId"@]),
        first_key_text(payload, seq!["prev_exchange_order_id"@, "prevExchangeOrderId"@]),
    ]
}

/// Whether some event names the exchange order id.
pub open spec fn names_exchange_order_id(events: Seq<TradeBuilderOrderEventRecord>, id: Seq<char>) -> bool {
    exists|e: int, g: int| 0 <= e < events.len() && 0 <= g < 3 && #[trigger] event_exchange_order_ids(events[e].payload_json@)[g] == Some(id)
}

/// The texts of a list of strings.
pub open spec fn texts(v: Seq<String>) -> Seq<Seq<char>> {
    v.map_values(|s: String| s@)
}

/// Adds a text to a list of distinct texts unless it is there.
fn push_distinct(ids: &mut Vec<String>, id: String)
    requires
        texts(old(ids)@).no_duplicates(),
    ensures
        texts(final(ids)@).no_duplicates(),
        forall|x: Seq<char>| texts(final(ids)@).contains(x) <==> (texts(old(ids)@).contains(x) || x == id@),
{
    let ghost before = texts(ids@);
    let mut i: usize = 0;
    while i < ids.len()
        invariant
            i <= ids.len(),
            ids@ == old(ids)@,
            before == texts(ids@),
            texts(old(ids)@).no_duplicates(),
            forall|k: int| 0 <= k < i ==> #[trigger] ids@[k]@ != id@,
        decreases ids.len() - i,
    {
        if ids[i] == id {
            assert(before[i as int] == id@);
            assert(texts(ids@) == texts(old(ids)@));
            return;
        }
        i = i + 1;
    }
    let ghost idv = id@;
    ids.push(id);
    proof {
        let after = texts(ids@);
        assert(after =~= before.push(idv));
        assert(!before.contains(idv)) by {
            if before.contains(idv) {
                let k = choose|k: int| 0 <= k < before.len() && before[k] == idv;
                assert(ids@[k]@ == idv);
            }
        }
        assert forall|a: int, b: int| 0 <= a < after.len() && 0 <= b < after.len() && a != b implies after[a] != after[b] by {
            if a < before.len() && b < before.len() {
                assert(after[a] == before[a] && after[b] == before[b]);
            } else if a == before.len() {
                assert(after[b] == before[b]);
            } else {
                assert(after[a] == before[a]);
            }
        }
        assert forall|x: Seq<char>| after.contains(x) <==> (before.contains(x) || x == idv) by {
            if after.contains(x) {
                let k = choose|k: int| 0 <= k < after.len() && after[k] == x;
                if k < before.len() {
                    assert(before[k] == x);
                }
            }
            if before.contains(x) {
                let k = choose|k: int| 0 <= k < before.len() && before[k] == x;
                assert(after[k] == x);
            }
            if x == idv {
                assert(after[before.len() as int] == x);
            }
        }
    }
}

/// The distinct exchange order ids that a list of order events names.
pub fn trade_builder_analysis_extract_exchange_order_ids(events: &[TradeBuilderOrderEventRecord]) -> (r: Vec<String>)
    ensures
        texts(r@).no_duplicates(),
        forall|id: Seq<char>| texts(r@).contains(id) <==> names_exchange_order_id(events@, id),
{
    let mut ids: Vec<String> = Vec::new();
    let g0 = ["exchange_order_id", "exchangeOrderId"];
    let g1 = ["new_exchange_order_id", "newExchangeOrderId"];
    let g2 = ["prev_exchange_order_id", "prevExchangeOrderId"];
    assert(key_views(g0@) =~= seq!["exchange_order_id"@, "exchangeOrderId"@]);
    assert(key_views(g1@) =~= seq!["new_exchange_order_id"@, "newExchangeOrderId"@]);
    assert(key_views(g2@) =~= seq!["prev_exchange_order_id"@, "prevExchangeOrderId"@]);
    let mut i: usize = 0;
    assert(texts(ids@) =~= Seq::<Seq<char>>::empty());
    while i < events.len()
        invariant
            i <= events.len(),
            key_views(g0@) == seq!["exchange_order_id"@, "exchangeOrderId"@],
            key_views(g1@) == seq!["new_exchange_order_id"@, "newExchangeOrderId"@],
            key_views(g2@) == seq!["prev_exchange_order_id"@, "prevExchangeOrderId"@],
            texts(ids@).no_duplicates(),
            forall|id: Seq<char>| texts(ids@).contains(id) <==> names_exchange_order_id(events@.subrange(0, i as int), id),
        decreases events.len() - i,
    {
        let payload = &events[i].payload_json;
        let ghost found = event_exchange_order_ids(payload@);
        let ghost before = texts(ids@);
        let a = trade_builder_analysis_payload_string(payload, &g0);
        let b = trade_builder_analysis_payload_string(payload, &g1);
        let c = trade_builder_analysis_payload_string(payload, &g2);
        let ghost fa = opt_text(a);
        let ghost fb = opt_text(b);
        let ghost fc = opt_text(c);
        assert(found[0] == fa && found[1] == fb && found[2] == fc);
        let ghost s0 = texts(ids@);
        match a { Some(x) => push_distinct(&mut ids, x), None => {} }
        let ghost s1 = texts(ids@);
        match b { Some(x) => push_distinct(&mut ids, x), None => {} }
        let ghost s2 = texts(ids@);
        match c { Some(x) => push_distinct(&mut ids, x), None => {} }
        proof {
            let pre = events@.subrange(0, i as int);
            let post = events@.subrange(0, i + 1);
            assert forall|id: Seq<char>| texts(ids@).contains(id) <==> names_exchange_order_id(post, id) by {
                assert(texts(ids@).contains(id) <==> (before.contains(id) || fa == Some(id) || fb == Some(id) || fc == Some(id)));
                if names_exchange_order_id(post, id) {
                    let (e, g) = choose|e: int, g: int| 0 <= e < post.len() && 0 <= g < 3 && #[trigger] event_exchange_order_ids(post[e].payload_json@)[g] == Some(id);
                    if e < i {
                        assert(pre[e] == post[e]);
                        assert(names_exchange_order_id(pre, id));
                    } else {
                        assert(post[e] == events@[i as int]);
                    }
                }
                if names_exchange_order_id(pre, id) {
                    let (e, g) = choose|e: int, g: int| 0 <= e < pre.len() && 0 <= g < 3 && #[trigger] event_exchange_order_ids(pre[e].payload_json@)[g] == Some(id);
                    assert(pre[e] == post[e]);
                    assert(event_exchange_order_ids(post[e].payload_json@)[g] == Some(id));
                }
                if fa == Some(id) {
                    assert(post[i as int] == events@[i as int]);
                    assert(event_exchange_order_ids(post[i as int].payload_json@)[0] == Some(id));
                }
                if fb == Some(id) {
                    assert(post[i as int] == events@[i as int]);
                    assert(event_exchange_order_ids(post[i as int].payload_json@)[1] == Some(id));
                }
                if fc == Some(id) {
                    assert(post[i as int] == events@[i as int]);
                    assert(event_exchange_order_ids(post[i as int].payload_json@)[2] == Some(id));
                }
            }
        }
        i = i + 1;
    }
    assert(events@.subrange(0, events.len() as int) =~= events@);
    ids
}

/// The first `flow_created` event of an order, if any.
pub open spec fn flow_created_index(events: Seq<TradeBuilderOrderEventRecord>) -> Option<int>
    decreases events.len(),
{
    if events.len() == 0 {
        None
    } else {
        match flow_created_index(events.drop_last()) {
            Some(i) => Some(i),
            None => if events.last().event_type@ == "flow_created"@ { Some(events.len() - 1) } else { None },
        }
    }
}

/// Why an analysed position was exited: a window-end auto sell by the
/// order's internal mode, else its exit ladder, else its trigger direction.
pub open spec fn spec_exit_reason(order: &TradeBuilderOrder, events: Seq<TradeBuilderOrderEventRecord>) -> Seq<char> {
    let internal_mode = match flow_created_index(events) {
        Some(i) => first_key_text(events[i].payload_json@, seq!["internal_mode"@, "internalMode"@]),
        None => None,
    };
    if internal_mode == Some("window_end_auto_sell"@) {
        "window_end_auto_sell"@
    } else if opt_text(order.exit_ladder_kind) == Some("tp"@) {
        "tp"@
    } else if opt_text(order.exit_ladder_kind) == Some("sl"@) || opt_text(order.exit_ladder_kind) == Some("ptb_sl"@) {
        "sl"@
    } else if opt_text(order.trigger_condition) == Some("cross_above"@) {
        "tp"@
    } else if opt_text(order.trigger_condition) == Some("cross_below"@) {
        "sl"@
    } else {
        "other"@
    }
}

pub fn trade_builder_analysis_exit_reason(order: &TradeBuilderOrder, order_events: &[TradeBuilderOrderEventRecord]) -> (r: &'static str)
    ensures
        r@ == spec_exit_reason(order, order_events@),
{
    let found = first_flow_created(order_events);
    let keys = ["internal_mode", "internalMode"];
    assert(key_views(keys@) =~= seq!["internal_mode"@, "internalMode"@]);
    let internal_mode = match found {
        Some(k) => trade_builder_analysis_payload_string(&order_events[k].payload_json, &keys),
        None => None,
    };
    if opt_string_is_str(&internal_mode, "window_end_auto_sell") {
        return "window_end_auto_sell";
    }
    if opt_string_is_str(&order.exit_ladder_kind, "tp") {
        return "tp";
    }
    if opt_string_is_str(&order.exit_ladder_kind, "sl") || opt_string_is_str(&order.exit_ladder_kind, "ptb_sl") {
        return "sl";
    }
    if opt_string_is_str(&order.trigger_condition, "cross_above") {
        return "tp";
    }
    if opt_string_is_str(&order.trigger_condition, "cross_below") {
        return "sl";
    }
    "other"
}

/// The position of the first `flow_created` event.
fn first_flow_created(order_events: &[TradeBuilderOrderEventRecord]) -> (r: Option<usize>)
    ensures
        match r {
            Some(k) => k < order_events@.len() && flow_created_index(order_events@) == Some(k as int),
            None => flow_created_index(order_events@) is None,
        },
{
    let mut i: usize = 0;
    while i < order_events.len()
        invariant
            i <= order_events.len(),
            flow_created_index(order_events@.subrange(0, i as int)) is None,
        decreases order_events.len() - i,
    {
        let ghost pre = order_events@.subrange(0, i + 1);
        proof {
            assert(pre.drop_last() =~= order_events@.subrange(0, i as int));
            assert(pre.last() == order_events@[i as int]);
        }
        if str_eq(order_events[i].event_type.as_str(), "flow_created") {
            proof {
                assert(flow_created_index(pre) == Some(i as int));
                lemma_flow_created_prefix(order_events@, i as int + 1);
            }
            return Some(i);
        }
        i = i + 1;
    }
    assert(order_events@.subrange(0, order_events.len() as int) =~= order_events@);
    None
}

/// A first `flow_created` event within a prefix is the first overall.
proof fn lemma_flow_created_prefix(events: Seq<TradeBuilderOrderEventRecord>, n: int)
    requires
        0 <= n <= events.len(),
        flow_created_index(events.subrange(0, n)) is Some,
    ensures
        flow_created_index(events) == flow_created_index(events.subrange(0, n)),
    decreases events.len() - n,
{
    if n < events.len() {
        let p = events.subrange(0, n + 1);
        assert(p.drop_last() =~= events.subrange(0, n));
        lemma_flow_created_prefix(events, n + 1);
    } else {
        assert(events.subrange(0, n) =~= events);
    }
}

/// One row of an auto-scope analysis: a position's exit, settlement or open
/// mark. Instants in microseconds since the epoch, prices and amounts in
/// millionths, quantities in millionths of a share, the percentage in
/// millionths of a percent.
pub struct TradeFlowAutoScopeAnalysisRowInput {
    pub row_key: String,
    pub user_id: i64,
    pub definition_id: i64,
    pub run_id: i64,
    pub root_builder_order_id: i64,
    pub exit_builder_order_id: Option<i64>,
    pub row_type: String,
    pub market_slug: String,
    pub token_id: String,
    pub outcome_label: String,
    pub exit_reason: String,
    pub market_open_at: Option<i64>,
    pub triggered_at: Option<i64>,
    pub buy_filled_at: Option<i64>,
    pub sell_filled_at: Option<i64>,
    pub open_to_trigger_ms: Option<i64>,
    pub trigger_to_buy_fill_ms: Option<i64>,
    pub buy_avg_price: Option<i64>,
    pub mark_or_sell_price: Option<i64>,
    pub mark_price_captured_at: Option<i64>,
    pub row_qty: i64,
    pub remaining_qty_after_exit: i64,
    pub row_pnl_usdc: i64,
    pub buy_notional_usdc: Option<i64>,
    pub buy_fee_usdc: Option<i64>,
    pub cost_basis_usdc: Option<i64>,
    pub sell_notional_usdc: Option<i64>,
    pub sell_fee_usdc: Option<i64>,
    pub mark_value_usdc: Option<i64>,
    pub net_value_usdc: Option<i64>,
    pub pnl_pct: Option<i64>,
    pub valuation_kind: String,
}

/// The latest instant a row records: its sell fill, else its mark capture,
/// else its buy fill, else its trigger.
pub open spec fn spec_latest_row_time(row: &TradeFlowAutoScopeAnalysisRowInput) -> Option<i64> {
    match row.sell_filled_at {
        Some(t) => Some(t),
        None => match row.mark_price_captured_at {
            Some(t) => Some(t),
            None => match row.buy_filled_at {
                Some(t) => Some(t),
                None => row.triggered_at,
            },
        },
    }
}

pub fn trade_builder_analysis_latest_row_time(row: &TradeFlowAutoScopeAnalysisRowInput) -> (r: Option<i64>)
    ensures
        r == spec_latest_row_time(row),
{
    match row.sell_filled_at {
        Some(t) => Some(t),
        None => match row.mark_price_captured_at {
            Some(t) => Some(t),
            None => match row.buy_filled_at {
                Some(t) => Some(t),
                None => row.triggered_at,
            },
        },
    }
}

/// Lexicographic order on texts by character code (the order of `String`).
pub open spec fn text_le(a: Seq<char>, b: Seq<char>) -> bool
    decreases a.len(),
{
    if a.len() == 0 {
        true
    } else if b.len() == 0 {
        false
    } else if a[0] != b[0] {
        (a[0] as u32) < (b[0] as u32)
    } else {
        text_le(a.drop_first(), b.drop_first())
    }
}

fn string_le(a: &String, b: &String) -> (r: bool)
    ensures
        r == text_le(a@, b@),
{
    let x = chars_of(a.as_str());
    let y = chars_of(b.as_str());
    let mut i: usize = 0;
    assert(x@.subrange(0, x.len() as int) =~= x@);
    assert(y@.subrange(0, y.len() as int) =~= y@);
    while i < x.len() && i < y.len() && x[i] == y[i]
        invariant
            i <= x.len(),
            i <= y.len(),
            x@ == a@,
            y@ == b@,
            text_le(a@, b@) == text_le(x@.subrange(i as int, x.len() as int), y@.subrange(i as int, y.len() as int)),
        decreases x.len() - i,
    {
        proof {
            let xs = x@.subrange(i as int, x.len() as int);
            let ys = y@.subrange(i as int, y.len() as int);
            assert(xs[0] == x@[i as int] && ys[0] == y@[i as int]);
            assert(xs.drop_first() =~= x@.subrange(i + 1, x.len() as int));
            assert(ys.drop_first() =~= y@.subrange(i + 1, y.len() as int));
        }
        i = i + 1;
    }
    proof {
        let xs = x@.subrange(i as int, x.len() as int);
        let ys = y@.subrange(i as int, y.len() as int);
        if i < x.len() && i < y.len() {
            assert(xs[0] == x@[i as int] && ys[0] == y@[i as int]);
        }
    }
    if i == x.len() {
        true
    } else if i == y.len() {
        false
    } else {
        (x[i] as u32) < (y[i] as u32)
    }
}

/// Whether row `a` sorts at most as late as row `b`: by latest instant (an
/// unknown instant first), then by row key.
pub open spec fn row_le(a: &TradeFlowAutoScopeAnalysisRowInput, b: &TradeFlowAutoScopeAnalysisRowInput) -> bool {
    match (spec_latest_row_time(a), spec_latest_row_time(b)) {
        (None, Some(_)) => true,
        (Some(_), None) => false,
        (Some(x), Some(y)) => if x != y { x < y } else { text_le(a.row_key@, b.row_key@) },
        (None, None) => text_le(a.row_key@, b.row_key@),
    }
}

/// The position of the last row: scanning in order, a row that sorts at
/// least as late as the current choice replaces it (`Iterator::max_by`).
pub open spec fn last_row_index(rows: Seq<TradeFlowAutoScopeAnalysisRowInput>) -> Option<int>
    decreases rows.len(),
{
    if rows.len() == 0 {
        None
    } else {
        match last_row_index(rows.drop_last()) {
            None => Some(0),
            Some(i) => if row_le(&rows[i], &rows.last()) { Some(rows.len() - 1) } else { Some(i) },
        }
    }
}

fn row_le_exec(a: &TradeFlowAutoScopeAnalysisRowInput, b: &TradeFlowAutoScopeAnalysisRowInput) -> (r: bool)
    ensures
        r == row_le(a, b),
{
    match (trade_builder_analysis_latest_row_time(a), trade_builder_analysis_latest_row_time(b)) {
        (None, Some(_)) => true,
        (Some(_), None) => false,
        (Some(x), Some(y)) => if x != y { x < y } else { string_le(&a.row_key, &b.row_key) },
        (None, None) => string_le(&a.row_key, &b.row_key),
    }
}

pub fn trade_builder_analysis_last_exit_row<'a>(rows: &'a [TradeFlowAutoScopeAnalysisRowInput]) -> (r: Option<&'a TradeFlowAutoScopeAnalysisRowInput>)
    ensures
        match r {
            Some(row) => last_row_index(rows@) matches Some(i) && *row == rows@[i],
            None => rows@.len() == 0,
        },
{
    if rows.len() == 0 {
        return None;
    }
    let mut best: usize = 0;
    let mut i: usize = 1;
    proof {
        let p = rows@.subrange(0, 1);
        assert(p.drop_last() =~= Seq::<TradeFlowAutoScopeAnalysisRowInput>::empty());
        assert(last_row_index(p.drop_last()) is None);
        assert(last_row_index(p) == Some(0int));
    }
    while i < rows.len()
        invariant
            1 <= i <= rows.len(),
            best < i,
            last_row_index(rows@.subrange(0, i as int)) == Some(best as int),
        decreases rows.len() - i,
    {
        proof {
            let p = rows@.subrange(0, i + 1);
            assert(p.drop_last() =~= rows@.subrange(0, i as int));
            assert(p.last() == rows@[i as int]);
            assert(p[best as int] == rows@[best as int]);
        }
        if row_le_exec(&rows[best], &rows[i]) {
            best = i;
        }
        i = i + 1;
    }
    assert(rows@.subrange(0, rows.len() as int) =~= rows@);
    Some(&rows[best])
}

/// The exit reason of the first sell-exit row, `other` when there is none.
pub open spec fn spec_official_exit_reason(rows: Seq<TradeFlowAutoScopeAnalysisRowInput>) -> Seq<char>
    decreases rows.len(),
{
    if rows.len() == 0 {
        "other"@
    } else if rows[0].row_type@ == "sell_exit"@ {
        rows[0].exit_reason@
    } else {
        spec_official_exit_reason(rows.drop_first())
    }
}

pub fn trade_builder_analysis_official_exit_reason(rows: &[TradeFlowAutoScopeAnalysisRowInput]) -> (r: String)
    ensures
        r@ == spec_official_exit_reason(rows@),
{
    let mut i: usize = 0;
    proof { assert(rows@.subrange(0, rows@.len() as int) =~= rows@); }
    while i < rows.len()
        invariant
            i <= rows.len(),
            spec_official_exit_reason(rows@) == spec_official_exit_reason(rows@.subrange(i as int, rows@.len() as int)),
        decreases rows.len() - i,
    {
        proof {
            let rest = rows@.subrange(i as int, rows@.len() as int);
            assert(rest[0] == rows@[i as int]);
            assert(rest.drop_first() =~= rows@.subrange(i + 1, rows@.len() as int));
        }
        if str_eq(rows[i].row_type.as_str(), "sell_exit") {
            return rows[i].exit_reason.clone();
        }
        i = i + 1;
    }
    "other".to_string()
}

/// When an order event happened: the instant its payload gives under one of
/// `keys`, else when it was recorded.
pub open spec fn spec_event_at(event: Option<&TradeBuilderOrderEventRecord>, keys: Seq<Seq<char>>) -> Option<i64> {
    match event {
        Some(e) => match first_key_instant(e.payload_json@, keys) {
            Some(t) => Some(t),
            None => Some(e.created_at),
        },
        None => None,
    }
}

pub fn trade_builder_analysis_event_at(event: Option<&TradeBuilderOrderEventRecord>, keys: &[&str]) -> (r: Option<i64>)
    ensures
        r == spec_event_at(event, key_views(keys@)),
        r matches Some(t) ==> crate::time::in_chrono_range(t) || (event matches Some(e) && t == e.created_at),
{
    match event {
        Some(e) => match trade_builder_analysis_payload_datetime(&e.payload_json, keys) {
            Some(t) => Some(t),
            None => Some(e.created_at),
        },
        None => None,
    }
}

/// The first of `keys` whose member reads as a number, in millionths (a
/// JSON number, or a number written as text; see `spec_json_micros`).
pub open spec fn first_key_micros(doc: JsonView, keys: Seq<Seq<char>>) -> Option<i64>
    decreases keys.len(),
{
    if keys.len() == 0 {
        None
    } else {
        match opt_json_micros(doc.get(keys[0])) {
            Some(m) => Some(m),
            None => first_key_micros(doc, keys.drop_first()),
        }
    }
}

pub open spec fn opt_json_micros(v: Option<JsonView>) -> Option<i64> {
    match v {
        Some(v) => spec_json_micros(v),
        None => None,
    }
}

/// A payload number under the first of `keys` that holds one, in
/// millionths: numbers are read to six decimals, rounded down, and
/// one that does not fit `i64` millionths counts as absent.
pub fn trade_builder_analysis_payload_number(payload: &JsonValue, keys: &[&str]) -> (r: Option<i64>)
    ensures
        r == first_key_micros(payload@, key_views(keys@)),
{
    let ghost ks = key_views(keys@);
    let mut i: usize = 0;
    proof { assert(ks.subrange(0, ks.len() as int) =~= ks); }
    while i < keys.len()
        invariant
            i <= keys.len(),
            ks == key_views(keys@),
            ks.len() == keys@.len(),
            first_key_micros(payload@, ks) == first_key_micros(payload@, ks.subrange(i as int, ks.len() as int)),
        decreases keys.len() - i,
    {
        let ghost rest = ks.subrange(i as int, ks.len() as int);
        assert(rest[0] == keys@[i as int]@);
        match payload.get(keys[i]) {
            Some(v) => {
                let parsed = json_micros(v);
                if parsed.is_some() {
                    return parsed;
                }
            },
            None => {},
        }
        assert(rest.drop_first() =~= ks.subrange(i + 1, ks.len() as int));
        i = i + 1;
    }
    None
}

/// The document reached by following `path` member by member.
pub open spec fn follow_path(doc: JsonView, path: Seq<Seq<char>>) -> Option<JsonView>
    decreases path.len(),
{
    if path.len() == 0 {
        Some(doc)
    } else {
        match doc.get(path[0]) {
            Some(next) => follow_path(next, path.drop_first()),
            None => None,
        }
    }
}

/// The number at the end of `path` (see `trade_builder_analysis_payload_number`).
pub fn trade_builder_analysis_nested_payload_number(payload: &JsonValue, path: &[&str]) -> (r: Option<i64>)
    ensures
        r == opt_json_micros(follow_path(payload@, key_views(path@))),
{
    let ghost ks = key_views(path@);
    let mut current: &JsonValue = payload;
    let mut i: usize = 0;
    proof { assert(ks.subrange(0, ks.len() as int) =~= ks); }
    while i < path.len()
        invariant
            i <= path.len(),
            ks == key_views(path@),
            ks.len() == path@.len(),
            follow_path(payload@, ks) == follow_path(current@, ks.subrange(i as int, ks.len() as int)),
        decreases path.len() - i,
    {
        let ghost rest = ks.subrange(i as int, ks.len() as int);
        assert(rest[0] == path@[i as int]@);
        assert(rest.drop_first() =~= ks.subrange(i + 1, ks.len() as int));
        match current.get(path[i]) {
            Some(next) => {
                current = next;
            },
            None => {
                return None;
            },
        }
        i = i + 1;
    }
    json_micros(current)
}

pub open spec fn spec_event_number(event: Option<&TradeBuilderOrderEventRecord>, keys: Seq<Seq<char>>) -> Option<i64> {
    match event {
        Some(e) => first_key_micros(e.payload_json@, keys),
        None => None,
    }
}

/// A number of an event's payload (see `trade_builder_analysis_payload_number`).
pub fn trade_builder_analysis_event_number(event: Option<&TradeBuilderOrderEventRecord>, keys: &[&str]) -> (r: Option<i64>)
    ensures
        r == spec_event_number(event, key_views(keys@)),
{
    match event {
        Some(e) => trade_builder_analysis_payload_number(&e.payload_json, keys),
        None => None,
    }
}

/// A number at the end of a path in an event's payload.
pub fn trade_builder_analysis_event_number_nested(event: Option<&TradeBuilderOrderEventRecord>, path: &[&str]) -> (r: Option<i64>)
    ensures
        r == match event {
            Some(e) => opt_json_micros(follow_path(e.payload_json@, key_views(path@))),
            None => None,
        },
{
    match event {
        Some(e) => trade_builder_analysis_nested_payload_number(&e.payload_json, path),
        None => None,
    }
}

pub open spec fn depth_levels_keys() -> Seq<Seq<char>> {
    seq!["submit_price_depth_levels_used"@, "depth_levels_used"@]
}

pub open spec fn requested_qty_keys() -> Seq<Seq<char>> {
    seq!["submit_price_requested_qty"@, "requested_qty"@, "size"@]
}

pub open spec fn visible_qty_keys() -> Seq<Seq<char>> {
    seq!["submit_price_visible_bid_qty"@, "submit_price_visible_ask_qty"@, "visible_qty"@]
}

/// Whether a submit met thin liquidity: a submit retry was scheduled among
/// the root order's events, or the submit priced over more than one book
/// level (one when not recorded), or less than three quarters of a positive
/// requested quantity was visible. Quantities in millionths.
pub open spec fn spec_thin_liquidity_signal(root_events: Seq<TradeBuilderOrderEventRecord>, submitted: Option<&TradeBuilderOrderEventRecord>) -> bool {
    let retry_seen = exists|i: int| 0 <= i < root_events.len() && (#[trigger] root_events[i]).event_type@ == "submit_retry_scheduled"@;
    let depth = match spec_event_number(submitted, depth_levels_keys()) {
        Some(d) => d as int,
        None => 1_000_000,
    };
    let thin_book = match (spec_event_number(submitted, requested_qty_keys()), spec_event_number(submitted, visible_qty_keys())) {
        (Some(requested), Some(visible)) => requested > 0 && 4 * visible < 3 * requested,
        _ => false,
    };
    retry_seen || depth > 1_000_000 || thin_book
}

pub fn trade_builder_analysis_thin_liquidity_signal(
    root_events: &[TradeBuilderOrderEventRecord],
    submitted_event: Option<&TradeBuilderOrderEventRecord>,
) -> (r: bool)
    ensures
        r == spec_thin_liquidity_signal(root_events@, submitted_event),
{
    let mut retry_seen = false;
    let mut i: usize = 0;
    while i < root_events.len()
        invariant
            i <= root_events.len(),
            retry_seen <==> exists|j: int| 0 <= j < i && (#[trigger] root_events@[j]).event_type@ == "submit_retry_scheduled"@,
        decreases root_events.len() - i,
    {
        if str_eq(root_events[i].event_type.as_str(), "submit_retry_scheduled") {
            retry_seen = true;
        }
        i = i + 1;
    }
    let depth_keys = ["submit_price_depth_levels_used", "depth_levels_used"];
    assert(key_views(depth_keys@) =~= depth_levels_keys());
    let requested_keys = ["submit_price_requested_qty", "requested_qty", "size"];
    assert(key_views(requested_keys@) =~= requested_qty_keys());
    let visible_keys = ["submit_price_visible_bid_qty", "submit_price_visible_ask_qty", "visible_qty"];
    assert(key_views(visible_keys@) =~= visible_qty_keys());
    let depth: i64 = match trade_builder_analysis_event_number(submitted_event, &depth_keys) {
        Some(d) => d,
        None => 1_000_000,
    };
    let requested = trade_builder_analysis_event_number(submitted_event, &requested_keys);
    let visible = trade_builder_analysis_event_number(submitted_event, &visible_keys);
    let thin_book = match (requested, visible) {
        (Some(req), Some(vis)) => req > 0 && 4 * (vis as i128) < 3 * (req as i128),
        _ => false,
    };
    retry_seen || depth > 1_000_000 || thin_book
}

/// Law: the selected trigger event is a candidate that no other candidate
/// beats (none later, none as late with a lower rank); with no candidate,
/// none is selected.
pub proof fn law_selected_trigger_is_best(events: Seq<TradeFlowEventRecord>, market_slug: Seq<char>, token_id: Seq<char>, buy_created_at: i64)
    ensures
        match selected_trigger_index(events, market_slug, token_id, buy_created_at) {
            Some(i) => 0 <= i < events.len()
                && is_trigger_candidate(events[i], market_slug, token_id, buy_created_at)
                && forall|j: int| 0 <= j < events.len() && is_trigger_candidate(#[trigger] events[j], market_slug, token_id, buy_created_at)
                    ==> !beats(events[j], events[i]),
            None => forall|j: int| 0 <= j < events.len() ==> !is_trigger_candidate(#[trigger] events[j], market_slug, token_id, buy_created_at),
        },
    decreases events.len(),
{
    if events.len() > 0 {
        let init = events.drop_last();
        law_selected_trigger_is_best(init, market_slug, token_id, buy_created_at);
        assert forall|j: int| 0 <= j < init.len() implies #[trigger] init[j] == events[j] by {}
        let last = events.last();
        let prev = selected_trigger_index(init, market_slug, token_id, buy_created_at);
        match prev {
            Some(p) => {
                assert(init[p] == events[p]);
                if is_trigger_candidate(last, market_slug, token_id, buy_created_at) && beats(last, events[p]) {
                    assert forall|j: int| 0 <= j < events.len() && is_trigger_candidate(#[trigger] events[j], market_slug, token_id, buy_created_at)
                        implies !beats(events[j], last) by {
                        if j < events.len() - 1 {
                            assert(init[j] == events[j]);
                        }
                    }
                } else {
                    assert forall|j: int| 0 <= j < events.len() && is_trigger_candidate(#[trigger] events[j], market_slug, token_id, buy_created_at)
                        implies !beats(events[j], events[p]) by {
                        if j < events.len() - 1 {
                            assert(init[j] == events[j]);
                        }
                    }
                }
            },
            None => {
                assert forall|j: int| 0 <= j < events.len() - 1 implies !is_trigger_candidate(#[trigger] events[j], market_slug, token_id, buy_created_at) by {
                    assert(init[j] == events[j]);
                }
            },
        }
    }
}

} // verus!
