//! Book quotes captured for exit orders, kept for a short while so that an
//! exit can be submitted at once on a quote that is still fresh. Prices and
//! sizes in millionths; instants in microseconds since the epoch.
//!
//! The cache holds at most one quote per order; once it holds more than
//! 512, a new quote makes it drop every stale one.
use vstd::prelude::*;
use crate::order::{TradeBuilderOrder, spec_is_child_exit_sell, trade_builder_is_child_exit_sell};
use crate::text::{str_eq, trim, is_blank};
use crate::time::utc_now_micros;
use std::collections::HashMap;
use vstd::std_specs::hash::spec_hash_map_iter;
use vstd::std_specs::iter::IteratorSpec;

verus! {

broadcast use vstd::string::group_string_axioms, vstd::std_specs::hash::group_hash_axioms;

/// How long a quote stays fresh, in milliseconds.
pub const EXIT_FAST_SUBMIT_QUOTE_TTL_MS: i64 = 500;

/// Past this many quotes, a new one makes the cache drop the stale ones.
pub const EXIT_FAST_SUBMIT_QUOTE_CACHE_SOFT_LIMIT: usize = 512;

/// One price level of a book.
#[derive(Clone, Copy)]
pub struct OrderBookLevel {
    pub price: i64,
    pub size: i64,
}

/// The two sides of a book, best level first.
pub struct OrderBookSnapshot {
    pub bids: Vec<OrderBookLevel>,
    pub asks: Vec<OrderBookLevel>,
}

/// A quote captured for an exit order.
pub struct ExitFastSubmitQuote {
    pub token_id: String,
    pub captured_at: i64,
    pub market_updated_at_ms: i64,
    pub order_book: OrderBookSnapshot,
    pub best_bid: Option<i64>,
    pub best_ask: Option<i64>,
    pub last_trade_price: Option<i64>,
}

pub struct ExitFastSubmitQuoteView {
    pub token_id: Seq<char>,
    pub captured_at: i64,
    pub market_updated_at_ms: i64,
    pub bids: Seq<OrderBookLevel>,
    pub asks: Seq<OrderBookLevel>,
    pub best_bid: Option<i64>,
    pub best_ask: Option<i64>,
    pub last_trade_price: Option<i64>,
}

impl View for ExitFastSubmitQuote {
    type V = ExitFastSubmitQuoteView;

    open spec fn view(&self) -> ExitFastSubmitQuoteView {
        ExitFastSubmitQuoteView {
            token_id: self.token_id@,
            captured_at: self.captured_at,
            market_updated_at_ms: self.market_updated_at_ms,
            bids: self.order_book.bids@,
            asks: self.order_book.asks@,
            best_bid: self.best_bid,
            best_ask: self.best_ask,
            last_trade_price: self.last_trade_price,
        }
    }
}

fn copy_levels(v: &Vec<OrderBookLevel>) -> (r: Vec<OrderBookLevel>)
    ensures
        r@ == v@,
{
    let mut out: Vec<OrderBookLevel> = Vec::new();
    let mut i: usize = 0;
    while i < v.len()
        invariant
            i <= v.len(),
            out@ == v@.subrange(0, i as int),
        decreases v.len() - i,
    {
        out.push(v[i]);
        assert(v@.subrange(0, i + 1) =~= v@.subrange(0, i as int).push(v@[i as int]));
        i = i + 1;
    }
    assert(v@.subrange(0, v.len() as int) =~= v@);
    out
}

impl ExitFastSubmitQuote {
    /// A copy of the quote.
    pub fn duplicate(&self) -> (r: ExitFastSubmitQuote)
        ensures
            r@ == self@,
    {
        ExitFastSubmitQuote {
            token_id: self.token_id.clone(),
            captured_at: self.captured_at,
            market_updated_at_ms: self.market_updated_at_ms,
            order_book: OrderBookSnapshot {
                bids: copy_levels(&self.order_book.bids),
                asks: copy_levels(&self.order_book.asks),
            },
            best_bid: self.best_bid,
            best_ask: self.best_ask,
            last_trade_price: self.last_trade_price,
        }
    }
}

/// Whole milliseconds since the quote was captured; never negative.
pub open spec fn spec_quote_age_ms(q: ExitFastSubmitQuoteView, now: i64) -> int {
    if now - q.captured_at >= 0 { (now - q.captured_at) / 1000 } else { 0 }
}

pub fn exit_fast_submit_quote_age_ms(quote: &ExitFastSubmitQuote, now: i64) -> (r: i64)
    ensures
        r == spec_quote_age_ms(quote@, now),
{
    let d: i128 = (now as i128) - (quote.captured_at as i128);
    if d >= 0 { (d / 1000) as i64 } else { 0 }
}

/// At most 500 ms old.
pub open spec fn is_recent(q: ExitFastSubmitQuoteView, now: i64) -> bool {
    spec_quote_age_ms(q, now) <= EXIT_FAST_SUBMIT_QUOTE_TTL_MS
}

/// A quote for the token that is at most 500 ms old.
pub open spec fn spec_quote_is_fresh(q: ExitFastSubmitQuoteView, token_id: Seq<char>, now: i64) -> bool {
    q.token_id == token_id && is_recent(q, now)
}

pub fn exit_fast_submit_quote_is_fresh(quote: &ExitFastSubmitQuote, token_id: &str, now: i64) -> (r: bool)
    ensures
        r == spec_quote_is_fresh(quote@, token_id@, now),
{
    str_eq(quote.token_id.as_str(), token_id) && exit_fast_submit_quote_age_ms(quote, now) <= EXIT_FAST_SUBMIT_QUOTE_TTL_MS
}

/// The quotes for exit orders, one per order at most, in a map keyed by
/// order id.
pub struct ExitFastSubmitQuoteCache {
    map: HashMap<i64, ExitFastSubmitQuote>,
}

impl ExitFastSubmitQuoteCache {
    /// The quotes, by order id.
    pub closed spec fn quotes(&self) -> Map<i64, ExitFastSubmitQuoteView> {
        self.map@.map_values(|q: ExitFastSubmitQuote| q@)
    }

    pub closed spec fn wf(&self) -> bool {
        self.map@.dom().finite()
    }

    /// The quote kept for an order.
    pub open spec fn lookup(&self, order_id: i64) -> Option<ExitFastSubmitQuoteView> {
        if self.quotes().contains_key(order_id) { Some(self.quotes()[order_id]) } else { None }
    }

    /// How many quotes are kept.
    pub open spec fn count(&self) -> nat {
        self.quotes().len()
    }

    pub fn new() -> (r: Self)
        ensures
            r.wf(),
            r.count() == 0,
            forall|id: i64| r.lookup(id) is None,
    {
        let r = ExitFastSubmitQuoteCache { map: HashMap::new() };
        assert(r.quotes() =~= Map::<i64, ExitFastSubmitQuoteView>::empty());
        r
    }

    pub fn len(&self) -> (r: usize)
        requires
            self.wf(),
        ensures
            r == self.count(),
    {
        assert(self.quotes().dom() =~= self.map@.dom());
        self.map.len()
    }

    /// The quote kept for an order, as kept.
    fn get(&self, order_id: i64) -> (r: Option<&ExitFastSubmitQuote>)
        ensures
            match r {
                Some(q) => self.lookup(order_id) == Some(q@),
                None => self.lookup(order_id) is None,
            },
    {
        self.map.get(&order_id)
    }

    /// Keeps `quote` for the order, in place of any quote kept before.
    pub fn insert(&mut self, order_id: i64, quote: ExitFastSubmitQuote)
        requires
            old(self).wf(),
        ensures
            final(self).wf(),
            final(self).lookup(order_id) == Some(quote@),
            forall|id: i64| id != order_id ==> #[trigger] final(self).lookup(id) == old(self).lookup(id),
            final(self).count() == old(self).count() + (if old(self).lookup(order_id) is Some { 0int } else { 1int }),
    {
        let ghost before = self.quotes();
        let ghost qv = quote@;
        assert(before.dom() =~= self.map@.dom());
        let _ = self.map.insert(order_id, quote);
        assert(self.quotes() =~= before.insert(order_id, qv));
        assert(self.quotes().dom() =~= before.dom().insert(order_id));
    }

    /// Drops the quote kept for the order, if any.
    pub fn remove(&mut self, order_id: i64)
        requires
            old(self).wf(),
        ensures
            final(self).wf(),
            final(self).lookup(order_id) is None,
            forall|id: i64| id != order_id ==> #[trigger] final(self).lookup(id) == old(self).lookup(id),
            final(self).count() == old(self).count() - (if old(self).lookup(order_id) is Some { 1int } else { 0int }),
    {
        let ghost before = self.quotes();
        assert(before.dom() =~= self.map@.dom());
        let _ = self.map.remove(&order_id);
        assert(self.quotes() =~= before.remove(order_id));
        assert(self.quotes().dom() =~= before.dom().remove(order_id));
    }

    /// Drops every quote.
    pub fn clear(&mut self)
        ensures
            final(self).wf(),
            final(self).count() == 0,
            forall|id: i64| final(self).lookup(id) is None,
    {
        self.map.clear();
        assert(self.quotes() =~= Map::<i64, ExitFastSubmitQuoteView>::empty());
    }

    /// Keeps only the quotes that are at most 500 ms old at `now`.
    pub fn retain_recent(&mut self, now: i64)
        requires
            old(self).wf(),
        ensures
            final(self).wf(),
            final(self).count() <= old(self).count(),
            forall|id: i64| #[trigger] final(self).lookup(id) == (match old(self).lookup(id) {
                Some(q) => if is_recent(q, now) { Some(q) } else { None },
                None => None,
            }),
    {
        let ghost before = self.quotes();
        assert(before.dom() =~= self.map@.dom());
        let mut kept: HashMap<i64, ExitFastSubmitQuote> = HashMap::new();
        for entry in it: self.map.iter()
            invariant
                before == self.quotes(),
                it.seq() == spec_hash_map_iter(&self.map).remaining(),
                forall|id: i64| #[trigger] kept@.contains_key(id) ==> before.contains_key(id) && is_recent(before[id], now) && kept@[id]@ == before[id],
                forall|j: int| 0 <= j < it.index() && is_recent(before[*it.seq()[j].0], now) ==> #[trigger] kept@.contains_key(*it.seq()[j].0),
        {
            let (k, v) = entry;
            proof {
                assert(self.map@.contains_key(*k) && self.map@[*k] == *v);
            }
            if exit_fast_submit_quote_age_ms(v, now) <= EXIT_FAST_SUBMIT_QUOTE_TTL_MS {
                kept.insert(*k, v.duplicate());
            }
        }
        proof {
            assert forall|id: i64| before.contains_key(id) && is_recent(before[id], now) implies #[trigger] kept@.contains_key(id) by {
                let seq = spec_hash_map_iter(&self.map).remaining();
                assert(self.map@.contains_key(id));
                assert(seq.contains((&id, &self.map@[id])));
                let j = choose|j: int| 0 <= j < seq.len() && seq[j] == (&id, &self.map@[id]);
                assert(*seq[j].0 == id);
            }
        }
        self.map = kept;
        proof {
            assert forall|id: i64| #[trigger] self.lookup(id) == (match quote_lookup_of(before, id) {
                Some(q) => if is_recent(q, now) { Some(q) } else { None },
                None => None,
            }) by {}
            assert(self.quotes().dom().subset_of(before.dom()));
            vstd::set_lib::lemma_len_subset(self.quotes().dom(), before.dom());
        }
    }
}

/// The quote a map keeps for an order.
pub open spec fn quote_lookup_of(m: Map<i64, ExitFastSubmitQuoteView>, id: i64) -> Option<ExitFastSubmitQuoteView> {
    if m.contains_key(id) { Some(m[id]) } else { None }
}

/// The quote captured for a token at `captured_at`.
pub open spec fn spec_new_quote(token_id: Seq<char>, captured_at: i64, market_updated_at_ms: i64, order_book: &OrderBookSnapshot, best_bid: Option<i64>, best_ask: Option<i64>, last_trade_price: Option<i64>) -> ExitFastSubmitQuoteView {
    ExitFastSubmitQuoteView {
        token_id,
        captured_at,
        market_updated_at_ms,
        bids: order_book.bids@,
        asks: order_book.asks@,
        best_bid,
        best_ask,
        last_trade_price,
    }
}

/// What a lookup hands out: the quote kept for the order while it is fresh
/// for the token.
pub open spec fn spec_get_quote(kept: Option<ExitFastSubmitQuoteView>, token_id: Seq<char>, now: i64) -> Option<ExitFastSubmitQuoteView> {
    match kept {
        Some(q) => if spec_quote_is_fresh(q, token_id, now) { Some(q) } else { None },
        None => None,
    }
}

pub open spec fn opt_quote_view(q: Option<ExitFastSubmitQuote>) -> Option<ExitFastSubmitQuoteView> {
    match q {
        Some(q) => Some(q@),
        None => None,
    }
}

/// Keeps a quote captured at `captured_at` for an exit order (none for an
/// order id that is not positive, or a blank token); when the cache then
/// holds more than 512 quotes, drops those no longer recent at `now`.
pub fn put_exit_fast_submit_quote_at(
    cache: &mut ExitFastSubmitQuoteCache,
    order_id: i64,
    token_id: &str,
    market_updated_at_ms: i64,
    order_book: &OrderBookSnapshot,
    best_bid: Option<i64>,
    best_ask: Option<i64>,
    last_trade_price: Option<i64>,
    captured_at: i64,
    now: i64,
)
    requires
        old(cache).wf(),
    ensures
        final(cache).wf(),
        order_id <= 0 || trim(token_id@).len() == 0 ==> forall|id: i64| #[trigger] final(cache).lookup(id) == old(cache).lookup(id),
        order_id > 0 && trim(token_id@).len() > 0 ==> ({
            let q = spec_new_quote(token_id@, captured_at, market_updated_at_ms, order_book, best_bid, best_ask, last_trade_price);
            let grown = old(cache).count() + (if old(cache).lookup(order_id) is Some { 0int } else { 1int });
            forall|id: i64| #[trigger] final(cache).lookup(id) == ({
                let kept = if id == order_id { Some(q) } else { old(cache).lookup(id) };
                if grown > EXIT_FAST_SUBMIT_QUOTE_CACHE_SOFT_LIMIT {
                    match kept {
                        Some(k) => if is_recent(k, now) { Some(k) } else { None },
                        None => None,
                    }
                } else {
                    kept
                }
            })
        }),
{
    if order_id <= 0 || is_blank(token_id) {
        return;
    }
    let quote = ExitFastSubmitQuote {
        token_id: token_id.to_string(),
        captured_at,
        market_updated_at_ms,
        order_book: OrderBookSnapshot { bids: copy_levels(&order_book.bids), asks: copy_levels(&order_book.asks) },
        best_bid,
        best_ask,
        last_trade_price,
    };
    cache.insert(order_id, quote);
    if cache.len() > EXIT_FAST_SUBMIT_QUOTE_CACHE_SOFT_LIMIT {
        cache.retain_recent(now);
    }
}

/// Keeps a quote for an exit order, captured now (see
/// `put_exit_fast_submit_quote_at`); the clock is read again for the
/// clean-up, as each read may give another instant.
pub fn put_exit_fast_submit_quote(
    cache: &mut ExitFastSubmitQuoteCache,
    order_id: i64,
    token_id: &str,
    market_updated_at_ms: i64,
    order_book: &OrderBookSnapshot,
    best_bid: Option<i64>,
    best_ask: Option<i64>,
    last_trade_price: Option<i64>,
)
    requires
        old(cache).wf(),
    ensures
        final(cache).wf(),
        order_id <= 0 || trim(token_id@).len() == 0 ==> forall|id: i64| #[trigger] final(cache).lookup(id) == old(cache).lookup(id),
        order_id > 0 && trim(token_id@).len() > 0 ==> (
            (final(cache).lookup(order_id) matches Some(q)
                && q == spec_new_quote(token_id@, q.captured_at, market_updated_at_ms, order_book, best_bid, best_ask, last_trade_price))
            || final(cache).lookup(order_id) is None),
{
    let captured_at = utc_now_micros();
    let now = utc_now_micros();
    put_exit_fast_submit_quote_at(cache, order_id, token_id, market_updated_at_ms, order_book, best_bid, best_ask, last_trade_price, captured_at, now);
}

/// The quote kept for an order while it is fresh for the token; a stale
/// quote is dropped.
pub fn get_exit_fast_submit_quote(cache: &mut ExitFastSubmitQuoteCache, order_id: i64, token_id: &str, now: i64) -> (r: Option<ExitFastSubmitQuote>)
    requires
        old(cache).wf(),
    ensures
        final(cache).wf(),
        opt_quote_view(r) == spec_get_quote(old(cache).lookup(order_id), token_id@, now),
        (old(cache).lookup(order_id) is Some && r is None) ==> final(cache).lookup(order_id) is None,
        (old(cache).lookup(order_id) is None || r is Some) ==> final(cache).lookup(order_id) == old(cache).lookup(order_id),
        forall|id: i64| id != order_id ==> #[trigger] final(cache).lookup(id) == old(cache).lookup(id),
{
    let fresh = match cache.get(order_id) {
        None => return None,
        Some(q) => if exit_fast_submit_quote_is_fresh(q, token_id, now) { Some(q.duplicate()) } else { None },
    };
    if fresh.is_none() {
        cache.remove(order_id);
    }
    fresh
}

/// The fresh quote of a child exit sell (see `get_exit_fast_submit_quote`);
/// none for any other order, whose lookup leaves the cache as it is.
pub fn get_exit_fast_submit_quote_for_order(cache: &mut ExitFastSubmitQuoteCache, order: &TradeBuilderOrder, now: i64) -> (r: Option<ExitFastSubmitQuote>)
    requires
        old(cache).wf(),
    ensures
        final(cache).wf(),
        !spec_is_child_exit_sell(order) ==> r is None && forall|id: i64| #[trigger] final(cache).lookup(id) == old(cache).lookup(id),
        spec_is_child_exit_sell(order) ==> opt_quote_view(r) == spec_get_quote(old(cache).lookup(order.id), order.token_id@, now),
        forall|id: i64| id != order.id ==> #[trigger] final(cache).lookup(id) == old(cache).lookup(id),
{
    if !trade_builder_is_child_exit_sell(order) {
        return None;
    }
    get_exit_fast_submit_quote(cache, order.id, order.token_id.as_str(), now)
}

/// Keeps a quote under an order id of at least one, as it is.
pub fn put_exit_fast_submit_quote_for_test(cache: &mut ExitFastSubmitQuoteCache, order_id: i64, quote: ExitFastSubmitQuote)
    requires
        old(cache).wf(),
    ensures
        final(cache).wf(),
        final(cache).lookup(if order_id < 1 { 1 } else { order_id }) == Some(quote@),
        forall|id: i64| id != (if order_id < 1 { 1 } else { order_id }) ==> #[trigger] final(cache).lookup(id) == old(cache).lookup(id),
{
    let id: i64 = if order_id < 1 { 1 } else { order_id };
    cache.insert(id, quote);
}

/// Drops every quote.
pub fn clear_exit_fast_submit_quotes_for_test(cache: &mut ExitFastSubmitQuoteCache)
    ensures
        final(cache).wf(),
        final(cache).count() == 0,
        forall|id: i64| final(cache).lookup(id) is None,
{
    cache.clear();
}

/// Law: a quote kept for an order is handed back, as it was captured, to a
/// lookup for its token within 500 ms of its capture, and to no lookup for
/// another token or later.
pub proof fn law_quote_read_back_while_fresh(q: ExitFastSubmitQuoteView, token_id: Seq<char>, now: i64)
    ensures
        spec_get_quote(Some(q), token_id, now) == (if token_id == q.token_id && now - q.captured_at < 501_000 { Some(q) } else { None }),
{
}

} // verus!
