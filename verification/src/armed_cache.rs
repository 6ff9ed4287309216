//! The in-memory index of armed exit orders that the websocket fast path
//! evaluates: by token for price triggers, and by asset and by market slug
//! for price-to-beat stop losses.
//!
//! An index is a list of buckets, each a key with the orders filed under it.
//! Keys are distinct, no bucket is empty, and a bucket keeps its orders in
//! the order of their creation instants, earlier first; orders created at
//! the same instant stay in the order in which they were filed.
use vstd::prelude::*;
use crate::order::{TradeBuilderOrder, TradeBuilderOrderView, spec_is_child_exit_sell, trade_builder_is_child_exit_sell, opt_text};
use crate::market_scope::{spec_updown_asset, find_updown_asset};
use crate::text::{str_eq, trimmed_lower, lower, trim};

verus! {

broadcast use vstd::string::group_string_axioms;

/// The views of a sequence of orders.
pub open spec fn orders_view(s: Seq<TradeBuilderOrder>) -> Seq<TradeBuilderOrderView> {
    s.map_values(|o: TradeBuilderOrder| o@)
}

/// The orders of a bucket without those of one id, in their order.
pub open spec fn without_order(s: Seq<TradeBuilderOrderView>, id: i64) -> Seq<TradeBuilderOrderView>
    decreases s.len(),
{
    if s.len() == 0 {
        s
    } else {
        let rest = without_order(s.drop_first(), id);
        if s[0].id == id {
            rest
        } else {
            seq![s[0]] + rest
        }
    }
}

/// A bucket with one more order, placed after every order created no later
/// than it: on a bucket in creation order, what a push followed by a stable
/// sort on the creation instant gives.
pub open spec fn insert_by_created(s: Seq<TradeBuilderOrderView>, o: TradeBuilderOrderView) -> Seq<TradeBuilderOrderView>
    decreases s.len(),
{
    if s.len() == 0 {
        seq![o]
    } else if s[0].created_at <= o.created_at {
        seq![s[0]] + insert_by_created(s.drop_first(), o)
    } else {
        seq![o] + s
    }
}

/// Orders in the order of their creation instants.
pub open spec fn sorted_by_created(s: Seq<TradeBuilderOrderView>) -> bool {
    forall|i: int, j: int| 0 <= i <= j < s.len() ==> s[i].created_at <= s[j].created_at
}

/// Every order created at `t` or later.
pub open spec fn created_from(s: Seq<TradeBuilderOrderView>, t: i64) -> bool {
    forall|i: int| 0 <= i < s.len() ==> s[i].created_at >= t
}

/// The orders filed under `key` (none when no bucket has it).
pub open spec fn entries_lookup(e: Seq<(Seq<char>, Seq<TradeBuilderOrderView>)>, key: Seq<char>) -> Seq<TradeBuilderOrderView>
    decreases e.len(),
{
    if e.len() == 0 {
        Seq::empty()
    } else if e[0].0 == key {
        e[0].1
    } else {
        entries_lookup(e.drop_first(), key)
    }
}

/// No bucket has `key`.
pub open spec fn no_key(e: Seq<(Seq<char>, Seq<TradeBuilderOrderView>)>, key: Seq<char>) -> bool {
    forall|i: int| 0 <= i < e.len() ==> e[i].0 != key
}

/// Distinct keys, no empty bucket, each bucket in creation order.
pub open spec fn entries_wf(e: Seq<(Seq<char>, Seq<TradeBuilderOrderView>)>) -> bool {
    &&& forall|i: int, j: int| 0 <= i < j < e.len() ==> e[i].0 != e[j].0
    &&& forall|i: int| 0 <= i < e.len() ==> e[i].1.len() > 0 && sorted_by_created(e[i].1)
}

/// Every bucket without the orders of one id; a bucket left empty goes.
pub open spec fn entries_without(e: Seq<(Seq<char>, Seq<TradeBuilderOrderView>)>, id: i64) -> Seq<(Seq<char>, Seq<TradeBuilderOrderView>)>
    decreases e.len(),
{
    if e.len() == 0 {
        e
    } else {
        let rest = entries_without(e.drop_first(), id);
        let kept = without_order(e[0].1, id);
        if kept.len() == 0 {
            rest
        } else {
            seq![(e[0].0, kept)] + rest
        }
    }
}

/// The buckets with one more order filed under `key`: into its bucket, or
/// into a new bucket at the end.
pub open spec fn entries_insert(e: Seq<(Seq<char>, Seq<TradeBuilderOrderView>)>, key: Seq<char>, o: TradeBuilderOrderView) -> Seq<(Seq<char>, Seq<TradeBuilderOrderView>)>
    decreases e.len(),
{
    if e.len() == 0 {
        seq![(key, seq![o])]
    } else if e[0].0 == key {
        seq![(key, insert_by_created(e[0].1, o))] + e.drop_first()
    } else {
        seq![e[0]] + entries_insert(e.drop_first(), key, o)
    }
}

pub proof fn lemma_without_bounds(s: Seq<TradeBuilderOrderView>, id: i64, t: i64)
    requires
        created_from(s, t),
    ensures
        created_from(without_order(s, id), t),
        without_order(s, id).len() <= s.len(),
    decreases s.len(),
{
    if s.len() > 0 {
        assert(created_from(s.drop_first(), t));
        lemma_without_bounds(s.drop_first(), id, t);
    }
}

pub proof fn lemma_without_sorted(s: Seq<TradeBuilderOrderView>, id: i64)
    requires
        sorted_by_created(s),
    ensures
        sorted_by_created(without_order(s, id)),
    decreases s.len(),
{
    if s.len() > 0 {
        let rest = s.drop_first();
        assert(sorted_by_created(rest));
        lemma_without_sorted(rest, id);
        assert(created_from(rest, s[0].created_at));
        lemma_without_bounds(rest, id, s[0].created_at);
        let w = without_order(rest, id);
        if s[0].id != id {
            let r = seq![s[0]] + w;
            assert forall|i: int, j: int| 0 <= i <= j < r.len() implies r[i].created_at <= r[j].created_at by {
                if i > 0 {
                    assert(r[i] == w[i - 1] && r[j] == w[j - 1]);
                } else if j > 0 {
                    assert(r[j] == w[j - 1]);
                }
            }
        }
    }
}

pub proof fn lemma_insert_bounds(s: Seq<TradeBuilderOrderView>, o: TradeBuilderOrderView, t: i64)
    requires
        created_from(s, t),
        o.created_at >= t,
    ensures
        created_from(insert_by_created(s, o), t),
        insert_by_created(s, o).len() == s.len() + 1,
    decreases s.len(),
{
    if s.len() > 0 && s[0].created_at <= o.created_at {
        assert(created_from(s.drop_first(), t));
        lemma_insert_bounds(s.drop_first(), o, t);
    }
}

pub proof fn lemma_insert_sorted(s: Seq<TradeBuilderOrderView>, o: TradeBuilderOrderView)
    requires
        sorted_by_created(s),
    ensures
        sorted_by_created(insert_by_created(s, o)),
        insert_by_created(s, o).len() == s.len() + 1,
    decreases s.len(),
{
    if s.len() > 0 {
        let rest = s.drop_first();
        if s[0].created_at <= o.created_at {
            assert(sorted_by_created(rest));
            lemma_insert_sorted(rest, o);
            assert(created_from(rest, s[0].created_at));
            lemma_insert_bounds(rest, o, s[0].created_at);
            let w = insert_by_created(rest, o);
            let r = seq![s[0]] + w;
            assert forall|i: int, j: int| 0 <= i <= j < r.len() implies r[i].created_at <= r[j].created_at by {
                if i > 0 {
                    assert(r[i] == w[i - 1] && r[j] == w[j - 1]);
                } else if j > 0 {
                    assert(r[j] == w[j - 1]);
                }
            }
        } else {
            let r = seq![o] + s;
            assert forall|i: int, j: int| 0 <= i <= j < r.len() implies r[i].created_at <= r[j].created_at by {
                if i > 0 {
                    assert(r[i] == s[i - 1] && r[j] == s[j - 1]);
                } else if j > 0 {
                    assert(r[j] == s[j - 1]);
                    assert(s[0].created_at <= s[j - 1].created_at);
                }
            }
        }
    }
}

pub proof fn lemma_no_key_lookup(e: Seq<(Seq<char>, Seq<TradeBuilderOrderView>)>, key: Seq<char>)
    requires
        no_key(e, key),
    ensures
        entries_lookup(e, key) == Seq::<TradeBuilderOrderView>::empty(),
    decreases e.len(),
{
    if e.len() > 0 {
        assert(no_key(e.drop_first(), key));
        lemma_no_key_lookup(e.drop_first(), key);
    }
}

pub proof fn lemma_without_no_key(e: Seq<(Seq<char>, Seq<TradeBuilderOrderView>)>, id: i64, key: Seq<char>)
    requires
        no_key(e, key),
    ensures
        no_key(entries_without(e, id), key),
    decreases e.len(),
{
    if e.len() > 0 {
        assert(no_key(e.drop_first(), key));
        lemma_without_no_key(e.drop_first(), id, key);
        let rest = entries_without(e.drop_first(), id);
        let kept = without_order(e[0].1, id);
        if kept.len() > 0 {
            let r = seq![(e[0].0, kept)] + rest;
            assert forall|i: int| 0 <= i < r.len() implies r[i].0 != key by {
                if i > 0 {
                    assert(r[i] == rest[i - 1]);
                }
            }
        }
    }
}

pub proof fn lemma_insert_no_key(e: Seq<(Seq<char>, Seq<TradeBuilderOrderView>)>, key: Seq<char>, o: TradeBuilderOrderView, other: Seq<char>)
    requires
        no_key(e, other),
        other != key,
    ensures
        no_key(entries_insert(e, key, o), other),
    decreases e.len(),
{
    if e.len() > 0 {
        assert(no_key(e.drop_first(), other));
        if e[0].0 == key {
            let r = seq![(key, insert_by_created(e[0].1, o))] + e.drop_first();
            assert forall|i: int| 0 <= i < r.len() implies r[i].0 != other by {
                if i > 0 {
                    assert(r[i] == e.drop_first()[i - 1]);
                }
            }
        } else {
            lemma_insert_no_key(e.drop_first(), key, o, other);
            let rest = entries_insert(e.drop_first(), key, o);
            let r = seq![e[0]] + rest;
            assert forall|i: int| 0 <= i < r.len() implies r[i].0 != other by {
                if i > 0 {
                    assert(r[i] == rest[i - 1]);
                }
            }
        }
    }
}

/// Removing the orders of an id keeps the buckets well formed.
pub proof fn lemma_entries_without_wf(e: Seq<(Seq<char>, Seq<TradeBuilderOrderView>)>, id: i64)
    requires
        entries_wf(e),
    ensures
        entries_wf(entries_without(e, id)),
    decreases e.len(),
{
    if e.len() > 0 {
        let tail = e.drop_first();
        assert(entries_wf(tail)) by {
            assert forall|i: int, j: int| 0 <= i < j < tail.len() implies tail[i].0 != tail[j].0 by {
                assert(tail[i] == e[i + 1] && tail[j] == e[j + 1]);
            }
            assert forall|i: int| 0 <= i < tail.len() implies tail[i].1.len() > 0 && sorted_by_created(tail[i].1) by {
                assert(tail[i] == e[i + 1]);
            }
        }
        lemma_entries_without_wf(tail, id);
        let rest = entries_without(tail, id);
        let kept = without_order(e[0].1, id);
        if kept.len() > 0 {
            assert(no_key(tail, e[0].0)) by {
                assert forall|i: int| 0 <= i < tail.len() implies tail[i].0 != e[0].0 by {
                    assert(tail[i] == e[i + 1]);
                }
            }
            lemma_without_no_key(tail, id, e[0].0);
            lemma_without_sorted(e[0].1, id);
            let r = seq![(e[0].0, kept)] + rest;
            assert forall|i: int, j: int| 0 <= i < j < r.len() implies r[i].0 != r[j].0 by {
                assert(r[j] == rest[j - 1]);
                if i > 0 {
                    assert(r[i] == rest[i - 1]);
                }
            }
            assert forall|i: int| 0 <= i < r.len() implies r[i].1.len() > 0 && sorted_by_created(r[i].1) by {
                if i > 0 {
                    assert(r[i] == rest[i - 1]);
                }
            }
        }
    }
}

/// Filing an order keeps the buckets well formed.
pub proof fn lemma_entries_insert_wf(e: Seq<(Seq<char>, Seq<TradeBuilderOrderView>)>, key: Seq<char>, o: TradeBuilderOrderView)
    requires
        entries_wf(e),
    ensures
        entries_wf(entries_insert(e, key, o)),
    decreases e.len(),
{
    if e.len() == 0 {
        let r = entries_insert(e, key, o);
        assert(r[0].1 =~= seq![o]);
    } else {
        let tail = e.drop_first();
        assert(entries_wf(tail)) by {
            assert forall|i: int, j: int| 0 <= i < j < tail.len() implies tail[i].0 != tail[j].0 by {
                assert(tail[i] == e[i + 1] && tail[j] == e[j + 1]);
            }
            assert forall|i: int| 0 <= i < tail.len() implies tail[i].1.len() > 0 && sorted_by_created(tail[i].1) by {
                assert(tail[i] == e[i + 1]);
            }
        }
        assert(no_key(tail, e[0].0)) by {
            assert forall|i: int| 0 <= i < tail.len() implies tail[i].0 != e[0].0 by {
                assert(tail[i] == e[i + 1]);
            }
        }
        if e[0].0 == key {
            lemma_insert_sorted(e[0].1, o);
            let r = seq![(key, insert_by_created(e[0].1, o))] + tail;
            assert forall|i: int, j: int| 0 <= i < j < r.len() implies r[i].0 != r[j].0 by {
                assert(r[j] == tail[j - 1]);
                if i > 0 {
                    assert(r[i] == tail[i - 1]);
                }
            }
            assert forall|i: int| 0 <= i < r.len() implies r[i].1.len() > 0 && sorted_by_created(r[i].1) by {
                if i > 0 {
                    assert(r[i] == tail[i - 1]);
                }
            }
        } else {
            lemma_entries_insert_wf(tail, key, o);
            lemma_insert_no_key(tail, key, o, e[0].0);
            let rest = entries_insert(tail, key, o);
            let r = seq![e[0]] + rest;
            assert forall|i: int, j: int| 0 <= i < j < r.len() implies r[i].0 != r[j].0 by {
                assert(r[j] == rest[j - 1]);
                if i > 0 {
                    assert(r[i] == rest[i - 1]);
                }
            }
            assert forall|i: int| 0 <= i < r.len() implies r[i].1.len() > 0 && sorted_by_created(r[i].1) by {
                if i > 0 {
                    assert(r[i] == rest[i - 1]);
                }
            }
        }
    }
}

proof fn lemma_tail_no_key(e: Seq<(Seq<char>, Seq<TradeBuilderOrderView>)>)
    requires
        entries_wf(e),
        e.len() > 0,
    ensures
        no_key(e.drop_first(), e[0].0),
        entries_wf(e.drop_first()),
{
    let tail = e.drop_first();
    assert forall|i: int| 0 <= i < tail.len() implies tail[i].0 != e[0].0 by {
        assert(tail[i] == e[i + 1]);
    }
    assert forall|i: int, j: int| 0 <= i < j < tail.len() implies tail[i].0 != tail[j].0 by {
        assert(tail[i] == e[i + 1] && tail[j] == e[j + 1]);
    }
    assert forall|i: int| 0 <= i < tail.len() implies tail[i].1.len() > 0 && sorted_by_created(tail[i].1) by {
        assert(tail[i] == e[i + 1]);
    }
}

/// Law: after the orders of `id` are removed, the bucket of any key holds
/// what it held before, without the orders of `id`.
pub proof fn law_lookup_after_remove(e: Seq<(Seq<char>, Seq<TradeBuilderOrderView>)>, id: i64, key: Seq<char>)
    requires
        entries_wf(e),
    ensures
        entries_lookup(entries_without(e, id), key) == without_order(entries_lookup(e, key), id),
    decreases e.len(),
{
    if e.len() > 0 {
        let tail = e.drop_first();
        lemma_tail_no_key(e);
        law_lookup_after_remove(tail, id, key);
        let rest = entries_without(tail, id);
        let kept = without_order(e[0].1, id);
        if kept.len() > 0 {
            let r = seq![(e[0].0, kept)] + rest;
            assert(r.drop_first() =~= rest);
        } else if e[0].0 == key {
            lemma_no_key_lookup(tail, key);
            lemma_without_no_key(tail, id, key);
            lemma_no_key_lookup(rest, key);
        }
    }
}

/// Law: filing an order under `key` puts it into the bucket of `key`, after
/// the orders created no later than it, and leaves every other bucket as it
/// was.
pub proof fn law_lookup_after_insert(e: Seq<(Seq<char>, Seq<TradeBuilderOrderView>)>, key: Seq<char>, o: TradeBuilderOrderView, other: Seq<char>)
    ensures
        entries_lookup(entries_insert(e, key, o), other) == if other == key {
            insert_by_created(entries_lookup(e, other), o)
        } else {
            entries_lookup(e, other)
        },
    decreases e.len(),
{
    if e.len() == 0 {
        let r = entries_insert(e, key, o);
        assert(r.drop_first() =~= e);
        assert(insert_by_created(Seq::<TradeBuilderOrderView>::empty(), o) =~= seq![o]);
    } else if e[0].0 == key {
        let r = seq![(key, insert_by_created(e[0].1, o))] + e.drop_first();
        assert(r.drop_first() =~= e.drop_first());
    } else {
        law_lookup_after_insert(e.drop_first(), key, o, other);
        let rest = entries_insert(e.drop_first(), key, o);
        let r = seq![e[0]] + rest;
        assert(r.drop_first() =~= rest);
    }
}

proof fn lemma_without_idempotent(s: Seq<TradeBuilderOrderView>, id: i64)
    ensures
        without_order(without_order(s, id), id) == without_order(s, id),
    decreases s.len(),
{
    if s.len() > 0 {
        lemma_without_idempotent(s.drop_first(), id);
        let w = without_order(s.drop_first(), id);
        if s[0].id != id {
            assert((seq![s[0]] + w).drop_first() =~= w);
        }
    }
}

proof fn lemma_without_insert_same(s: Seq<TradeBuilderOrderView>, o: TradeBuilderOrderView, id: i64)
    requires
        o.id == id,
    ensures
        without_order(insert_by_created(s, o), id) == without_order(s, id),
    decreases s.len(),
{
    if s.len() == 0 {
        assert(seq![o].drop_first() =~= Seq::<TradeBuilderOrderView>::empty());
        reveal_with_fuel(without_order, 2);
    } else if s[0].created_at <= o.created_at {
        lemma_without_insert_same(s.drop_first(), o, id);
        let r = seq![s[0]] + insert_by_created(s.drop_first(), o);
        assert(r.drop_first() =~= insert_by_created(s.drop_first(), o));
        assert(r[0] == s[0]);
    } else {
        assert((seq![o] + s).drop_first() =~= s);
    }
}

/// Removing the orders of an id twice removes no more than once.
pub proof fn lemma_entries_without_idempotent(e: Seq<(Seq<char>, Seq<TradeBuilderOrderView>)>, id: i64)
    ensures
        entries_without(entries_without(e, id), id) == entries_without(e, id),
    decreases e.len(),
{
    if e.len() > 0 {
        lemma_entries_without_idempotent(e.drop_first(), id);
        let rest = entries_without(e.drop_first(), id);
        let kept = without_order(e[0].1, id);
        lemma_without_idempotent(e[0].1, id);
        if kept.len() > 0 {
            let r = seq![(e[0].0, kept)] + rest;
            assert(r.drop_first() =~= rest);
        }
    }
}

/// Filing an order of `id` and then removing the orders of `id` removes
/// them as if it had never been filed.
pub proof fn lemma_entries_without_insert_same(e: Seq<(Seq<char>, Seq<TradeBuilderOrderView>)>, key: Seq<char>, o: TradeBuilderOrderView, id: i64)
    requires
        o.id == id,
    ensures
        entries_without(entries_insert(e, key, o), id) == entries_without(e, id),
    decreases e.len(),
{
    if e.len() == 0 {
        let r = entries_insert(e, key, o);
        assert(r.drop_first() =~= e);
        assert(seq![o].drop_first() =~= Seq::<TradeBuilderOrderView>::empty());
        assert(without_order(seq![o], id) =~= Seq::<TradeBuilderOrderView>::empty()) by {
            reveal_with_fuel(without_order, 2);
        }
    } else if e[0].0 == key {
        let r = seq![(key, insert_by_created(e[0].1, o))] + e.drop_first();
        assert(r.drop_first() =~= e.drop_first());
        lemma_without_insert_same(e[0].1, o, id);
    } else {
        lemma_entries_without_insert_same(e.drop_first(), key, o, id);
        let rest = entries_insert(e.drop_first(), key, o);
        let r = seq![e[0]] + rest;
        assert(r.drop_first() =~= rest);
    }
}

/// The orders filed under one key.
pub struct ArmedBuilderOrderBucket {
    pub key: String,
    pub orders: Vec<TradeBuilderOrder>,
}

/// One index of the cache: buckets of orders by key.
pub struct ArmedBuilderOrderBuckets {
    pub buckets: Vec<ArmedBuilderOrderBucket>,
}

/// The views of a sequence of buckets: each key with the views of its orders.
pub open spec fn buckets_view(s: Seq<ArmedBuilderOrderBucket>) -> Seq<(Seq<char>, Seq<TradeBuilderOrderView>)> {
    s.map_values(|b: ArmedBuilderOrderBucket| (b.key@, orders_view(b.orders@)))
}

impl View for ArmedBuilderOrderBuckets {
    type V = Seq<(Seq<char>, Seq<TradeBuilderOrderView>)>;

    open spec fn view(&self) -> Seq<(Seq<char>, Seq<TradeBuilderOrderView>)> {
        buckets_view(self.buckets@)
    }
}

/// The orders of a bucket without those of one id.
fn without_orders(orders: Vec<TradeBuilderOrder>, order_id: i64) -> (r: Vec<TradeBuilderOrder>)
    ensures
        orders_view(r@) == without_order(orders_view(orders@), order_id),
{
    let ghost target = without_order(orders_view(orders@), order_id);
    let mut rest = orders;
    let mut kept: Vec<TradeBuilderOrder> = Vec::new();
    while rest.len() > 0
        invariant
            orders_view(kept@) + without_order(orders_view(rest@), order_id) == target,
        decreases rest.len(),
    {
        let ghost before = orders_view(rest@);
        let o = rest.remove(0);
        proof {
            assert(orders_view(rest@) =~= before.drop_first());
            assert(before[0] == o@);
        }
        if o.id != order_id {
            let ghost k = orders_view(kept@);
            kept.push(o);
            proof {
                assert(orders_view(kept@) =~= k.push(o@));
                assert(k.push(o@) + without_order(before.drop_first(), order_id)
                    =~= k + (seq![o@] + without_order(before.drop_first(), order_id)));
            }
        }
    }
    proof {
        assert(orders_view(rest@) =~= Seq::<TradeBuilderOrderView>::empty());
        assert(orders_view(kept@) + Seq::<TradeBuilderOrderView>::empty() =~= orders_view(kept@));
    }
    kept
}

/// A bucket with one more order, after those created no later than it.
fn insert_order(orders: Vec<TradeBuilderOrder>, order: TradeBuilderOrder) -> (r: Vec<TradeBuilderOrder>)
    ensures
        orders_view(r@) == insert_by_created(orders_view(orders@), order@),
{
    let ghost target = insert_by_created(orders_view(orders@), order@);
    let ghost o = order@;
    let mut rest = orders;
    let mut out: Vec<TradeBuilderOrder> = Vec::new();
    while rest.len() > 0 && rest[0].created_at <= order.created_at
        invariant
            o == order@,
            orders_view(out@) + insert_by_created(orders_view(rest@), o) == target,
        decreases rest.len(),
    {
        let ghost before = orders_view(rest@);
        let x = rest.remove(0);
        proof {
            assert(orders_view(rest@) =~= before.drop_first());
            assert(before[0] == x@);
        }
        let ghost k = orders_view(out@);
        out.push(x);
        proof {
            assert(orders_view(out@) =~= k.push(x@));
            assert(k.push(x@) + insert_by_created(before.drop_first(), o)
                =~= k + (seq![x@] + insert_by_created(before.drop_first(), o)));
        }
    }
    let ghost before = orders_view(rest@);
    let ghost k = orders_view(out@);
    out.push(order);
    proof {
        assert(orders_view(out@) =~= k.push(o));
        if before.len() == 0 {
            assert(insert_by_created(before, o) =~= seq![o]);
        }
    }
    let ghost mid = orders_view(out@);
    proof {
        assert(mid + before =~= k + insert_by_created(before, o));
    }
    while rest.len() > 0
        invariant
            orders_view(out@) + orders_view(rest@) == target,
        decreases rest.len(),
    {
        let ghost b = orders_view(rest@);
        let x = rest.remove(0);
        proof {
            assert(orders_view(rest@) =~= b.drop_first());
            assert(b[0] == x@);
        }
        let ghost k2 = orders_view(out@);
        out.push(x);
        proof {
            assert(orders_view(out@) =~= k2.push(x@));
            assert(k2.push(x@) + b.drop_first() =~= k2 + b);
        }
    }
    proof {
        assert(orders_view(out@) + orders_view(rest@) =~= orders_view(out@));
    }
    out
}

impl ArmedBuilderOrderBuckets {
    /// An index with no bucket.
    pub fn new() -> (r: Self)
        ensures
            r@ == Seq::<(Seq<char>, Seq<TradeBuilderOrderView>)>::empty(),
            r.wf(),
    {
        let r = ArmedBuilderOrderBuckets { buckets: Vec::new() };
        assert(r@ =~= Seq::<(Seq<char>, Seq<TradeBuilderOrderView>)>::empty());
        r
    }

    /// Distinct keys, no empty bucket, each bucket in creation order.
    pub open spec fn wf(&self) -> bool {
        entries_wf(self@)
    }

    /// The orders filed under `key`.
    pub open spec fn lookup(&self, key: Seq<char>) -> Seq<TradeBuilderOrderView> {
        entries_lookup(self@, key)
    }

    /// The position of the bucket of `key`.
    pub fn key_position(&self, key: &str) -> (r: Option<usize>)
        ensures
            r matches Some(i) ==> i < self.buckets.len() && self.buckets@[i as int].key@ == key@
                && self.lookup(key@) == orders_view(self.buckets@[i as int].orders@),
            r is None ==> self.lookup(key@) == Seq::<TradeBuilderOrderView>::empty(),
    {
        let mut i: usize = 0;
        assert(self@.skip(0) =~= self@);
        while i < self.buckets.len()
            invariant
                i <= self.buckets.len(),
                entries_lookup(self@, key@) == entries_lookup(self@.skip(i as int), key@),
            decreases self.buckets.len() - i,
        {
            assert(self@.skip(i as int)[0] == self@[i as int]);
            if str_eq(self.buckets[i].key.as_str(), key) {
                return Some(i);
            }
            assert(self@.skip(i as int).drop_first() =~= self@.skip(i + 1));
            i = i + 1;
        }
        assert(self@.skip(i as int).len() == 0);
        None
    }

    /// The keys of the buckets, in order.
    pub fn keys(&self) -> (r: Vec<String>)
        ensures
            r@.len() == self@.len(),
            forall|i: int| 0 <= i < r@.len() ==> #[trigger] r@[i]@ == self@[i].0,
    {
        let mut r: Vec<String> = Vec::new();
        let mut i: usize = 0;
        while i < self.buckets.len()
            invariant
                i <= self.buckets.len(),
                r@.len() == i,
                forall|j: int| 0 <= j < i ==> #[trigger] r@[j]@ == self@[j].0,
            decreases self.buckets.len() - i,
        {
            r.push(self.buckets[i].key.clone());
            i = i + 1;
        }
        r
    }
}

/// Removes the orders of `order_id` from every bucket; a bucket left empty
/// goes.
pub fn remove_order_from_armed_builder_bucket(buckets: &mut ArmedBuilderOrderBuckets, order_id: i64)
    ensures
        final(buckets)@ == entries_without(old(buckets)@, order_id),
        old(buckets).wf() ==> final(buckets).wf(),
{
    let ghost target = entries_without(old(buckets)@, order_id);
    proof {
        if old(buckets).wf() {
            lemma_entries_without_wf(old(buckets)@, order_id);
        }
    }
    let mut rest: Vec<ArmedBuilderOrderBucket> = Vec::new();
    std::mem::swap(&mut rest, &mut buckets.buckets);
    let mut out: Vec<ArmedBuilderOrderBucket> = Vec::new();
    while rest.len() > 0
        invariant
            buckets_view(out@) + entries_without(buckets_view(rest@), order_id) == target,
        decreases rest.len(),
    {
        let ghost before = buckets_view(rest@);
        let b = rest.remove(0);
        proof {
            assert(buckets_view(rest@) =~= before.drop_first());
            assert(before[0] == (b.key@, orders_view(b.orders@)));
        }
        let ArmedBuilderOrderBucket { key, orders } = b;
        let kept = without_orders(orders, order_id);
        if kept.len() > 0 {
            let ghost k = buckets_view(out@);
            let nb = ArmedBuilderOrderBucket { key, orders: kept };
            out.push(nb);
            proof {
                assert(buckets_view(out@) =~= k.push((nb.key@, orders_view(nb.orders@))));
                assert(k.push((nb.key@, orders_view(nb.orders@))) + entries_without(before.drop_first(), order_id)
                    =~= k + (seq![(nb.key@, orders_view(nb.orders@))] + entries_without(before.drop_first(), order_id)));
            }
        } else {
            proof {
                assert(orders_view(kept@).len() == 0);
            }
        }
    }
    proof {
        assert(buckets_view(rest@) =~= Seq::<(Seq<char>, Seq<TradeBuilderOrderView>)>::empty());
        assert(buckets_view(out@) + Seq::<(Seq<char>, Seq<TradeBuilderOrderView>)>::empty() =~= buckets_view(out@));
    }
    buckets.buckets = out;
}

/// Files a copy of `order` under `key`, after the orders of that bucket
/// created no later than it; a new key gets a new bucket at the end.
pub fn push_order_into_armed_builder_bucket(buckets: &mut ArmedBuilderOrderBuckets, key: String, order: &TradeBuilderOrder)
    ensures
        final(buckets)@ == entries_insert(old(buckets)@, key@, order@),
        old(buckets).wf() ==> final(buckets).wf(),
{
    let ghost target = entries_insert(old(buckets)@, key@, order@);
    proof {
        if old(buckets).wf() {
            lemma_entries_insert_wf(old(buckets)@, key@, order@);
        }
    }
    let mut rest: Vec<ArmedBuilderOrderBucket> = Vec::new();
    std::mem::swap(&mut rest, &mut buckets.buckets);
    let mut out: Vec<ArmedBuilderOrderBucket> = Vec::new();
    let mut filed = false;
    while rest.len() > 0
        invariant
            !filed ==> buckets_view(out@) + entries_insert(buckets_view(rest@), key@, order@) == target,
            filed ==> buckets_view(out@) + buckets_view(rest@) == target,
        decreases rest.len(),
    {
        let ghost before = buckets_view(rest@);
        let b = rest.remove(0);
        proof {
            assert(buckets_view(rest@) =~= before.drop_first());
            assert(before[0] == (b.key@, orders_view(b.orders@)));
        }
        let ghost k = buckets_view(out@);
        if !filed && str_eq(b.key.as_str(), key.as_str()) {
            let ArmedBuilderOrderBucket { key: bkey, orders } = b;
            let merged = insert_order(orders, order.duplicate());
            let nb = ArmedBuilderOrderBucket { key: bkey, orders: merged };
            out.push(nb);
            filed = true;
            proof {
                assert(buckets_view(out@) =~= k.push((nb.key@, orders_view(nb.orders@))));
                assert(k.push((nb.key@, orders_view(nb.orders@))) + before.drop_first()
                    =~= k + (seq![(key@, insert_by_created(before[0].1, order@))] + before.drop_first()));
            }
        } else {
            let ghost bv = (b.key@, orders_view(b.orders@));
            out.push(b);
            proof {
                assert(buckets_view(out@) =~= k.push(bv));
                if filed {
                    assert(k.push(bv) + before.drop_first() =~= k + before);
                } else {
                    assert(k.push(bv) + entries_insert(before.drop_first(), key@, order@)
                        =~= k + (seq![bv] + entries_insert(before.drop_first(), key@, order@)));
                }
            }
        }
    }
    if !filed {
        let ghost k = buckets_view(out@);
        let mut first: Vec<TradeBuilderOrder> = Vec::new();
        first.push(order.duplicate());
        let nb = ArmedBuilderOrderBucket { key, orders: first };
        out.push(nb);
        proof {
            assert(orders_view(nb.orders@) =~= seq![order@]);
            assert(buckets_view(out@) =~= k.push((nb.key@, orders_view(nb.orders@))));
            assert(buckets_view(rest@) =~= Seq::<(Seq<char>, Seq<TradeBuilderOrderView>)>::empty());
            assert(k.push((nb.key@, orders_view(nb.orders@)))
                =~= k + entries_insert(Seq::<(Seq<char>, Seq<TradeBuilderOrderView>)>::empty(), key@, order@));
        }
    } else {
        proof {
            assert(buckets_view(rest@) =~= Seq::<(Seq<char>, Seq<TradeBuilderOrderView>)>::empty());
            assert(buckets_view(out@) + buckets_view(rest@) =~= buckets_view(out@));
        }
    }
    buckets.buckets = out;
}

/// A status under which an order waits for its trigger on the fast path.
pub open spec fn spec_is_fast_path_status(status: Seq<char>) -> bool {
    status == "armed"@ || status == "triggered"@
}

fn is_fast_path_status(status: &str) -> (r: bool)
    ensures
        r == spec_is_fast_path_status(status@),
{
    str_eq(status, "armed") || str_eq(status, "triggered")
}

/// A waiting child exit sell with a price trigger.
pub open spec fn spec_is_ws_fast_path_price_child(order: &TradeBuilderOrder) -> bool {
    &&& spec_is_child_exit_sell(order)
    &&& spec_is_fast_path_status(order.status@)
    &&& order.trigger_condition is Some
    &&& order.trigger_price is Some
}

pub fn trade_builder_is_ws_fast_path_price_child(order: &TradeBuilderOrder) -> (r: bool)
    ensures
        r == spec_is_ws_fast_path_price_child(order),
{
    trade_builder_is_child_exit_sell(order)
        && is_fast_path_status(order.status.as_str())
        && order.trigger_condition.is_some()
        && order.trigger_price.is_some()
}

/// Take-profit and stop-loss children are the price children.
pub fn trade_builder_is_ws_fast_path_tp_sl_child(order: &TradeBuilderOrder) -> (r: bool)
    ensures
        r == spec_is_ws_fast_path_price_child(order),
{
    trade_builder_is_ws_fast_path_price_child(order)
}

/// A waiting child exit sell with a price-to-beat stop loss.
pub open spec fn spec_is_ws_fast_path_ptb_child(order: &TradeBuilderOrder) -> bool {
    &&& spec_is_child_exit_sell(order)
    &&& spec_is_fast_path_status(order.status@)
    &&& order.ptb_stop_loss_gap_usd is Some
}

pub fn trade_builder_is_ws_fast_path_ptb_child(order: &TradeBuilderOrder) -> (r: bool)
    ensures
        r == spec_is_ws_fast_path_ptb_child(order),
{
    trade_builder_is_child_exit_sell(order)
        && is_fast_path_status(order.status.as_str())
        && order.ptb_stop_loss_gap_usd.is_some()
}

/// The asset key of an order's market, when it is an up/down market.
pub fn trade_builder_ptb_asset_cache_key(order: &TradeBuilderOrder) -> (r: Option<String>)
    ensures
        r matches Some(a) ==> spec_updown_asset(order.market_slug@) == Some(a@),
        r is None ==> spec_updown_asset(order.market_slug@) is None,
{
    find_updown_asset(order.market_slug.as_str())
}

/// The market key of an order: its slug, trimmed and lower-cased.
pub fn trade_builder_ptb_market_slug_cache_key(order: &TradeBuilderOrder) -> (r: String)
    ensures
        r@ == lower(trim(order.market_slug@)),
{
    trimmed_lower(order.market_slug.as_str())
}

/// The three indexes of armed orders.
pub struct ArmedBuilderOrderCache {
    pub price_by_token: ArmedBuilderOrderBuckets,
    pub ptb_by_asset: ArmedBuilderOrderBuckets,
    pub ptb_by_market_slug: ArmedBuilderOrderBuckets,
}

impl ArmedBuilderOrderCache {
    /// An empty cache.
    pub fn new() -> (r: Self)
        ensures
            r.wf(),
            r.price_by_token@.len() == 0,
            r.ptb_by_asset@.len() == 0,
            r.ptb_by_market_slug@.len() == 0,
    {
        ArmedBuilderOrderCache {
            price_by_token: ArmedBuilderOrderBuckets::new(),
            ptb_by_asset: ArmedBuilderOrderBuckets::new(),
            ptb_by_market_slug: ArmedBuilderOrderBuckets::new(),
        }
    }

    pub open spec fn wf(&self) -> bool {
        self.price_by_token.wf() && self.ptb_by_asset.wf() && self.ptb_by_market_slug.wf()
    }

    /// The token ids that have armed price children (the cache's token ids).
    pub fn token_ids(&self) -> (r: Vec<String>)
        ensures
            r@.len() == self.price_by_token@.len(),
            forall|i: int| 0 <= i < r@.len() ==> #[trigger] r@[i]@ == self.price_by_token@[i].0,
    {
        self.price_by_token.keys()
    }
}

/// Removes an order from all three indexes.
pub fn remove_order_from_armed_builder_cache(cache: &mut ArmedBuilderOrderCache, order_id: i64)
    ensures
        final(cache).price_by_token@ == entries_without(old(cache).price_by_token@, order_id),
        final(cache).ptb_by_asset@ == entries_without(old(cache).ptb_by_asset@, order_id),
        final(cache).ptb_by_market_slug@ == entries_without(old(cache).ptb_by_market_slug@, order_id),
        old(cache).wf() ==> final(cache).wf(),
{
    remove_order_from_armed_builder_bucket(&mut cache.price_by_token, order_id);
    remove_order_from_armed_builder_bucket(&mut cache.ptb_by_asset, order_id);
    remove_order_from_armed_builder_bucket(&mut cache.ptb_by_market_slug, order_id);
}

/// The price index after syncing `order` into `e`.
pub open spec fn synced_price_index(e: Seq<(Seq<char>, Seq<TradeBuilderOrderView>)>, order: &TradeBuilderOrder) -> Seq<(Seq<char>, Seq<TradeBuilderOrderView>)> {
    let cleared = entries_without(e, order.id);
    if spec_is_ws_fast_path_price_child(order) {
        entries_insert(cleared, order.token_id@, order@)
    } else {
        cleared
    }
}

/// The asset index after syncing `order` into `e`.
pub open spec fn synced_asset_index(e: Seq<(Seq<char>, Seq<TradeBuilderOrderView>)>, order: &TradeBuilderOrder) -> Seq<(Seq<char>, Seq<TradeBuilderOrderView>)> {
    let cleared = entries_without(e, order.id);
    if spec_is_ws_fast_path_ptb_child(order) && spec_updown_asset(order.market_slug@) is Some {
        entries_insert(cleared, spec_updown_asset(order.market_slug@)->0, order@)
    } else {
        cleared
    }
}

/// The market index after syncing `order` into `e`.
pub open spec fn synced_market_index(e: Seq<(Seq<char>, Seq<TradeBuilderOrderView>)>, order: &TradeBuilderOrder) -> Seq<(Seq<char>, Seq<TradeBuilderOrderView>)> {
    let cleared = entries_without(e, order.id);
    if spec_is_ws_fast_path_ptb_child(order) {
        entries_insert(cleared, lower(trim(order.market_slug@)), order@)
    } else {
        cleared
    }
}

/// Brings the cache in line with the current state of one order: any entry
/// of its id goes, then it is filed by token when it is a waiting price
/// child, and by asset (for an up/down market) and by market when it is a
/// waiting price-to-beat child.
pub fn sync_armed_builder_order_cache_entry(cache: &mut ArmedBuilderOrderCache, order: TradeBuilderOrder)
    ensures
        final(cache).price_by_token@ == synced_price_index(old(cache).price_by_token@, &order),
        final(cache).ptb_by_asset@ == synced_asset_index(old(cache).ptb_by_asset@, &order),
        final(cache).ptb_by_market_slug@ == synced_market_index(old(cache).ptb_by_market_slug@, &order),
        old(cache).wf() ==> final(cache).wf(),
{
    remove_order_from_armed_builder_cache(cache, order.id);
    if trade_builder_is_ws_fast_path_price_child(&order) {
        let key = order.token_id.clone();
        push_order_into_armed_builder_bucket(&mut cache.price_by_token, key, &order);
    }
    if trade_builder_is_ws_fast_path_ptb_child(&order) {
        match trade_builder_ptb_asset_cache_key(&order) {
            Some(asset) => push_order_into_armed_builder_bucket(&mut cache.ptb_by_asset, asset, &order),
            None => {},
        }
        let market_key = trade_builder_ptb_market_slug_cache_key(&order);
        push_order_into_armed_builder_bucket(&mut cache.ptb_by_market_slug, market_key, &order);
    }
}

/// Law: syncing an order a second time replaces what the first sync filed,
/// in every index (the cache holds each order once, by its latest state).
pub proof fn law_resync_replaces(e: Seq<(Seq<char>, Seq<TradeBuilderOrderView>)>, first: &TradeBuilderOrder, second: &TradeBuilderOrder)
    requires
        first.id == second.id,
    ensures
        synced_price_index(synced_price_index(e, first), second) == synced_price_index(e, second),
        synced_asset_index(synced_asset_index(e, first), second) == synced_asset_index(e, second),
        synced_market_index(synced_market_index(e, first), second) == synced_market_index(e, second),
{
    let id = first.id;
    let cleared = entries_without(e, id);
    lemma_entries_without_idempotent(e, id);
    lemma_entries_without_insert_same(cleared, first.token_id@, first@, id);
    if spec_updown_asset(first.market_slug@) is Some {
        lemma_entries_without_insert_same(cleared, spec_updown_asset(first.market_slug@)->0, first@, id);
    }
    lemma_entries_without_insert_same(cleared, lower(trim(first.market_slug@)), first@, id);
}

/// Law: after an order is removed from the cache, no index holds it.
pub proof fn law_removed_order_absent(e: Seq<(Seq<char>, Seq<TradeBuilderOrderView>)>, id: i64, key: Seq<char>, i: int)
    requires
        entries_wf(e),
        0 <= i < entries_lookup(entries_without(e, id), key).len(),
    ensures
        entries_lookup(entries_without(e, id), key)[i].id != id,
{
    law_lookup_after_remove(e, id, key);
    lemma_without_excludes(entries_lookup(e, key), id, i);
}

proof fn lemma_without_excludes(s: Seq<TradeBuilderOrderView>, id: i64, i: int)
    requires
        0 <= i < without_order(s, id).len(),
    ensures
        without_order(s, id)[i].id != id,
    decreases s.len(),
{
    if s.len() > 0 {
        let w = without_order(s.drop_first(), id);
        if s[0].id == id {
            lemma_without_excludes(s.drop_first(), id, i);
        } else if i > 0 {
            assert((seq![s[0]] + w)[i] == w[i - 1]);
            lemma_without_excludes(s.drop_first(), id, i - 1);
        }
    }
}

/// The orders filed under the trimmed, lower-cased forms of `keys`, key by
/// key.
pub open spec fn gather(e: Seq<(Seq<char>, Seq<TradeBuilderOrderView>)>, keys: Seq<Seq<char>>) -> Seq<TradeBuilderOrderView>
    decreases keys.len(),
{
    if keys.len() == 0 {
        Seq::empty()
    } else {
        gather(e, keys.drop_last()) + entries_lookup(e, lower(trim(keys.last())))
    }
}

/// The last of `p` with the given id.
pub open spec fn last_with_id(p: Seq<TradeBuilderOrderView>, id: i64) -> Option<TradeBuilderOrderView>
    decreases p.len(),
{
    if p.len() == 0 {
        None
    } else if p.last().id == id {
        Some(p.last())
    } else {
        last_with_id(p.drop_last(), id)
    }
}

/// `r` holds one order per id met in `p`, the last met with that id.
pub open spec fn selection_of(r: Seq<TradeBuilderOrderView>, p: Seq<TradeBuilderOrderView>) -> bool {
    &&& forall|i: int, j: int| 0 <= i < j < r.len() ==> r[i].id != r[j].id
    &&& forall|i: int| 0 <= i < r.len() ==> last_with_id(p, #[trigger] r[i].id) == Some(r[i])
    &&& forall|j: int| 0 <= j < p.len() ==> exists|i: int| 0 <= i < r.len() && r[i].id == #[trigger] p[j].id
}

pub open spec fn texts_of(v: Seq<String>) -> Seq<Seq<char>> {
    v.map_values(|s: String| s@)
}

fn position_of_id(r: &Vec<TradeBuilderOrder>, id: i64) -> (k: Option<usize>)
    ensures
        k matches Some(i) ==> i < r.len() && r@[i as int].id == id,
        k is None ==> forall|i: int| 0 <= i < r.len() ==> r@[i].id != id,
{
    let mut i: usize = 0;
    while i < r.len()
        invariant
            i <= r.len(),
            forall|j: int| 0 <= j < i ==> r@[j].id != id,
        decreases r.len() - i,
    {
        if r[i].id == id {
            return Some(i);
        }
        i = i + 1;
    }
    None
}

fn select_orders_of_bucket(result: &mut Vec<TradeBuilderOrder>, bucket: &Vec<TradeBuilderOrder>, Ghost(seen): Ghost<Seq<TradeBuilderOrderView>>)
    requires
        selection_of(orders_view(old(result)@), seen),
    ensures
        selection_of(orders_view(final(result)@), seen + orders_view(bucket@)),
{
    let mut n: usize = 0;
    assert(seen + orders_view(bucket@).take(0) =~= seen);
    while n < bucket.len()
        invariant
            n <= bucket.len(),
            selection_of(orders_view(result@), seen + orders_view(bucket@).take(n as int)),
        decreases bucket.len() - n,
    {
        let ghost p = seen + orders_view(bucket@).take(n as int);
        let ghost before = orders_view(result@);
        let o = &bucket[n];
        let ghost p2 = p.push(o@);
        assert(seen + orders_view(bucket@).take(n + 1) =~= p2);
        assert(p2.drop_last() =~= p);
        assert(p2.last() == o@);
        match position_of_id(result, o.id) {
            Some(k) => {
                result.set(k, o.duplicate());
                proof {
                    let after = orders_view(result@);
                    assert(after =~= before.update(k as int, o@));
                    assert forall|i: int| 0 <= i < after.len() implies last_with_id(p2, #[trigger] after[i].id) == Some(after[i]) by {
                        if i != k {
                            assert(after[i] == before[i]);
                            assert(before[i].id != before[k as int].id);
                        }
                    }
                    assert forall|j: int| 0 <= j < p2.len() implies exists|i: int| 0 <= i < after.len() && after[i].id == #[trigger] p2[j].id by {
                        if j < p.len() {
                            assert(p2[j] == p[j]);
                            let i0 = choose|i: int| 0 <= i < before.len() && before[i].id == p[j].id;
                            assert(after[i0].id == before[i0].id);
                        } else {
                            assert(after[k as int].id == p2[j].id);
                        }
                    }
                }
            },
            None => {
                result.push(o.duplicate());
                proof {
                    let after = orders_view(result@);
                    assert(after =~= before.push(o@));
                    assert forall|i: int| 0 <= i < after.len() implies last_with_id(p2, #[trigger] after[i].id) == Some(after[i]) by {
                        if i < before.len() {
                            assert(after[i] == before[i]);
                        }
                    }
                    assert forall|j: int| 0 <= j < p2.len() implies exists|i: int| 0 <= i < after.len() && after[i].id == #[trigger] p2[j].id by {
                        if j < p.len() {
                            assert(p2[j] == p[j]);
                            let i0 = choose|i: int| 0 <= i < before.len() && before[i].id == p[j].id;
                            assert(after[i0].id == before[i0].id);
                        } else {
                            assert(after[before.len() as int].id == p2[j].id);
                        }
                    }
                }
            },
        }
        n = n + 1;
    }
    assert(orders_view(bucket@).take(bucket.len() as int) =~= orders_view(bucket@));
}

fn select_orders_for_keys(result: &mut Vec<TradeBuilderOrder>, index: &ArmedBuilderOrderBuckets, keys: &[String], Ghost(seen): Ghost<Seq<TradeBuilderOrderView>>)
    requires
        selection_of(orders_view(old(result)@), seen),
    ensures
        selection_of(orders_view(final(result)@), seen + gather(index@, texts_of(keys@))),
{
    let mut i: usize = 0;
    assert(texts_of(keys@).take(0) =~= Seq::<Seq<char>>::empty());
    assert(seen + gather(index@, Seq::<Seq<char>>::empty()) =~= seen);
    while i < keys.len()
        invariant
            i <= keys.len(),
            selection_of(orders_view(result@), seen + gather(index@, texts_of(keys@).take(i as int))),
        decreases keys.len() - i,
    {
        let ghost p = seen + gather(index@, texts_of(keys@).take(i as int));
        let key = trimmed_lower(keys[i].as_str());
        let ghost ks = texts_of(keys@).take(i + 1);
        assert(ks.drop_last() =~= texts_of(keys@).take(i as int));
        assert(ks.last() == keys@[i as int]@);
        match index.key_position(key.as_str()) {
            Some(b) => {
                select_orders_of_bucket(result, &index.buckets[b].orders, Ghost(p));
                assert(p + orders_view(index.buckets@[b as int].orders@) =~= seen + gather(index@, ks));
            },
            None => {
                assert(p + Seq::<TradeBuilderOrderView>::empty() =~= seen + gather(index@, ks));
            },
        }
        i = i + 1;
    }
    assert(texts_of(keys@).take(keys.len() as int) =~= texts_of(keys@));
}

/// What the dirty assets and market slugs select: the orders filed under
/// each asset, then those filed under each market slug.
pub open spec fn dirty_context_orders(cache: &ArmedBuilderOrderCache, dirty_assets: Seq<String>, dirty_market_slugs: Seq<String>) -> Seq<TradeBuilderOrderView> {
    gather(cache.ptb_by_asset@, texts_of(dirty_assets)) + gather(cache.ptb_by_market_slug@, texts_of(dirty_market_slugs))
}

/// The price-to-beat orders that dirty assets and market slugs select, once
/// per order id (the last entry met wins), in no promised order.
pub fn collect_armed_builder_ptb_orders_for_dirty_context(cache: &ArmedBuilderOrderCache, dirty_assets: &[String], dirty_market_slugs: &[String]) -> (r: Vec<TradeBuilderOrder>)
    ensures
        selection_of(orders_view(r@), dirty_context_orders(cache, dirty_assets@, dirty_market_slugs@)),
{
    let mut result: Vec<TradeBuilderOrder> = Vec::new();
    assert(orders_view(result@) =~= Seq::<TradeBuilderOrderView>::empty());
    select_orders_for_keys(&mut result, &cache.ptb_by_asset, dirty_assets, Ghost(Seq::empty()));
    let ghost first = Seq::<TradeBuilderOrderView>::empty() + gather(cache.ptb_by_asset@, texts_of(dirty_assets@));
    select_orders_for_keys(&mut result, &cache.ptb_by_market_slug, dirty_market_slugs, Ghost(first));
    assert(first + gather(cache.ptb_by_market_slug@, texts_of(dirty_market_slugs@))
        =~= dirty_context_orders(cache, dirty_assets@, dirty_market_slugs@));
    result
}

/// The ids of the orders whose price-to-beat evaluation says to trigger,
/// once each. `should_trigger[i]` is the evaluation of `orders[i]`.
pub fn evaluate_armed_builder_ptb_dirty_orders(orders: &[TradeBuilderOrder], should_trigger: &[bool]) -> (r: Vec<i64>)
    requires
        orders.len() == should_trigger.len(),
    ensures
        forall|i: int, j: int| 0 <= i < j < r@.len() ==> r@[i] != r@[j],
        forall|x: i64| r@.contains(x) <==> exists|i: int| 0 <= i < orders.len() && should_trigger@[i] && #[trigger] orders@[i].id == x,
{
    let mut r: Vec<i64> = Vec::new();
    let mut i: usize = 0;
    while i < orders.len()
        invariant
            i <= orders.len(),
            orders.len() == should_trigger.len(),
            forall|a: int, b: int| 0 <= a < b < r@.len() ==> r@[a] != r@[b],
            forall|x: i64| r@.contains(x) <==> exists|j: int| 0 <= j < i && should_trigger@[j] && #[trigger] orders@[j].id == x,
        decreases orders.len() - i,
    {
        if should_trigger[i] {
            let id = orders[i].id;
            let mut seen = false;
            let mut k: usize = 0;
            while k < r.len()
                invariant
                    k <= r.len(),
                    seen == exists|m: int| 0 <= m < k && r@[m] == id,
                decreases r.len() - k,
            {
                if r[k] == id {
                    seen = true;
                }
                k = k + 1;
            }
            let ghost before = r@;
            if !seen {
                r.push(id);
                proof {
                    assert forall|x: i64| r@.contains(x) <==> exists|j: int| 0 <= j < i + 1 && should_trigger@[j] && #[trigger] orders@[j].id == x by {
                        if r@.contains(x) {
                            let m = choose|m: int| 0 <= m < r@.len() && r@[m] == x;
                            if m < before.len() {
                                assert(before.contains(x));
                            }
                        }
                        if exists|j: int| 0 <= j < i + 1 && should_trigger@[j] && #[trigger] orders@[j].id == x {
                            if x != id {
                                let j = choose|j: int| 0 <= j < i + 1 && should_trigger@[j] && #[trigger] orders@[j].id == x;
                                assert(j < i);
                                assert(before.contains(x));
                                let m = choose|m: int| 0 <= m < before.len() && before[m] == x;
                                assert(r@[m] == x);
                            } else {
                                assert(r@[before.len() as int] == x);
                            }
                        }
                    }
                }
            } else {
                proof {
                    assert forall|x: i64| r@.contains(x) <==> exists|j: int| 0 <= j < i + 1 && should_trigger@[j] && #[trigger] orders@[j].id == x by {
                        if exists|j: int| 0 <= j < i + 1 && should_trigger@[j] && #[trigger] orders@[j].id == x {
                            if x == id {
                                let m = choose|m: int| 0 <= m < r@.len() && r@[m] == id;
                                assert(r@.contains(x));
                            } else {
                                let j = choose|j: int| 0 <= j < i + 1 && should_trigger@[j] && #[trigger] orders@[j].id == x;
                                assert(j < i);
                            }
                        }
                    }
                }
            }
        } else {
            proof {
                assert forall|x: i64| r@.contains(x) <==> exists|j: int| 0 <= j < i + 1 && should_trigger@[j] && #[trigger] orders@[j].id == x by {
                    if exists|j: int| 0 <= j < i + 1 && should_trigger@[j] && #[trigger] orders@[j].id == x {
                        let j = choose|j: int| 0 <= j < i + 1 && should_trigger@[j] && #[trigger] orders@[j].id == x;
                        assert(j < i);
                    }
                }
            }
        }
        i = i + 1;
    }
    r
}

/// What one websocket evaluation cycle over armed orders did.
#[derive(Debug, Clone, Copy, PartialEq, Eq, Structural)]
pub struct ArmedBuilderWsEvalActivity {
    pub selected_token_count: usize,
    pub selected_order_count: usize,
    pub evaluated_order_count: usize,
    pub last_seen_update_count: usize,
    pub triggered_order_count: usize,
    pub composite_waiting_count: usize,
    pub composite_released_count: usize,
    pub selected_source_missing_count: usize,
}

/// A cycle is logged when it triggered, held or released something, or
/// missed a price source; a cycle that only evaluated is logged when a
/// passive sample is due.
pub fn armed_builder_ws_eval_should_log(activity: ArmedBuilderWsEvalActivity, passive_sample_due: bool) -> (r: bool)
    ensures
        r == (activity.triggered_order_count > 0
            || activity.composite_waiting_count > 0
            || activity.composite_released_count > 0
            || activity.selected_source_missing_count > 0
            || (passive_sample_due && activity.evaluated_order_count > 0)),
{
    activity.triggered_order_count > 0
        || activity.composite_waiting_count > 0
        || activity.composite_released_count > 0
        || activity.selected_source_missing_count > 0
        || (passive_sample_due && activity.evaluated_order_count > 0)
}

/// Milliseconds between two passive samples of the evaluation log.
pub const ARMED_BUILDER_WS_PASSIVE_LOG_INTERVAL_MS: i64 = 10_000;

/// When the evaluation log last took a passive sample (milliseconds since
/// the epoch; zero before the first).
pub struct ArmedBuilderWsPassiveLog {
    pub last_logged_at_ms: i64,
}

impl ArmedBuilderWsPassiveLog {
    pub fn new() -> (r: Self)
        ensures
            r.last_logged_at_ms == 0,
    {
        ArmedBuilderWsPassiveLog { last_logged_at_ms: 0 }
    }

    /// A passive sample is due once the interval has passed since the last
    /// log.
    pub fn armed_builder_ws_eval_passive_sample_due(&self, now_ms: i64) -> (r: bool)
        ensures
            r == (now_ms - self.last_logged_at_ms >= ARMED_BUILDER_WS_PASSIVE_LOG_INTERVAL_MS),
    {
        let elapsed: i128 = now_ms as i128 - self.last_logged_at_ms as i128;
        elapsed >= ARMED_BUILDER_WS_PASSIVE_LOG_INTERVAL_MS as i128
    }

    /// Records a log at `now_ms`.
    pub fn mark_armed_builder_ws_eval_logged_at(&mut self, now_ms: i64)
        ensures
            final(self).last_logged_at_ms == now_ms,
    {
        self.last_logged_at_ms = now_ms;
    }
}

/// Law: right after a log no passive sample is due, and one is due again
/// once the interval has passed.
pub proof fn law_passive_sample_spacing(log: ArmedBuilderWsPassiveLog, now_ms: i64, later_ms: i64)
    requires
        log.last_logged_at_ms == now_ms,
        now_ms <= later_ms,
    ensures
        (later_ms - log.last_logged_at_ms >= ARMED_BUILDER_WS_PASSIVE_LOG_INTERVAL_MS)
            <==> later_ms >= now_ms + ARMED_BUILDER_WS_PASSIVE_LOG_INTERVAL_MS,
        !(now_ms - log.last_logged_at_ms >= ARMED_BUILDER_WS_PASSIVE_LOG_INTERVAL_MS),
{
}

} // verus!
