//! What every ladder plan keeps: the stages it targets come from the stages
//! it requested, which come from the weighted stages, in order; the stages
//! it skips are exactly the requested ones it does not target; and, when
//! rounding does not overshoot, the targets add up to the whole position.
use vstd::prelude::*;
use crate::ladder_plan::{
    weight_sum, weighted_share, requested_seq, meeting_minimum, final_targets, stage_keys, keys_except,
    keys_not_targeted, spec_ladder_plan, weights_nonneg, qty_sum, leading_share_sum,
    law_requested_quantities_cover_position,
};

verus! {

/// `a` is a subsequence of `b`: its elements occur in `b` in the same order.
pub open spec fn is_subseq(a: Seq<i64>, b: Seq<i64>) -> bool
    decreases b.len(),
{
    if a.len() == 0 {
        true
    } else if b.len() == 0 {
        false
    } else if a[0] == b[0] {
        is_subseq(a.drop_first(), b.drop_first())
    } else {
        is_subseq(a, b.drop_first())
    }
}

/// No key occurs twice.
pub open spec fn distinct_keys(s: Seq<i64>) -> bool {
    forall|i: int, j: int| 0 <= i < j < s.len() ==> s[i] != s[j]
}

proof fn lemma_subseq_trans(a: Seq<i64>, b: Seq<i64>, c: Seq<i64>)
    requires
        is_subseq(a, b),
        is_subseq(b, c),
    ensures
        is_subseq(a, c),
    decreases c.len(),
{
    if a.len() > 0 && c.len() > 0 {
        if b[0] == c[0] {
            if a[0] == b[0] {
                lemma_subseq_trans(a.drop_first(), b.drop_first(), c.drop_first());
            } else {
                lemma_subseq_trans(a, b.drop_first(), c.drop_first());
            }
        } else {
            lemma_subseq_trans(a, b, c.drop_first());
            lemma_subseq_drop_first(a, c.drop_first());
        }
    }
}

proof fn lemma_subseq_contains(a: Seq<i64>, b: Seq<i64>, x: i64)
    requires
        is_subseq(a, b),
        a.contains(x),
    ensures
        b.contains(x),
    decreases b.len(),
{
    if a.len() > 0 && b.len() > 0 {
        if a[0] == b[0] {
            if a[0] == x {
                assert(b[0] == x);
            } else {
                let i = choose|i: int| 0 <= i < a.len() && a[i] == x;
                assert(a.drop_first()[i - 1] == x);
                lemma_subseq_contains(a.drop_first(), b.drop_first(), x);
                let j = choose|j: int| 0 <= j < b.drop_first().len() && b.drop_first()[j] == x;
                assert(b[j + 1] == x);
            }
        } else {
            lemma_subseq_contains(a, b.drop_first(), x);
            let j = choose|j: int| 0 <= j < b.drop_first().len() && b.drop_first()[j] == x;
            assert(b[j + 1] == x);
        }
    }
}

proof fn lemma_subseq_distinct(a: Seq<i64>, b: Seq<i64>)
    requires
        is_subseq(a, b),
        distinct_keys(b),
    ensures
        distinct_keys(a),
    decreases b.len(),
{
    if a.len() > 0 && b.len() > 0 {
        let bt = b.drop_first();
        assert(distinct_keys(bt)) by {
            assert forall|i: int, j: int| 0 <= i < j < bt.len() implies bt[i] != bt[j] by {
                assert(bt[i] == b[i + 1] && bt[j] == b[j + 1]);
            }
        }
        if a[0] == b[0] {
            let at = a.drop_first();
            lemma_subseq_distinct(at, bt);
            assert forall|i: int, j: int| 0 <= i < j < a.len() implies a[i] != a[j] by {
                if i == 0 {
                    assert(at[j - 1] == a[j]);
                    if a[j] == a[0] {
                        assert(at.contains(a[0]));
                        lemma_subseq_contains(at, bt, a[0]);
                        let k = choose|k: int| 0 <= k < bt.len() && bt[k] == a[0];
                        assert(b[k + 1] == b[0]);
                    }
                } else {
                    assert(at[i - 1] == a[i] && at[j - 1] == a[j]);
                }
            }
        } else {
            lemma_subseq_distinct(a, bt);
        }
    }
}

proof fn lemma_subseq_refl(a: Seq<i64>)
    ensures
        is_subseq(a, a),
    decreases a.len(),
{
    if a.len() > 0 {
        lemma_subseq_refl(a.drop_first());
    }
}

proof fn lemma_subseq_skip_first(a: Seq<i64>, b: Seq<i64>)
    requires
        is_subseq(a, b.drop_first()),
        b.len() > 0,
    ensures
        is_subseq(a, b),
    decreases b.len(), a.len(),
{
    if a.len() > 0 && a[0] == b[0] {
        let bt = b.drop_first();
        // a ⊑ bt and a[0] == b[0]: a.drop_first() ⊑ bt follows from a ⊑ bt.
        lemma_subseq_drop_first(a, bt);
    }
}

proof fn lemma_subseq_drop_first(a: Seq<i64>, b: Seq<i64>)
    requires
        is_subseq(a, b),
        a.len() > 0,
    ensures
        is_subseq(a.drop_first(), b),
    decreases b.len(), a.len(),
{
    if b.len() > 0 {
        if a[0] == b[0] {
            lemma_subseq_skip_first(a.drop_first(), b);
        } else {
            lemma_subseq_drop_first(a, b.drop_first());
            lemma_subseq_skip_first(a.drop_first(), b);
        }
    }
}

proof fn lemma_requested_keys(ws: Seq<(i64, i64)>, total: int, sum: int, assigned: int)
    ensures
        is_subseq(stage_keys(requested_seq(ws, total, sum, assigned)), stage_keys(ws)),
    decreases ws.len(),
{
    if ws.len() > 0 {
        let desired = if ws.len() == 1 {
            if total - assigned > 0 { total - assigned } else { 0 }
        } else {
            weighted_share(total, ws[0].1 as int, sum)
        };
        let t = ws.drop_first();
        assert(stage_keys(ws).drop_first() =~= stage_keys(t));
        if desired <= 0 {
            lemma_requested_keys(t, total, sum, assigned);
            lemma_subseq_skip_first(stage_keys(requested_seq(t, total, sum, assigned)), stage_keys(ws));
        } else {
            lemma_requested_keys(t, total, sum, assigned + desired);
            let r = requested_seq(ws, total, sum, assigned);
            assert(stage_keys(r).drop_first() =~= stage_keys(requested_seq(t, total, sum, assigned + desired)));
            assert(stage_keys(r)[0] == stage_keys(ws)[0]);
        }
    }
}

proof fn lemma_meeting_keys(req: Seq<(i64, i64)>, m: i64)
    ensures
        is_subseq(stage_keys(meeting_minimum(req, m)), stage_keys(req)),
        forall|i: int| 0 <= i < meeting_minimum(req, m).len() ==> #[trigger] meeting_minimum(req, m)[i].1 >= m,
        qty_sum(meeting_minimum(req, m)) <= qty_sum(req) || exists|i: int| 0 <= i < req.len() && req[i].1 < 0,
    decreases req.len(),
{
    if req.len() > 0 {
        let t = req.drop_first();
        lemma_meeting_keys(t, m);
        assert(stage_keys(req).drop_first() =~= stage_keys(t));
        let k = meeting_minimum(req, m);
        if req[0].1 >= m {
            assert(stage_keys(k).drop_first() =~= stage_keys(meeting_minimum(t, m)));
            assert(k.drop_first() =~= meeting_minimum(t, m));
            assert forall|i: int| 0 <= i < k.len() implies #[trigger] k[i].1 >= m by {
                if i > 0 {
                    assert(k[i] == meeting_minimum(t, m)[i - 1]);
                }
            }
        } else {
            lemma_subseq_skip_first(stage_keys(k), stage_keys(req));
        }
        if exists|i: int| 0 <= i < t.len() && t[i].1 < 0 {
            let i = choose|i: int| 0 <= i < t.len() && t[i].1 < 0;
            assert(req[i + 1] == t[i]);
        }
    }
}

proof fn lemma_final_keys(kept: Seq<(i64, i64)>, deepest: i64, total: int, assigned: int)
    ensures
        is_subseq(stage_keys(final_targets(kept, deepest, total, assigned)), stage_keys(kept)),
    decreases kept.len(),
{
    if kept.len() > 0 {
        let desired = if kept[0].0 == deepest {
            if total - assigned > 0 { total - assigned } else { 0 }
        } else {
            kept[0].1 as int
        };
        let t = kept.drop_first();
        assert(stage_keys(kept).drop_first() =~= stage_keys(t));
        if desired <= 0 {
            lemma_final_keys(t, deepest, total, assigned);
            lemma_subseq_skip_first(stage_keys(final_targets(t, deepest, total, assigned)), stage_keys(kept));
        } else {
            lemma_final_keys(t, deepest, total, assigned + desired);
            let r = final_targets(kept, deepest, total, assigned);
            assert(stage_keys(r).drop_first() =~= stage_keys(final_targets(t, deepest, total, assigned + desired)));
            assert(stage_keys(r)[0] == stage_keys(kept)[0]);
        }
    }
}

proof fn lemma_except_is_not_targeted(req: Seq<(i64, i64)>, k: i64, q: i64)
    ensures
        keys_except(req, k) == keys_not_targeted(req, seq![(k, q)]),
    decreases req.len(),
{
    if req.len() > 0 {
        lemma_except_is_not_targeted(req.drop_first(), k, q);
        assert(stage_keys(seq![(k, q)]) =~= seq![k]);
        if req[0].0 == k {
            assert(stage_keys(seq![(k, q)]).contains(req[0].0)) by {
                assert(stage_keys(seq![(k, q)])[0] == k);
            }
        } else {
            assert(!stage_keys(seq![(k, q)]).contains(req[0].0));
        }
    }
}

proof fn lemma_all_not_targeted(req: Seq<(i64, i64)>)
    ensures
        stage_keys(req) == keys_not_targeted(req, Seq::<(i64, i64)>::empty()),
    decreases req.len(),
{
    if req.len() > 0 {
        lemma_all_not_targeted(req.drop_first());
        assert(stage_keys(Seq::<(i64, i64)>::empty()) =~= Seq::<i64>::empty());
        assert(stage_keys(req) =~= seq![req[0].0] + stage_keys(req.drop_first()));
    }
}

/// Law: the keys a plan targets occur, in order, among the keys it
/// requested, which occur, in order, among the weighted stages' keys; the
/// keys it skips are the requested keys it does not target, in order; a
/// plan that consolidates skipped something; and an empty position, no
/// stage or no positive weight sum gives the empty plan.
pub proof fn law_ladder_plan_keys(ws: Seq<(i64, i64)>, qty: i64, min_size: Option<i64>)
    ensures
        ({
            let p = spec_ladder_plan(ws, qty, min_size);
            &&& is_subseq(stage_keys(p.targets), stage_keys(p.requested_targets))
            &&& is_subseq(stage_keys(p.requested_targets), stage_keys(ws))
            &&& p.skipped_keys == keys_not_targeted(p.requested_targets, p.targets)
            &&& (qty <= 0 || ws.len() == 0 || weight_sum(ws) <= 0) ==>
                p.requested_targets.len() == 0 && p.targets.len() == 0 && p.skipped_keys.len() == 0 && p.consolidation_target is None
        }),
{
    let p = spec_ladder_plan(ws, qty, min_size);
    let total: int = if qty > 0 { qty as int } else { 0 };
    let sum = weight_sum(ws);
    lemma_subseq_refl(Seq::<i64>::empty());
    lemma_all_not_targeted(Seq::<(i64, i64)>::empty());
    assert(stage_keys(Seq::<(i64, i64)>::empty()) =~= Seq::<i64>::empty());
    if !(total <= 0 || ws.len() == 0 || sum <= 0) {
        let req = requested_seq(ws, total, sum, 0);
        lemma_requested_keys(ws, total, sum, 0);
        match min_size {
            Some(m) if m > 0 => {
                let kept = meeting_minimum(req, m);
                lemma_meeting_keys(req, m);
                if kept.len() == 0 {
                    if total < m {
                        lemma_all_not_targeted(req);
                    } else if req.len() > 0 {
                        let k = req.last().0;
                        lemma_except_is_not_targeted(req, k, total as i64);
                        assert(stage_keys(seq![(k, total as i64)]) =~= seq![k]);
                        assert(stage_keys(req).last() == k);
                        lemma_last_subseq(stage_keys(req));
                    }
                } else {
                    let deepest = kept.last().0;
                    lemma_final_keys(kept, deepest, total, 0);
                    lemma_subseq_trans(stage_keys(final_targets(kept, deepest, total, 0)), stage_keys(kept), stage_keys(req));
                }
            },
            _ => {
                lemma_subseq_refl(stage_keys(req));
                lemma_all_not_targeted(req);
                lemma_nothing_untargeted(req);
            },
        }
    }
}

proof fn lemma_last_subseq(s: Seq<i64>)
    requires
        s.len() > 0,
    ensures
        is_subseq(seq![s.last()], s),
    decreases s.len(),
{
    if s.len() == 1 {
        assert(seq![s.last()].drop_first() =~= Seq::<i64>::empty());
        assert(s[0] == s.last());
        assert(seq![s.last()][0] == s[0]);
        assert(is_subseq(seq![s.last()].drop_first(), s.drop_first()));
    } else {
        assert(s.drop_first().last() == s.last());
        lemma_last_subseq(s.drop_first());
        lemma_subseq_skip_first(seq![s.last()], s);
    }
}

proof fn lemma_nothing_untargeted(req: Seq<(i64, i64)>)
    ensures
        keys_not_targeted(req, req) == Seq::<i64>::empty(),
{
    assert forall|i: int| 0 <= i < req.len() implies stage_keys(req).contains(#[trigger] req[i].0) by {
        assert(stage_keys(req)[i] == req[i].0);
    }
    lemma_nothing_untargeted_from(req, req);
}

proof fn lemma_nothing_untargeted_from(req: Seq<(i64, i64)>, all: Seq<(i64, i64)>)
    requires
        forall|i: int| 0 <= i < req.len() ==> stage_keys(all).contains(#[trigger] req[i].0),
    ensures
        keys_not_targeted(req, all) == Seq::<i64>::empty(),
    decreases req.len(),
{
    if req.len() > 0 {
        let t = req.drop_first();
        assert forall|i: int| 0 <= i < t.len() implies stage_keys(all).contains(#[trigger] t[i].0) by {
            assert(t[i] == req[i + 1]);
        }
        assert(stage_keys(all).contains(req[0].0));
        lemma_nothing_untargeted_from(t, all);
    }
}

proof fn lemma_qty_sum_last(s: Seq<(i64, i64)>)
    requires
        s.len() > 0,
    ensures
        qty_sum(s) == qty_sum(s.drop_last()) + s.last().1,
    decreases s.len(),
{
    if s.len() > 1 {
        lemma_qty_sum_last(s.drop_first());
        assert(s.drop_first().drop_last() =~= s.drop_last().drop_first());
        assert(s.drop_first().last() == s.last());
        assert(s.drop_last()[0] == s[0]);
        assert(qty_sum(s.drop_last()) == s.drop_last()[0].1 + qty_sum(s.drop_last().drop_first()));
        assert(qty_sum(s) == s[0].1 + qty_sum(s.drop_first()));
    } else {
        assert(s.drop_first().len() == 0);
        assert(s.drop_last().len() == 0);
        assert(qty_sum(s.drop_first()) == 0);
        assert(qty_sum(s.drop_last()) == 0);
        assert(qty_sum(s) == s[0].1 + qty_sum(s.drop_first()));
    }
}

proof fn lemma_requested_positive(ws: Seq<(i64, i64)>, total: int, sum: int, assigned: int)
    requires
        weights_nonneg(ws),
        forall|i: int| 0 <= i < ws.len() ==> ws[i].1 <= sum,
        0 < total <= 0x7fff_ffff_ffff_ffff,
        sum > 0,
        assigned >= 0,
    ensures
        forall|i: int| 0 <= i < requested_seq(ws, total, sum, assigned).len() ==> #[trigger] requested_seq(ws, total, sum, assigned)[i].1 > 0,
    decreases ws.len(),
{
    if ws.len() > 0 {
        let t = ws.drop_first();
        assert forall|i: int| 0 <= i < t.len() implies t[i].1 >= 0 && t[i].1 <= sum by {
            assert(t[i] == ws[i + 1]);
        }
        let desired = if ws.len() == 1 {
            if total - assigned > 0 { total - assigned } else { 0 }
        } else {
            weighted_share(total, ws[0].1 as int, sum)
        };
        if ws.len() > 1 {
            crate::ladder_plan::lemma_weighted_share_bounds(total, ws[0].1 as int, sum);
        }
        if desired <= 0 {
            lemma_requested_positive(t, total, sum, assigned);
        } else {
            lemma_requested_positive(t, total, sum, assigned + desired);
            let r = requested_seq(ws, total, sum, assigned);
            assert forall|i: int| 0 <= i < r.len() implies #[trigger] r[i].1 > 0 by {
                if i > 0 {
                    assert(r[i] == requested_seq(t, total, sum, assigned + desired)[i - 1]);
                }
            }
        }
    }
}

proof fn lemma_final_sum(kept: Seq<(i64, i64)>, deepest: i64, total: int, assigned: int)
    requires
        kept.len() > 0,
        kept.last().0 == deepest,
        distinct_keys(stage_keys(kept)),
        forall|i: int| 0 <= i < kept.len() ==> #[trigger] kept[i].1 > 0,
        assigned >= 0,
        assigned + qty_sum(kept.drop_last()) <= total,
        total <= 0x7fff_ffff_ffff_ffff,
    ensures
        qty_sum(final_targets(kept, deepest, total, assigned)) + assigned == total,
        forall|i: int| 0 <= i < final_targets(kept, deepest, total, assigned).len() ==> #[trigger] final_targets(kept, deepest, total, assigned)[i].1 > 0,
    decreases kept.len(),
{
    let t = kept.drop_first();
    if kept.len() == 1 {
        assert(kept[0].0 == deepest);
        assert(kept.drop_last().len() == 0);
        assert(t.len() == 0);
        let desired = if total - assigned > 0 { total - assigned } else { 0 };
        assert(qty_sum(kept.drop_last()) == 0);
        assert(final_targets(t, deepest, total, assigned + desired) =~= Seq::<(i64, i64)>::empty());
        assert(final_targets(t, deepest, total, assigned) =~= Seq::<(i64, i64)>::empty());
        let r = final_targets(kept, deepest, total, assigned);
        if desired > 0 {
            assert(r =~= seq![(deepest, desired as i64)]);
            assert(r.drop_first() =~= Seq::<(i64, i64)>::empty());
            assert(qty_sum(r.drop_first()) == 0);
            assert(qty_sum(r) == r[0].1 + qty_sum(r.drop_first()));
        } else {
            assert(r.len() == 0);
        }
    } else {
        assert(stage_keys(kept)[0] == kept[0].0);
        assert(stage_keys(kept)[kept.len() - 1] == kept.last().0);
        assert(kept[0].0 != deepest);
        assert(distinct_keys(stage_keys(t))) by {
            assert forall|i: int, j: int| 0 <= i < j < stage_keys(t).len() implies stage_keys(t)[i] != stage_keys(t)[j] by {
                assert(stage_keys(t)[i] == stage_keys(kept)[i + 1]);
                assert(stage_keys(t)[j] == stage_keys(kept)[j + 1]);
            }
        }
        assert forall|i: int| 0 <= i < t.len() implies #[trigger] t[i].1 > 0 by {
            assert(t[i] == kept[i + 1]);
        }
        assert(t.last() == kept.last());
        assert(kept.drop_last().drop_first() =~= t.drop_last());
        assert(kept.drop_last()[0] == kept[0]);
        assert(qty_sum(kept.drop_last()) == kept[0].1 + qty_sum(t.drop_last()));
        lemma_final_sum(t, deepest, total, assigned + kept[0].1);
        let r = final_targets(kept, deepest, total, assigned);
        let rt = final_targets(t, deepest, total, assigned + kept[0].1);
        assert(r =~= seq![(kept[0].0, kept[0].1)] + rt);
        assert(r.drop_first() =~= rt);
        assert(qty_sum(r) == r[0].1 + qty_sum(r.drop_first()));
        assert forall|i: int| 0 <= i < r.len() implies #[trigger] r[i].1 > 0 by {
            if i > 0 {
                assert(r[i] == rt[i - 1]);
            }
        }
    }
}

/// Law: when rounding the stages before the last does not ask for more
/// than the position, a plan that targets anything targets the whole
/// position, every target is positive, and against a minimum order size
/// every target meets it. Stage keys are taken to be distinct and weights
/// not negative.
pub proof fn law_ladder_targets_cover_position(ws: Seq<(i64, i64)>, qty: i64, min_size: Option<i64>)
    requires
        weights_nonneg(ws),
        distinct_keys(stage_keys(ws)),
        ws.len() > 0,
        qty > 0,
        weight_sum(ws) > 0,
        qty >= leading_share_sum(ws, qty as int, weight_sum(ws)),
    ensures
        ({
            let p = spec_ladder_plan(ws, qty, min_size);
            &&& p.targets.len() > 0 ==> qty_sum(p.targets) == qty
            &&& forall|i: int| 0 <= i < p.targets.len() ==> #[trigger] p.targets[i].1 > 0
            &&& (min_size matches Some(m) && m > 0) ==> forall|i: int| 0 <= i < p.targets.len() ==> #[trigger] p.targets[i].1 >= min_size->0
            &&& p.consolidation_target is Some ==> p.skipped_keys.len() > 0
        }),
{
    let total = qty as int;
    let sum = weight_sum(ws);
    let req = requested_seq(ws, total, sum, 0);
    crate::ladder_plan::lemma_weight_sum_bounds(ws);
    law_requested_quantities_cover_position(ws, qty, min_size);
    lemma_requested_positive(ws, total, sum, 0);
    lemma_requested_keys(ws, total, sum, 0);
    assert(qty_sum(req) == total);
    let p = spec_ladder_plan(ws, qty, min_size);
    match min_size {
        Some(m) if m > 0 => {
            let kept = meeting_minimum(req, m);
            lemma_meeting_keys(req, m);
            if kept.len() == 0 {
                if total >= m && req.len() > 0 {
                    let k = req.last().0;
                    if req.len() == 1 {
                        assert(req.drop_first().len() == 0);
                        assert(qty_sum(req) == req[0].1 + qty_sum(req.drop_first()));
                        assert(meeting_minimum(req.drop_first(), m).len() == 0);
                        assert(req[0].1 < m);
                    }
                    assert(req.len() >= 2);
                    lemma_subseq_distinct(stage_keys(req), stage_keys(ws));
                    assert(stage_keys(req)[0] == req[0].0);
                    assert(stage_keys(req)[req.len() - 1] == k);
                    assert(req[0].0 != k);
                    assert(keys_except(req, k).len() > 0);
                    assert(p.targets =~= seq![(k, total as i64)]);
                    assert(p.targets.drop_first() =~= Seq::<(i64, i64)>::empty());
                    assert(qty_sum(p.targets.drop_first()) == 0);
                    assert(qty_sum(p.targets) == p.targets[0].1 + qty_sum(p.targets.drop_first()));
                }
            } else {
                assert(!(exists|i: int| 0 <= i < req.len() && req[i].1 < 0));
                lemma_subseq_trans(stage_keys(kept), stage_keys(req), stage_keys(ws));
                lemma_subseq_distinct(stage_keys(kept), stage_keys(ws));
                assert forall|i: int| 0 <= i < kept.len() implies #[trigger] kept[i].1 > 0 by {
                    assert(kept[i].1 >= m);
                }
                lemma_qty_sum_last(kept);
                lemma_final_sum(kept, kept.last().0, total, 0);
                lemma_final_at_least(kept, kept.last().0, total, 0, m);
            }
        },
        _ => {},
    }
}

proof fn lemma_final_at_least(kept: Seq<(i64, i64)>, deepest: i64, total: int, assigned: int, m: i64)
    requires
        kept.len() > 0,
        kept.last().0 == deepest,
        distinct_keys(stage_keys(kept)),
        forall|i: int| 0 <= i < kept.len() ==> #[trigger] kept[i].1 >= m,
        m > 0,
        assigned >= 0,
        assigned + qty_sum(kept) <= total,
        total <= 0x7fff_ffff_ffff_ffff,
    ensures
        forall|i: int| 0 <= i < final_targets(kept, deepest, total, assigned).len() ==> #[trigger] final_targets(kept, deepest, total, assigned)[i].1 >= m,
    decreases kept.len(),
{
    let t = kept.drop_first();
    if kept.len() == 1 {
        assert(kept[0].0 == deepest);
        assert(t.len() == 0);
        assert(qty_sum(kept) == kept[0].1 + qty_sum(t));
        let desired = if total - assigned > 0 { total - assigned } else { 0 };
        assert(qty_sum(t) == 0);
        assert(desired >= m);
        assert(final_targets(t, deepest, total, assigned + desired) =~= Seq::<(i64, i64)>::empty());
        let r = final_targets(kept, deepest, total, assigned);
        assert(r =~= seq![(deepest, desired as i64)]);
    } else {
        assert(stage_keys(kept)[0] == kept[0].0);
        assert(stage_keys(kept)[kept.len() - 1] == kept.last().0);
        assert(kept[0].0 != deepest);
        assert(distinct_keys(stage_keys(t))) by {
            assert forall|i: int, j: int| 0 <= i < j < stage_keys(t).len() implies stage_keys(t)[i] != stage_keys(t)[j] by {
                assert(stage_keys(t)[i] == stage_keys(kept)[i + 1]);
                assert(stage_keys(t)[j] == stage_keys(kept)[j + 1]);
            }
        }
        assert forall|i: int| 0 <= i < t.len() implies #[trigger] t[i].1 >= m by {
            assert(t[i] == kept[i + 1]);
        }
        assert(t.last() == kept.last());
        assert(kept[0].1 >= m);
        lemma_final_at_least(t, deepest, total, assigned + kept[0].1, m);
        let r = final_targets(kept, deepest, total, assigned);
        let rt = final_targets(t, deepest, total, assigned + kept[0].1);
        assert(r =~= seq![(kept[0].0, kept[0].1)] + rt);
        assert forall|i: int| 0 <= i < r.len() implies #[trigger] r[i].1 >= m by {
            if i > 0 {
                assert(r[i] == rt[i - 1]);
            }
        }
    }
}

} // verus!
