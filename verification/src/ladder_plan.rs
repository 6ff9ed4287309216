//! How a position is split across the stages of an exit ladder.
//!
//! Share quantities are whole hundredths of a share (orders are sized to
//! two decimals); stage weights are in millionths of a
//! percent. Each stage but the last gets its weight's share of the position,
//! rounded half away from zero; the last stage gets what is left, so that
//! rounding never leaves shares unsold. Against an exchange minimum order
//! size, stages below the minimum are dropped and their quantity goes to the
//! deepest stage that meets it.
use vstd::prelude::*;
use crate::order::{TradeBuilderOrder, TradeBuilderPriceExitRule};

verus! {

/// A stage with its quantity, or a stage with its weight: `(key, amount)`.
pub open spec fn weight_sum(ws: Seq<(i64, i64)>) -> int
    decreases ws.len(),
{
    if ws.len() == 0 {
        0
    } else {
        ws[0].1 + weight_sum(ws.drop_first())
    }
}

/// `total * weight / sum`, rounded half away from zero; nothing for a share
/// that is not positive.
pub open spec fn weighted_share(total: int, weight: int, sum: int) -> int {
    let a = total * weight;
    if a <= 0 {
        0
    } else {
        a / sum + if 2 * (a % sum) >= sum { 1int } else { 0int }
    }
}

/// The requested stage quantities: every stage but the last by weight, the
/// last by remainder after `assigned`; stages left with nothing are dropped.
pub open spec fn requested_seq(ws: Seq<(i64, i64)>, total: int, sum: int, assigned: int) -> Seq<(i64, i64)>
    decreases ws.len(),
{
    if ws.len() == 0 {
        Seq::empty()
    } else {
        let desired = if ws.len() == 1 {
            if total - assigned > 0 { total - assigned } else { 0 }
        } else {
            weighted_share(total, ws[0].1 as int, sum)
        };
        if desired <= 0 {
            requested_seq(ws.drop_first(), total, sum, assigned)
        } else {
            seq![(ws[0].0, desired as i64)] + requested_seq(ws.drop_first(), total, sum, assigned + desired)
        }
    }
}

/// The stages whose quantity meets the minimum.
pub open spec fn meeting_minimum(req: Seq<(i64, i64)>, min: i64) -> Seq<(i64, i64)>
    decreases req.len(),
{
    if req.len() == 0 {
        req
    } else if req[0].1 >= min {
        seq![req[0]] + meeting_minimum(req.drop_first(), min)
    } else {
        meeting_minimum(req.drop_first(), min)
    }
}

/// The kept stages with their final quantities: the deepest one takes the
/// remainder after `assigned`, the others keep their request.
pub open spec fn final_targets(kept: Seq<(i64, i64)>, deepest: i64, total: int, assigned: int) -> Seq<(i64, i64)>
    decreases kept.len(),
{
    if kept.len() == 0 {
        kept
    } else {
        let desired = if kept[0].0 == deepest {
            if total - assigned > 0 { total - assigned } else { 0 }
        } else {
            kept[0].1 as int
        };
        if desired <= 0 {
            final_targets(kept.drop_first(), deepest, total, assigned)
        } else {
            seq![(kept[0].0, desired as i64)] + final_targets(kept.drop_first(), deepest, total, assigned + desired)
        }
    }
}

/// The keys of a sequence of stages.
pub open spec fn stage_keys(s: Seq<(i64, i64)>) -> Seq<i64> {
    s.map_values(|t: (i64, i64)| t.0)
}

/// The keys of `req` that are not `key`.
pub open spec fn keys_except(req: Seq<(i64, i64)>, key: i64) -> Seq<i64>
    decreases req.len(),
{
    if req.len() == 0 {
        Seq::empty()
    } else if req[0].0 == key {
        keys_except(req.drop_first(), key)
    } else {
        seq![req[0].0] + keys_except(req.drop_first(), key)
    }
}

/// The keys of `req` that no target has.
pub open spec fn keys_not_targeted(req: Seq<(i64, i64)>, targets: Seq<(i64, i64)>) -> Seq<i64>
    decreases req.len(),
{
    if req.len() == 0 {
        Seq::empty()
    } else if stage_keys(targets).contains(req[0].0) {
        keys_not_targeted(req.drop_first(), targets)
    } else {
        seq![req[0].0] + keys_not_targeted(req.drop_first(), targets)
    }
}

/// A plan: what each stage asked for, what each stage gets, the stages
/// dropped, and the stage that took over their quantity.
pub struct LadderPlanView {
    pub requested_targets: Seq<(i64, i64)>,
    pub targets: Seq<(i64, i64)>,
    pub skipped_keys: Seq<i64>,
    pub consolidation_target: Option<i64>,
}

pub open spec fn empty_plan() -> LadderPlanView {
    LadderPlanView {
        requested_targets: Seq::empty(),
        targets: Seq::empty(),
        skipped_keys: Seq::empty(),
        consolidation_target: None,
    }
}

/// The plan for a position of `qty` hundredths of a share over weighted
/// stages, against an optional minimum order size (a minimum that is not
/// positive counts as none).
pub open spec fn spec_ladder_plan(ws: Seq<(i64, i64)>, qty: i64, min_size: Option<i64>) -> LadderPlanView {
    let total: int = if qty > 0 { qty as int } else { 0 };
    let sum = weight_sum(ws);
    if total <= 0 || ws.len() == 0 || sum <= 0 {
        empty_plan()
    } else {
        let req = requested_seq(ws, total, sum, 0);
        match min_size {
            Some(m) if m > 0 => {
                let kept = meeting_minimum(req, m);
                if kept.len() == 0 {
                    if total < m {
                        LadderPlanView { requested_targets: req, targets: Seq::empty(), skipped_keys: stage_keys(req), consolidation_target: None }
                    } else if req.len() == 0 {
                        LadderPlanView { requested_targets: req, targets: Seq::empty(), skipped_keys: Seq::empty(), consolidation_target: None }
                    } else {
                        let k = req.last().0;
                        LadderPlanView { requested_targets: req, targets: seq![(k, total as i64)], skipped_keys: keys_except(req, k), consolidation_target: Some(k) }
                    }
                } else {
                    let deepest = kept.last().0;
                    let t = final_targets(kept, deepest, total, 0);
                    let sk = keys_not_targeted(req, t);
                    LadderPlanView { requested_targets: req, targets: t, skipped_keys: sk, consolidation_target: if sk.len() > 0 { Some(deepest) } else { None } }
                }
            },
            _ => LadderPlanView { requested_targets: req, targets: req, skipped_keys: Seq::empty(), consolidation_target: None },
        }
    }
}

/// Every weight is non-negative.
pub open spec fn weights_nonneg(ws: Seq<(i64, i64)>) -> bool {
    forall|i: int| 0 <= i < ws.len() ==> ws[i].1 >= 0
}

pub proof fn lemma_weight_sum_bounds(ws: Seq<(i64, i64)>)
    requires
        weights_nonneg(ws),
    ensures
        weight_sum(ws) >= 0,
        forall|i: int| 0 <= i < ws.len() ==> ws[i].1 <= weight_sum(ws),
        weight_sum(ws) <= ws.len() * 0x7fff_ffff_ffff_ffff,
    decreases ws.len(),
{
    if ws.len() > 0 {
        let t = ws.drop_first();
        assert forall|i: int| 0 <= i < t.len() implies t[i].1 >= 0 by {
            assert(t[i] == ws[i + 1]);
        }
        lemma_weight_sum_bounds(t);
        assert forall|i: int| 0 <= i < ws.len() implies ws[i].1 <= weight_sum(ws) by {
            if i > 0 {
                assert(t[i - 1] == ws[i]);
            }
        }
    }
}

/// A share of the position by a weight no larger than the sum is no larger
/// than the position.
pub proof fn lemma_weighted_share_bounds(total: int, w: int, sum: int)
    requires
        total >= 0,
        0 <= w <= sum,
        sum > 0,
    ensures
        0 <= weighted_share(total, w, sum) <= total,
{
    let a = total * w;
    if a > 0 {
        assert(a <= total * sum) by (nonlinear_arith)
            requires total >= 0, w <= sum, a == total * w;
        let q = a / sum;
        let r = a % sum;
        assert(a == q * sum + r && 0 <= r < sum) by (nonlinear_arith)
            requires sum > 0, q == a / sum, r == a % sum;
        if q >= total {
            assert(q * sum >= total * sum) by (nonlinear_arith)
                requires q >= total, sum > 0;
            assert(r == 0);
            assert(q == total) by (nonlinear_arith)
                requires q * sum + r == a, a <= total * sum, q >= total, r == 0, sum > 0;
        } else {
            assert(q <= total - 1);
        }
    }
}

/// A plan, as the exit logic uses it.
pub struct TradeBuilderLadderTargetPlan {
    pub requested_targets: Vec<(i64, i64)>,
    pub targets: Vec<(i64, i64)>,
    pub skipped_keys: Vec<i64>,
    pub consolidation_target: Option<i64>,
}

impl View for TradeBuilderLadderTargetPlan {
    type V = LadderPlanView;

    open spec fn view(&self) -> LadderPlanView {
        LadderPlanView {
            requested_targets: self.requested_targets@,
            targets: self.targets@,
            skipped_keys: self.skipped_keys@,
            consolidation_target: self.consolidation_target,
        }
    }
}

fn no_plan() -> (r: TradeBuilderLadderTargetPlan)
    ensures
        r@ == empty_plan(),
{
    TradeBuilderLadderTargetPlan {
        requested_targets: Vec::new(),
        targets: Vec::new(),
        skipped_keys: Vec::new(),
        consolidation_target: None,
    }
}

proof fn lemma_weight_sum_magnitude(ws: Seq<(i64, i64)>)
    ensures
        -(ws.len() * 0x8000_0000_0000_0000) <= weight_sum(ws) <= ws.len() * 0x7fff_ffff_ffff_ffff,
    decreases ws.len(),
{
    if ws.len() > 0 {
        lemma_weight_sum_magnitude(ws.drop_first());
    }
}

fn sum_weights(ws: &[(i64, i64)]) -> (r: i128)
    ensures
        r == weight_sum(ws@),
{
    let mut sum: i128 = 0;
    let mut i: usize = 0;
    assert(ws@.skip(0) =~= ws@);
    while i < ws.len()
        invariant
            i <= ws.len(),
            sum + weight_sum(ws@.skip(i as int)) == weight_sum(ws@),
            -(i * 0x8000_0000_0000_0000) <= sum <= i * 0x7fff_ffff_ffff_ffff,
        decreases ws.len() - i,
    {
        proof {
            let t = ws@.skip(i as int);
            assert(t.drop_first() =~= ws@.skip(i + 1));
            assert(t[0] == ws@[i as int]);
            assert(i + 1 <= 0xffff_ffff_ffff_ffff);
            assert((i + 1) * 0x8000_0000_0000_0000 <= 0x8000_0000_0000_0000_0000_0000_0000_0000 - 0x8000_0000_0000_0000) by (nonlinear_arith)
                requires i + 1 <= 0xffff_ffff_ffff_ffff;
        }
        sum = sum + ws[i].1 as i128;
        i = i + 1;
    }
    assert(ws@.skip(i as int).len() == 0);
    sum
}

fn share_of(total: i64, w: i64, sum: i128) -> (r: i128)
    requires
        total >= 0,
        sum > 0,
    ensures
        r == weighted_share(total as int, w as int, sum as int),
        0 <= r <= 0x4000_0000_0000_0000_0000_0000_0000_0001,
        0 <= w <= sum ==> r <= total,
{
    proof {
        if 0 <= w <= sum {
            lemma_weighted_share_bounds(total as int, w as int, sum as int);
        }
    }
    assert(-0x4000_0000_0000_0000_0000_0000_0000_0000 <= total as i128 * w as i128 <= 0x4000_0000_0000_0000_0000_0000_0000_0000) by (nonlinear_arith)
        requires 0 <= total <= 0x7fff_ffff_ffff_ffff, -0x8000_0000_0000_0000 <= w <= 0x7fff_ffff_ffff_ffff;
    let a: i128 = total as i128 * w as i128;
    if a <= 0 {
        return 0;
    }
    let q: i128 = a / sum;
    let rem: i128 = a % sum;
    assert(0 <= q <= a) by (nonlinear_arith) requires a > 0, sum > 0, q == a / sum;
    let up: i128 = if rem >= sum - rem { 1 } else { 0 };
    q + up
}

/// Every stage's share of a position of `total` fits an `i64` (always so
/// when no weight is negative).
pub open spec fn shares_fit(ws: Seq<(i64, i64)>, total: int) -> bool {
    forall|i: int| 0 <= i < ws.len() ==> weighted_share(total, #[trigger] ws[i].1 as int, weight_sum(ws)) <= 0x7fff_ffff_ffff_ffff
}

/// With no negative weight, every share fits.
pub proof fn lemma_nonneg_shares_fit(ws: Seq<(i64, i64)>, total: int)
    requires
        weights_nonneg(ws),
        0 <= total <= 0x7fff_ffff_ffff_ffff,
    ensures
        shares_fit(ws, total),
{
    lemma_weight_sum_bounds(ws);
    assert forall|i: int| 0 <= i < ws.len() implies weighted_share(total, #[trigger] ws[i].1 as int, weight_sum(ws)) <= 0x7fff_ffff_ffff_ffff by {
        if weight_sum(ws) > 0 {
            lemma_weighted_share_bounds(total, ws[i].1 as int, weight_sum(ws));
        } else {
            assert(ws[i].1 == 0);
            assert(total * 0 == 0) by (nonlinear_arith);
        }
    }
}

fn requested_targets_of(ws: &[(i64, i64)], total: i64, sum: i128) -> (r: Vec<(i64, i64)>)
    requires
        total > 0,
        sum == weight_sum(ws@),
        sum > 0,
        shares_fit(ws@, total as int),
    ensures
        r@ == requested_seq(ws@, total as int, sum as int, 0),
        forall|i: int| 0 <= i < r@.len() ==> 0 < #[trigger] r@[i].1,
{
    let ghost full = requested_seq(ws@, total as int, sum as int, 0);
    let mut out: Vec<(i64, i64)> = Vec::new();
    let mut assigned: i128 = 0;
    let ghost mut assigned_g: int = 0;
    let mut i: usize = 0;
    assert(ws@.skip(0) =~= ws@);
    while i < ws.len()
        invariant
            i <= ws.len(),
            total > 0,
            sum == weight_sum(ws@),
            sum > 0,
            shares_fit(ws@, total as int),
            assigned_g >= 0,
            assigned == (if assigned_g < total { assigned_g } else { total as int }),
            out@ + requested_seq(ws@.skip(i as int), total as int, sum as int, assigned_g) == full,
            forall|j: int| 0 <= j < out@.len() ==> 0 < #[trigger] out@[j].1,
        decreases ws.len() - i,
    {
        let ghost t = ws@.skip(i as int);
        proof {
            assert(t.drop_first() =~= ws@.skip(i + 1));
            assert(t[0] == ws@[i as int]);
        }
        let (key, w) = ws[i];
        let desired: i64 = if i + 1 == ws.len() {
            if (total as i128) - assigned > 0 { ((total as i128) - assigned) as i64 } else { 0 }
        } else {
            proof { assert(weighted_share(total as int, ws@[i as int].1 as int, weight_sum(ws@)) <= 0x7fff_ffff_ffff_ffff); }
            share_of(total, w, sum) as i64
        };
        proof {
            if i + 1 == ws.len() {
                assert(t.len() == 1);
            } else {
                assert(t.len() > 1);
            }
        }
        if desired > 0 {
            let ghost before = out@;
            out.push((key, desired));
            proof {
                assert(out@ + requested_seq(t.drop_first(), total as int, sum as int, assigned_g + desired)
                    =~= before + (seq![(key, desired)] + requested_seq(t.drop_first(), total as int, sum as int, assigned_g + desired)));
                assigned_g = assigned_g + desired;
            }
            let next: i128 = assigned + desired as i128;
            assigned = if next < total as i128 { next } else { total as i128 };
        }
        i = i + 1;
    }
    proof {
        assert(ws@.skip(i as int).len() == 0);
        assert(out@ + Seq::<(i64, i64)>::empty() =~= out@);
    }
    out
}

fn copy_stages(v: &Vec<(i64, i64)>) -> (r: Vec<(i64, i64)>)
    ensures
        r@ == v@,
{
    let mut out: Vec<(i64, i64)> = Vec::new();
    let mut i: usize = 0;
    while i < v.len()
        invariant
            i <= v.len(),
            out@ == v@.take(i as int),
        decreases v.len() - i,
    {
        out.push(v[i]);
        assert(v@.take(i + 1) =~= v@.take(i as int).push(v@[i as int]));
        i = i + 1;
    }
    assert(v@.take(v.len() as int) =~= v@);
    out
}

fn meeting_minimum_of(req: &Vec<(i64, i64)>, min: i64) -> (r: Vec<(i64, i64)>)
    ensures
        r@ == meeting_minimum(req@, min),
{
    let mut out: Vec<(i64, i64)> = Vec::new();
    let mut i: usize = 0;
    assert(req@.skip(0) =~= req@);
    while i < req.len()
        invariant
            i <= req.len(),
            out@ + meeting_minimum(req@.skip(i as int), min) == meeting_minimum(req@, min),
        decreases req.len() - i,
    {
        let ghost t = req@.skip(i as int);
        proof {
            assert(t.drop_first() =~= req@.skip(i + 1));
            assert(t[0] == req@[i as int]);
        }
        if req[i].1 >= min {
            let ghost before = out@;
            out.push(req[i]);
            proof {
                assert(out@ + meeting_minimum(t.drop_first(), min) =~= before + (seq![t[0]] + meeting_minimum(t.drop_first(), min)));
            }
        }
        i = i + 1;
    }
    proof {
        assert(req@.skip(i as int).len() == 0);
        assert(out@ + Seq::<(i64, i64)>::empty() =~= out@);
    }
    out
}

fn final_targets_of(kept: &Vec<(i64, i64)>, deepest: i64, total: i64) -> (r: Vec<(i64, i64)>)
    requires
        total > 0,
        forall|i: int| 0 <= i < kept@.len() ==> 0 < #[trigger] kept@[i].1,
    ensures
        r@ == final_targets(kept@, deepest, total as int, 0),
{
    let ghost full = final_targets(kept@, deepest, total as int, 0);
    let mut out: Vec<(i64, i64)> = Vec::new();
    let mut assigned: i128 = 0;
    let ghost mut assigned_g: int = 0;
    let mut i: usize = 0;
    assert(kept@.skip(0) =~= kept@);
    while i < kept.len()
        invariant
            i <= kept.len(),
            total > 0,
            forall|j: int| 0 <= j < kept@.len() ==> 0 < #[trigger] kept@[j].1,
            assigned_g >= 0,
            assigned == (if assigned_g < total { assigned_g } else { total as int }),
            out@ + final_targets(kept@.skip(i as int), deepest, total as int, assigned_g) == full,
        decreases kept.len() - i,
    {
        let ghost t = kept@.skip(i as int);
        proof {
            assert(t.drop_first() =~= kept@.skip(i + 1));
            assert(t[0] == kept@[i as int]);
        }
        let (key, qty) = kept[i];
        let desired: i64 = if key == deepest {
            if (total as i128) - assigned > 0 { ((total as i128) - assigned) as i64 } else { 0 }
        } else {
            qty
        };
        if desired > 0 {
            let ghost before = out@;
            out.push((key, desired));
            proof {
                assert(out@ + final_targets(t.drop_first(), deepest, total as int, assigned_g + desired)
                    =~= before + (seq![(key, desired)] + final_targets(t.drop_first(), deepest, total as int, assigned_g + desired)));
                assigned_g = assigned_g + desired;
            }
            let next: i128 = assigned + desired as i128;
            assigned = if next < total as i128 { next } else { total as i128 };
        }
        i = i + 1;
    }
    proof {
        assert(kept@.skip(i as int).len() == 0);
        assert(out@ + Seq::<(i64, i64)>::empty() =~= out@);
    }
    out
}

fn keys_of(req: &Vec<(i64, i64)>) -> (r: Vec<i64>)
    ensures
        r@ == stage_keys(req@),
{
    let mut out: Vec<i64> = Vec::new();
    let mut i: usize = 0;
    while i < req.len()
        invariant
            i <= req.len(),
            out@ == stage_keys(req@.take(i as int)),
        decreases req.len() - i,
    {
        out.push(req[i].0);
        assert(stage_keys(req@.take(i + 1)) =~= stage_keys(req@.take(i as int)).push(req@[i as int].0));
        i = i + 1;
    }
    assert(req@.take(req.len() as int) =~= req@);
    out
}

fn keys_except_of(req: &Vec<(i64, i64)>, key: i64) -> (r: Vec<i64>)
    ensures
        r@ == keys_except(req@, key),
{
    let mut out: Vec<i64> = Vec::new();
    let mut i: usize = 0;
    assert(req@.skip(0) =~= req@);
    while i < req.len()
        invariant
            i <= req.len(),
            out@ + keys_except(req@.skip(i as int), key) == keys_except(req@, key),
        decreases req.len() - i,
    {
        let ghost t = req@.skip(i as int);
        proof {
            assert(t.drop_first() =~= req@.skip(i + 1));
            assert(t[0] == req@[i as int]);
        }
        if req[i].0 != key {
            let ghost before = out@;
            out.push(req[i].0);
            proof {
                assert(out@ + keys_except(t.drop_first(), key) =~= before + (seq![t[0].0] + keys_except(t.drop_first(), key)));
            }
        }
        i = i + 1;
    }
    proof {
        assert(req@.skip(i as int).len() == 0);
        assert(out@ + Seq::<i64>::empty() =~= out@);
    }
    out
}

fn targets_have_key(targets: &Vec<(i64, i64)>, key: i64) -> (r: bool)
    ensures
        r == stage_keys(targets@).contains(key),
{
    let mut i: usize = 0;
    while i < targets.len()
        invariant
            i <= targets.len(),
            forall|j: int| 0 <= j < i ==> targets@[j].0 != key,
        decreases targets.len() - i,
    {
        if targets[i].0 == key {
            assert(stage_keys(targets@)[i as int] == key);
            return true;
        }
        i = i + 1;
    }
    proof {
        if stage_keys(targets@).contains(key) {
            let j = choose|j: int| 0 <= j < stage_keys(targets@).len() && stage_keys(targets@)[j] == key;
            assert(targets@[j].0 == key);
        }
    }
    false
}

fn keys_not_targeted_of(req: &Vec<(i64, i64)>, targets: &Vec<(i64, i64)>) -> (r: Vec<i64>)
    ensures
        r@ == keys_not_targeted(req@, targets@),
{
    let mut out: Vec<i64> = Vec::new();
    let mut i: usize = 0;
    assert(req@.skip(0) =~= req@);
    while i < req.len()
        invariant
            i <= req.len(),
            out@ + keys_not_targeted(req@.skip(i as int), targets@) == keys_not_targeted(req@, targets@),
        decreases req.len() - i,
    {
        let ghost t = req@.skip(i as int);
        proof {
            assert(t.drop_first() =~= req@.skip(i + 1));
            assert(t[0] == req@[i as int]);
        }
        if !targets_have_key(targets, req[i].0) {
            let ghost before = out@;
            out.push(req[i].0);
            proof {
                assert(out@ + keys_not_targeted(t.drop_first(), targets@) =~= before + (seq![t[0].0] + keys_not_targeted(t.drop_first(), targets@)));
            }
        }
        i = i + 1;
    }
    proof {
        assert(req@.skip(i as int).len() == 0);
        assert(out@ + Seq::<i64>::empty() =~= out@);
    }
    out
}

/// Splits a position of `current_parent_qty` hundredths of a share over
/// weighted stages, against an optional minimum order size.
pub fn trade_builder_plan_weighted_ladder_targets(weighted_keys: &[(i64, i64)], current_parent_qty: i64, order_min_size: Option<i64>) -> (r: TradeBuilderLadderTargetPlan)
    requires
        shares_fit(weighted_keys@, if current_parent_qty > 0 { current_parent_qty as int } else { 0 }),
    ensures
        r@ == spec_ladder_plan(weighted_keys@, current_parent_qty, order_min_size),
{
    let total: i64 = if current_parent_qty > 0 { current_parent_qty } else { 0 };
    if total <= 0 || weighted_keys.len() == 0 {
        return no_plan();
    }
    let sum = sum_weights(weighted_keys);
    if sum <= 0 {
        return no_plan();
    }
    let req = requested_targets_of(weighted_keys, total, sum);
    let min = match order_min_size {
        Some(m) => {
            if m > 0 {
                m
            } else {
                return TradeBuilderLadderTargetPlan {
                    requested_targets: copy_stages(&req),
                    targets: req,
                    skipped_keys: Vec::new(),
                    consolidation_target: None,
                };
            }
        },
        None => {
            return TradeBuilderLadderTargetPlan {
                requested_targets: copy_stages(&req),
                targets: req,
                skipped_keys: Vec::new(),
                consolidation_target: None,
            };
        },
    };
    let kept = meeting_minimum_of(&req, min);
    if kept.len() == 0 {
        if total < min {
            let skipped = keys_of(&req);
            return TradeBuilderLadderTargetPlan {
                requested_targets: req,
                targets: Vec::new(),
                skipped_keys: skipped,
                consolidation_target: None,
            };
        }
        if req.len() == 0 {
            return TradeBuilderLadderTargetPlan {
                requested_targets: req,
                targets: Vec::new(),
                skipped_keys: Vec::new(),
                consolidation_target: None,
            };
        }
        let k = req[req.len() - 1].0;
        let skipped = keys_except_of(&req, k);
        let mut targets: Vec<(i64, i64)> = Vec::new();
        targets.push((k, total));
        proof { assert(targets@ =~= seq![(k, total)]); }
        return TradeBuilderLadderTargetPlan {
            requested_targets: req,
            targets,
            skipped_keys: skipped,
            consolidation_target: Some(k),
        };
    }
    proof {
        assert forall|i: int| 0 <= i < kept@.len() implies 0 < #[trigger] kept@[i].1 by {
            lemma_meeting_minimum_members(req@, min, i);
        }
    }
    let deepest = kept[kept.len() - 1].0;
    let targets = final_targets_of(&kept, deepest, total);
    let skipped = keys_not_targeted_of(&req, &targets);
    let consolidation = if skipped.len() > 0 { Some(deepest) } else { None };
    TradeBuilderLadderTargetPlan {
        requested_targets: req,
        targets,
        skipped_keys: skipped,
        consolidation_target: consolidation,
    }
}

proof fn lemma_meeting_minimum_members(req: Seq<(i64, i64)>, min: i64, i: int)
    requires
        0 <= i < meeting_minimum(req, min).len(),
    ensures
        exists|j: int| 0 <= j < req.len() && req[j] == #[trigger] meeting_minimum(req, min)[i],
    decreases req.len(),
{
    if req.len() > 0 {
        let t = req.drop_first();
        if req[0].1 >= min {
            if i == 0 {
                assert(req[0] == meeting_minimum(req, min)[0]);
            } else {
                assert(meeting_minimum(req, min)[i] == meeting_minimum(t, min)[i - 1]);
                lemma_meeting_minimum_members(t, min, i - 1);
                let j = choose|j: int| 0 <= j < t.len() && t[j] == #[trigger] meeting_minimum(t, min)[i - 1];
                assert(req[j + 1] == t[j]);
            }
        } else {
            lemma_meeting_minimum_members(t, min, i);
            let j = choose|j: int| 0 <= j < t.len() && t[j] == #[trigger] meeting_minimum(t, min)[i];
            assert(req[j + 1] == t[j]);
        }
    }
}

/// The total quantity of a sequence of stages.
pub open spec fn qty_sum(s: Seq<(i64, i64)>) -> int
    decreases s.len(),
{
    if s.len() == 0 {
        0
    } else {
        s[0].1 + qty_sum(s.drop_first())
    }
}

/// What the stages before the last get by weight, in all.
pub open spec fn leading_share_sum(ws: Seq<(i64, i64)>, total: int, sum: int) -> int
    decreases ws.len(),
{
    if ws.len() <= 1 {
        0
    } else {
        weighted_share(total, ws[0].1 as int, sum) + leading_share_sum(ws.drop_first(), total, sum)
    }
}

proof fn lemma_requested_sum(ws: Seq<(i64, i64)>, total: int, sum: int, assigned: int)
    requires
        ws.len() > 0,
        total > 0,
        sum > 0,
        assigned >= 0,
        total <= 0x7fff_ffff_ffff_ffff,
        weights_nonneg(ws),
        forall|i: int| 0 <= i < ws.len() ==> ws[i].1 <= sum,
    ensures
        qty_sum(requested_seq(ws, total, sum, assigned)) + assigned
            == if total >= assigned + leading_share_sum(ws, total, sum) { total } else { assigned + leading_share_sum(ws, total, sum) },
    decreases ws.len(),
{
    if ws.len() == 1 {
        let desired = if total - assigned > 0 { total - assigned } else { 0 };
        assert(ws.drop_first().len() == 0);
        assert(requested_seq(ws.drop_first(), total, sum, assigned + desired) == Seq::<(i64, i64)>::empty());
        if desired > 0 {
            let r = seq![(ws[0].0, desired as i64)] + requested_seq(ws.drop_first(), total, sum, assigned + desired);
            assert(r =~= seq![(ws[0].0, desired as i64)]);
            assert(r.drop_first() =~= Seq::<(i64, i64)>::empty());
            assert(qty_sum(r.drop_first()) == 0);
            assert(qty_sum(r) == desired);
        } else {
            assert(requested_seq(ws, total, sum, assigned) == Seq::<(i64, i64)>::empty());
        }
    } else {
        let t = ws.drop_first();
        assert forall|i: int| 0 <= i < t.len() implies t[i].1 >= 0 && t[i].1 <= sum by {
            assert(t[i] == ws[i + 1]);
        }
        let d = weighted_share(total, ws[0].1 as int, sum);
        lemma_weighted_share_bounds(total, ws[0].1 as int, sum);
        assert(d >= 0);
        if d <= 0 {
            lemma_requested_sum(t, total, sum, assigned);
        } else {
            lemma_requested_sum(t, total, sum, assigned + d);
            let r = seq![(ws[0].0, d as i64)] + requested_seq(t, total, sum, assigned + d);
            assert(r.drop_first() =~= requested_seq(t, total, sum, assigned + d));
            assert(r[0].1 == d);
            assert(qty_sum(r) == d + qty_sum(requested_seq(t, total, sum, assigned + d)));
        }
    }
}

/// Law: the requested stage quantities add up to the whole position; only
/// when rounding up the stages before the last already asks for more than
/// the position do they add up to that larger amount (the last stage then
/// gets nothing).
pub proof fn law_requested_quantities_cover_position(ws: Seq<(i64, i64)>, qty: i64, min_size: Option<i64>)
    requires
        weights_nonneg(ws),
        ws.len() > 0,
        qty > 0,
        weight_sum(ws) > 0,
    ensures
        qty_sum(spec_ladder_plan(ws, qty, min_size).requested_targets)
            == if qty >= leading_share_sum(ws, qty as int, weight_sum(ws)) { qty as int } else { leading_share_sum(ws, qty as int, weight_sum(ws)) },
{
    lemma_weight_sum_bounds(ws);
    lemma_requested_sum(ws, qty as int, weight_sum(ws), 0);
}

/// The stage weight of a ladder child: its size percentage, when positive.
pub open spec fn spec_ladder_rule_weight(order: &TradeBuilderOrder) -> Option<i64> {
    match order.exit_ladder_size_pct {
        Some(p) if p > 0 => Some(p),
        _ => None,
    }
}

pub fn trade_builder_ladder_rule_weight(order: &TradeBuilderOrder) -> (r: Option<i64>)
    ensures
        r == spec_ladder_rule_weight(order),
{
    match order.exit_ladder_size_pct {
        Some(p) => if p > 0 { Some(p) } else { None },
        None => None,
    }
}

/// A weighted child with its rank: `(ladder index or i32::MAX, id, weight)`.
pub open spec fn ranked_children(children: Seq<&TradeBuilderOrder>) -> Seq<(i32, i64, i64)>
    decreases children.len(),
{
    if children.len() == 0 {
        Seq::empty()
    } else {
        let rest = ranked_children(children.drop_last());
        let c = children.last();
        match spec_ladder_rule_weight(c) {
            Some(w) => rest.push((if c.exit_ladder_index is Some { c.exit_ladder_index->0 } else { i32::MAX }, c.id, w)),
            None => rest,
        }
    }
}

/// Rank order: by ladder index, then by id.
pub open spec fn rank_le(a: (i32, i64, i64), b: (i32, i64, i64)) -> bool {
    a.0 < b.0 || (a.0 == b.0 && a.1 <= b.1)
}

/// `x` inserted before the first element that ranks above it.
pub open spec fn insert_by_rank(s: Seq<(i32, i64, i64)>, x: (i32, i64, i64)) -> Seq<(i32, i64, i64)>
    decreases s.len(),
{
    if s.len() == 0 {
        seq![x]
    } else if rank_le(s[0], x) {
        seq![s[0]] + insert_by_rank(s.drop_first(), x)
    } else {
        seq![x] + s
    }
}

/// The stable sort by rank: each element in turn inserted after every
/// element that ranks no higher.
pub open spec fn sort_by_rank(s: Seq<(i32, i64, i64)>) -> Seq<(i32, i64, i64)>
    decreases s.len(),
{
    if s.len() == 0 {
        s
    } else {
        insert_by_rank(sort_by_rank(s.drop_last()), s.last())
    }
}

/// The stages of a ranked list: `(id, weight)`.
pub open spec fn ranked_stages(s: Seq<(i32, i64, i64)>) -> Seq<(i64, i64)> {
    s.map_values(|t: (i32, i64, i64)| (t.1, t.2))
}

fn insert_ranked(sorted: Vec<(i32, i64, i64)>, x: (i32, i64, i64)) -> (r: Vec<(i32, i64, i64)>)
    ensures
        r@ == insert_by_rank(sorted@, x),
{
    let ghost target = insert_by_rank(sorted@, x);
    let mut rest = sorted;
    let mut out: Vec<(i32, i64, i64)> = Vec::new();
    while rest.len() > 0 && (rest[0].0 < x.0 || (rest[0].0 == x.0 && rest[0].1 <= x.1))
        invariant
            out@ + insert_by_rank(rest@, x) == target,
        decreases rest.len(),
    {
        let ghost before = rest@;
        let y = rest.remove(0);
        proof {
            assert(rest@ =~= before.drop_first());
        }
        let ghost k = out@;
        out.push(y);
        proof {
            assert(k.push(y) + insert_by_rank(before.drop_first(), x) =~= k + (seq![y] + insert_by_rank(before.drop_first(), x)));
        }
    }
    let ghost k = out@;
    let ghost before = rest@;
    out.push(x);
    proof {
        if before.len() == 0 {
            assert(insert_by_rank(before, x) =~= seq![x]);
        }
        assert(out@ + before =~= k + insert_by_rank(before, x));
    }
    while rest.len() > 0
        invariant
            out@ + rest@ == target,
        decreases rest.len(),
    {
        let ghost b = rest@;
        let y = rest.remove(0);
        let ghost k2 = out@;
        out.push(y);
        proof {
            assert(rest@ =~= b.drop_first());
            assert(k2.push(y) + b.drop_first() =~= k2 + b);
        }
    }
    assert(out@ + rest@ =~= out@);
    out
}

/// Plans a ladder family: its children with a positive size percentage, in
/// the order of their ladder index and then their id, weighted by that
/// percentage.
pub fn trade_builder_ladder_family_target_plan(family_children: &[&TradeBuilderOrder], current_parent_qty: i64, order_min_size: Option<i64>) -> (r: TradeBuilderLadderTargetPlan)
    ensures
        r@ == spec_ladder_plan(ranked_stages(sort_by_rank(ranked_children(family_children@))), current_parent_qty, order_min_size),
{
    let mut sorted: Vec<(i32, i64, i64)> = Vec::new();
    let mut i: usize = 0;
    while i < family_children.len()
        invariant
            i <= family_children.len(),
            sorted@ == sort_by_rank(ranked_children(family_children@.take(i as int))),
            forall|j: int| 0 <= j < sorted@.len() ==> #[trigger] sorted@[j].2 > 0,
        decreases family_children.len() - i,
    {
        let c = family_children[i];
        let ghost pre = family_children@.take(i as int);
        let ghost pre1 = family_children@.take(i + 1);
        proof {
            assert(pre1.drop_last() =~= pre);
            assert(pre1.last() == c);
        }
        match trade_builder_ladder_rule_weight(c) {
            Some(w) => {
                let rank: i32 = match c.exit_ladder_index {
                    Some(x) => x,
                    None => i32::MAX,
                };
                let ghost before = sorted@;
                sorted = insert_ranked(sorted, (rank, c.id, w));
                proof {
                    assert(ranked_children(pre1) == ranked_children(pre).push((rank, c.id, w)));
                    let rc = ranked_children(pre1);
                    assert(rc.drop_last() =~= ranked_children(pre));
                    assert(rc.last() == (rank, c.id, w));
                    lemma_insert_rank_weights(before, (rank, c.id, w));
                }
            },
            None => {
                proof {
                    assert(ranked_children(pre1) == ranked_children(pre));
                }
            },
        }
        i = i + 1;
    }
    assert(family_children@.take(family_children.len() as int) =~= family_children@);
    let mut stages: Vec<(i64, i64)> = Vec::new();
    let mut k: usize = 0;
    while k < sorted.len()
        invariant
            k <= sorted.len(),
            stages@ == ranked_stages(sorted@.take(k as int)),
        decreases sorted.len() - k,
    {
        stages.push((sorted[k].1, sorted[k].2));
        assert(ranked_stages(sorted@.take(k + 1)) =~= ranked_stages(sorted@.take(k as int)).push((sorted@[k as int].1, sorted@[k as int].2)));
        k = k + 1;
    }
    assert(sorted@.take(sorted.len() as int) =~= sorted@);
    assert forall|j: int| 0 <= j < stages@.len() implies stages@[j].1 >= 0 by {
        assert(stages@[j].1 == sorted@[j].2);
    }
    proof { lemma_nonneg_shares_fit(stages@, if current_parent_qty > 0 { current_parent_qty as int } else { 0 }); }
    trade_builder_plan_weighted_ladder_targets(stages.as_slice(), current_parent_qty, order_min_size)
}

proof fn lemma_insert_rank_weights(s: Seq<(i32, i64, i64)>, x: (i32, i64, i64))
    requires
        forall|j: int| 0 <= j < s.len() ==> #[trigger] s[j].2 > 0,
        x.2 > 0,
    ensures
        forall|j: int| 0 <= j < insert_by_rank(s, x).len() ==> #[trigger] insert_by_rank(s, x)[j].2 > 0,
    decreases s.len(),
{
    if s.len() > 0 {
        let t = s.drop_first();
        assert forall|j: int| 0 <= j < t.len() implies #[trigger] t[j].2 > 0 by {
            assert(t[j] == s[j + 1]);
        }
        if rank_le(s[0], x) {
            lemma_insert_rank_weights(t, x);
            let r = seq![s[0]] + insert_by_rank(t, x);
            assert forall|j: int| 0 <= j < r.len() implies #[trigger] r[j].2 > 0 by {
                if j > 0 {
                    assert(r[j] == insert_by_rank(t, x)[j - 1]);
                }
            }
        } else {
            let r = seq![x] + s;
            assert forall|j: int| 0 <= j < r.len() implies #[trigger] r[j].2 > 0 by {
                if j > 0 {
                    assert(r[j] == s[j - 1]);
                }
            }
        }
    }
}

/// The target quantities of a ladder family's children, by child id.
pub fn trade_builder_ladder_family_target_qtys(family_children: &[&TradeBuilderOrder], current_parent_qty: i64, order_min_size: Option<i64>) -> (r: Vec<(i64, i64)>)
    ensures
        r@ == spec_ladder_plan(ranked_stages(sort_by_rank(ranked_children(family_children@))), current_parent_qty, order_min_size).targets,
{
    trade_builder_ladder_family_target_plan(family_children, current_parent_qty, order_min_size).targets
}

/// The stages of a price ladder: each rule by its position, weighted by its
/// size percentage.
pub open spec fn rule_stages(rules: Seq<TradeBuilderPriceExitRule>) -> Seq<(i64, i64)> {
    Seq::new(rules.len(), |i: int| (i as i64, rules[i].size_pct))
}

/// Plans a price ladder over an entry of `canonical_entry_qty` hundredths of
/// a share; the stages are keyed by rule position and weighted by the rules'
/// sizes (each stage's share of the entry must fit an `i64`, as it always
/// does when no size is negative).
pub fn trade_builder_ladder_rule_target_plan(rules: &[TradeBuilderPriceExitRule], canonical_entry_qty: i64, order_min_size: Option<i64>) -> (r: TradeBuilderLadderTargetPlan)
    requires
        shares_fit(rule_stages(rules@), if canonical_entry_qty > 0 { canonical_entry_qty as int } else { 0 }),
        rules@.len() <= 0x7fff_ffff_ffff_ffff,
    ensures
        r@ == spec_ladder_plan(rule_stages(rules@), canonical_entry_qty, order_min_size),
{
    let mut stages: Vec<(i64, i64)> = Vec::new();
    let mut i: usize = 0;
    while i < rules.len()
        invariant
            i <= rules.len(),
            rules@.len() <= 0x7fff_ffff_ffff_ffff,
            stages@ == rule_stages(rules@).take(i as int),
        decreases rules.len() - i,
    {
        stages.push((i as i64, rules[i].size_pct));
        assert(rule_stages(rules@).take(i + 1) =~= rule_stages(rules@).take(i as int).push((i as i64, rules@[i as int].size_pct)));
        i = i + 1;
    }
    assert(rule_stages(rules@).take(rules.len() as int) =~= rule_stages(rules@));
    trade_builder_plan_weighted_ladder_targets(stages.as_slice(), canonical_entry_qty, order_min_size)
}

} // verus!
