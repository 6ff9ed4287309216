//! The average-rebound pair-lock rescue: a strategy that builds a primary
//! position in tiers, then buys the opposite side in profit legs to lock a
//! pair, guards against giving the profit back, and rescues the position
//! when it cannot. This module decides which orders a step may try, in the
//! order it tries them; pricing each against the book (its VWAP and the
//! market's minimum notional) is done by the caller, and the first order
//! that prices wins. Quantities in millionths of a share, prices and
//! amounts in millionths (of a dollar per share, of a USDC); a share
//! redeems for one dollar.
use vstd::prelude::*;
use crate::text::str_eq;

verus! {

broadcast use vstd::string::group_string_axioms;

/// One tier of the primary ladder.
pub struct AvgReboundPrimaryTier {
    pub id: String,
    pub price_cap: i64,
    pub qty: i64,
}

/// One profit leg of a stage: how much of the opposite side to buy, and
/// the highest VWAP to pay.
pub struct AvgReboundProfitLeg {
    pub id: String,
    pub opposite_vwap_cap: i64,
    pub qty: i64,
}

/// A stage: the primary tiers it needs, its profit legs, and its giveback
/// guard (the opposite price that fires it, and the highest VWAP to pay).
pub struct AvgReboundStage {
    pub id: String,
    pub required_primary_tier_ids: Vec<String>,
    pub profit_legs: Vec<AvgReboundProfitLeg>,
    pub guard_trigger: i64,
    pub guard_max_execution_vwap: i64,
}

/// The rescue caps, tried in order.
pub struct AvgReboundRescue {
    pub enabled_only_after_full_ladder: bool,
    pub normal_vwap_cap: i64,
    pub emergency_vwap_cap: i64,
    pub hard_max_vwap_cap: i64,
    pub last_chance_vwap_cap: Option<i64>,
}

/// The settings the decision reads.
pub struct AvgReboundConfig {
    pub session_budget_usdc: i64,
    pub reserved_budget_buffer_usdc: i64,
    pub extra_vwap_safety_buffer: i64,
    pub target_profit_usdc: Option<i64>,
    pub allow_primary_after_partial_profit: bool,
    pub pre_full_giveback_guard_enabled: bool,
    pub full_giveback_guard_enabled: bool,
    pub primary_ladder: Vec<AvgReboundPrimaryTier>,
    pub stages: Vec<AvgReboundStage>,
    pub rescue: AvgReboundRescue,
}

/// What a session holds so far.
pub struct AvgReboundState {
    pub primary_total_qty: i64,
    pub primary_total_cost: i64,
    pub opposite_filled_qty: i64,
    pub opposite_total_cost: i64,
    pub open_primary_qty: i64,
    pub profit_started: bool,
    pub primary_tier_ids: Vec<String>,
    pub opposite_leg_ids: Vec<String>,
}

/// Why an order is tried.
#[derive(PartialEq, Eq, Structural, Clone, Copy)]
pub enum AvgReboundIntent {
    PrimaryLadder,
    ProfitPairlock,
    GivebackGuard,
    NormalRescue,
    EmergencyRescue,
    HardRescue,
    LastChanceRescue,
}

impl AvgReboundIntent {
    /// The intent's name.
    pub fn name(&self) -> (r: &'static str)
        ensures
            r@ == spec_intent_name(*self),
    {
        match self {
            AvgReboundIntent::PrimaryLadder => "PRIMARY_LADDER",
            AvgReboundIntent::ProfitPairlock => "PROFIT_PAIRLOCK",
            AvgReboundIntent::GivebackGuard => "GIVEBACK_GUARD",
            AvgReboundIntent::NormalRescue => "NORMAL_RESCUE",
            AvgReboundIntent::EmergencyRescue => "EMERGENCY_RESCUE",
            AvgReboundIntent::HardRescue => "HARD_RESCUE",
            AvgReboundIntent::LastChanceRescue => "LAST_CHANCE_RESCUE",
        }
    }

    /// The session status an order of this intent moves to.
    pub fn status(&self) -> (r: &'static str)
        ensures
            r@ == spec_intent_status(*self),
    {
        match self {
            AvgReboundIntent::PrimaryLadder => "BUILDING_PRIMARY",
            AvgReboundIntent::ProfitPairlock => "PROFIT_LOCKING",
            AvgReboundIntent::GivebackGuard => "GUARD_EXIT",
            _ => "RESCUE_EXIT",
        }
    }
}

pub open spec fn spec_intent_name(i: AvgReboundIntent) -> Seq<char> {
    match i {
        AvgReboundIntent::PrimaryLadder => "PRIMARY_LADDER"@,
        AvgReboundIntent::ProfitPairlock => "PROFIT_PAIRLOCK"@,
        AvgReboundIntent::GivebackGuard => "GIVEBACK_GUARD"@,
        AvgReboundIntent::NormalRescue => "NORMAL_RESCUE"@,
        AvgReboundIntent::EmergencyRescue => "EMERGENCY_RESCUE"@,
        AvgReboundIntent::HardRescue => "HARD_RESCUE"@,
        AvgReboundIntent::LastChanceRescue => "LAST_CHANCE_RESCUE"@,
    }
}

pub open spec fn spec_intent_status(i: AvgReboundIntent) -> Seq<char> {
    match i {
        AvgReboundIntent::PrimaryLadder => "BUILDING_PRIMARY"@,
        AvgReboundIntent::ProfitPairlock => "PROFIT_LOCKING"@,
        AvgReboundIntent::GivebackGuard => "GUARD_EXIT"@,
        _ => "RESCUE_EXIT"@,
    }
}

/// An order a step may try: which side it buys (the primary or the
/// opposite), why, under which stage (by position), which tier or leg it
/// fills (a primary tier or a profit leg by position, else the guard or a
/// rescue), how much, at what VWAP cap, and whether a failure to price it
/// is reported as a rejection.
#[derive(PartialEq, Eq, Structural, Clone, Copy)]
pub struct AvgReboundCandidate {
    pub primary_side: bool,
    pub intent: AvgReboundIntent,
    pub stage: Option<usize>,
    pub tier_or_leg: Option<usize>,
    pub qty: i64,
    pub vwap_cap: i64,
    pub records_rejection: bool,
}

/// The session holds a fill of the primary tier `id`.
pub open spec fn has_tier(s: AvgReboundState, id: Seq<char>) -> bool {
    exists|i: int| 0 <= i < s.primary_tier_ids@.len() && #[trigger] s.primary_tier_ids@[i]@ == id
}

/// The session holds a fill of the opposite leg `id`.
pub open spec fn has_leg(s: AvgReboundState, id: Seq<char>) -> bool {
    exists|i: int| 0 <= i < s.opposite_leg_ids@.len() && #[trigger] s.opposite_leg_ids@[i]@ == id
}

/// A stage is ready once every tier it needs is held.
pub open spec fn stage_ready(s: AvgReboundState, stage: AvgReboundStage) -> bool {
    forall|j: int| 0 <= j < stage.required_primary_tier_ids@.len() ==> has_tier(s, #[trigger] stage.required_primary_tier_ids@[j]@)
}

/// Among the first `n` stages, the ready one that needs the most tiers (the
/// last of those on a tie).
pub open spec fn current_stage_in(stages: Seq<AvgReboundStage>, s: AvgReboundState, n: int) -> Option<int>
    decreases n,
{
    if n <= 0 || n > stages.len() {
        None
    } else {
        let prev = current_stage_in(stages, s, n - 1);
        let st = stages[n - 1];
        if stage_ready(s, st) && (match prev {
            None => true,
            Some(p) => st.required_primary_tier_ids@.len() >= stages[p].required_primary_tier_ids@.len(),
        }) {
            Some(n - 1)
        } else {
            prev
        }
    }
}

pub open spec fn spec_current_stage(c: AvgReboundConfig, s: AvgReboundState) -> Option<int> {
    current_stage_in(c.stages@, s, c.stages@.len() as int)
}

/// Every tier of the primary ladder is held.
pub open spec fn full_ladder_filled(c: AvgReboundConfig, s: AvgReboundState) -> bool {
    forall|i: int| 0 <= i < c.primary_ladder@.len() ==> has_tier(s, #[trigger] c.primary_ladder@[i].id@)
}

/// The first tier at or after `i` that is not held.
pub open spec fn next_tier_from(c: AvgReboundConfig, s: AvgReboundState, i: int) -> Option<int>
    decreases c.primary_ladder@.len() - i,
{
    if i < 0 || i >= c.primary_ladder@.len() {
        None
    } else if !has_tier(s, c.primary_ladder@[i].id@) {
        Some(i)
    } else {
        next_tier_from(c, s, i + 1)
    }
}

/// The first leg at or after `i` of a stage that is not held.
pub open spec fn next_leg_from(st: AvgReboundStage, s: AvgReboundState, i: int) -> Option<int>
    decreases st.profit_legs@.len() - i,
{
    if i < 0 || i >= st.profit_legs@.len() {
        None
    } else if !has_leg(s, st.profit_legs@[i].id@) {
        Some(i)
    } else {
        next_leg_from(st, s, i + 1)
    }
}

pub open spec fn min_int(a: int, b: int) -> int {
    if a <= b { a } else { b }
}

/// The VWAP caps that keep a target profit when `qty` more opposite shares
/// are bought: what redeeming the pair pays, less what the session spent
/// and the target, per share bought (rounded down to a millionth); with the
/// safety buffer added for the raw cap; each capped just below one dollar.
/// None without a target, a quantity, a primary position or room left.
pub open spec fn spec_dynamic_profit_cap(c: AvgReboundConfig, s: AvgReboundState, qty: int) -> Option<(int, int)> {
    match c.target_profit_usdc {
        None => None,
        Some(target) => if qty <= 0 || s.primary_total_qty <= 0 {
            None
        } else {
            let redeem = min_int(s.primary_total_qty as int, s.opposite_filled_qty + qty);
            let room = redeem - (s.primary_total_cost + s.opposite_total_cost) - target;
            if room <= 0 {
                None
            } else {
                let effective = room * 1_000_000 / qty;
                if effective <= 0 {
                    None
                } else {
                    let raw = effective + c.extra_vwap_safety_buffer;
                    Some((
                        if raw >= 1_000_000 { 999_999 } else { raw },
                        if effective >= 1_000_000 { 999_999 } else { effective },
                    ))
                }
            }
        },
    }
}

/// The profit order: the next profit leg of the current stage, while
/// primary shares are open, for at most the open shares, at the dynamic
/// cap where there is one, else the leg's cap.
pub open spec fn profit_part(c: AvgReboundConfig, s: AvgReboundState) -> Seq<AvgReboundCandidate> {
    match spec_current_stage(c, s) {
        None => Seq::empty(),
        Some(k) => match next_leg_from(c.stages@[k], s, 0) {
            None => Seq::empty(),
            Some(l) => if s.open_primary_qty <= 0 {
                Seq::empty()
            } else {
                let leg = c.stages@[k].profit_legs@[l];
                let qty = min_int(leg.qty as int, s.open_primary_qty as int);
                let cap = match spec_dynamic_profit_cap(c, s, qty) {
                    Some((raw, _)) => raw,
                    None => leg.opposite_vwap_cap as int,
                };
                seq![AvgReboundCandidate {
                    primary_side: false,
                    intent: AvgReboundIntent::ProfitPairlock,
                    stage: Some(k as usize),
                    tier_or_leg: Some(l as usize),
                    qty: qty as i64,
                    vwap_cap: cap as i64,
                    records_rejection: true,
                }]
            },
        },
    }
}

/// The guard order, once the ladder is full: under a current stage, after
/// profit taking started with primary shares open, with the full-ladder
/// guard enabled, when the opposite price reached the stage's trigger: all
/// open shares at the guard's VWAP cap.
pub open spec fn guard_part(c: AvgReboundConfig, s: AvgReboundState, opposite_price: i64) -> Seq<AvgReboundCandidate> {
    match spec_current_stage(c, s) {
        None => Seq::empty(),
        Some(k) => if !s.profit_started || s.open_primary_qty <= 0 || !c.full_giveback_guard_enabled
            || opposite_price < c.stages@[k].guard_trigger {
            Seq::empty()
        } else {
            seq![AvgReboundCandidate {
                primary_side: false,
                intent: AvgReboundIntent::GivebackGuard,
                stage: Some(k as usize),
                tier_or_leg: None,
                qty: s.open_primary_qty,
                vwap_cap: c.stages@[k].guard_max_execution_vwap,
                records_rejection: true,
            }]
        },
    }
}

pub open spec fn rescue_candidate(stage: Option<int>, s: AvgReboundState, intent: AvgReboundIntent, cap: i64) -> AvgReboundCandidate {
    AvgReboundCandidate {
        primary_side: false,
        intent,
        stage: match stage { Some(k) => Some(k as usize), None => None },
        tier_or_leg: None,
        qty: s.open_primary_qty,
        vwap_cap: cap,
        records_rejection: false,
    }
}

/// The rescue orders, once the ladder is full and while primary shares are
/// open: all open shares at the normal, emergency, hard and (where set)
/// last-chance caps, in that order; a rescue that fails to price is not
/// reported.
pub open spec fn rescue_part(c: AvgReboundConfig, s: AvgReboundState) -> Seq<AvgReboundCandidate> {
    if s.open_primary_qty <= 0 {
        Seq::empty()
    } else {
        let k = spec_current_stage(c, s);
        let base = seq![
            rescue_candidate(k, s, AvgReboundIntent::NormalRescue, c.rescue.normal_vwap_cap),
            rescue_candidate(k, s, AvgReboundIntent::EmergencyRescue, c.rescue.emergency_vwap_cap),
            rescue_candidate(k, s, AvgReboundIntent::HardRescue, c.rescue.hard_max_vwap_cap),
        ];
        match c.rescue.last_chance_vwap_cap {
            Some(cap) => base.push(rescue_candidate(k, s, AvgReboundIntent::LastChanceRescue, cap)),
            None => base,
        }
    }
}

/// The primary order: the next tier not held, at its quantity and price
/// cap; none once profit taking started, unless primary buys are allowed
/// after a partial profit and more than a ten-thousandth of a share is
/// open.
pub open spec fn primary_part(c: AvgReboundConfig, s: AvgReboundState) -> Seq<AvgReboundCandidate> {
    if s.profit_started && (!c.allow_primary_after_partial_profit || s.open_primary_qty <= 100) {
        Seq::empty()
    } else {
        match next_tier_from(c, s, 0) {
            None => Seq::empty(),
            Some(t) => seq![AvgReboundCandidate {
                primary_side: true,
                intent: AvgReboundIntent::PrimaryLadder,
                stage: None,
                tier_or_leg: Some(t as usize),
                qty: c.primary_ladder@[t].qty,
                vwap_cap: c.primary_ladder@[t].price_cap,
                records_rejection: true,
            }],
        }
    }
}

/// The orders a step tries, in order: the profit order; once the ladder is
/// full, the guard and then the rescues; then the primary order.
pub open spec fn spec_avg_rebound_candidates(c: AvgReboundConfig, s: AvgReboundState, opposite_price: i64) -> Seq<AvgReboundCandidate> {
    profit_part(c, s)
        + (if full_ladder_filled(c, s) { guard_part(c, s, opposite_price) + rescue_part(c, s) } else { Seq::empty() })
        + primary_part(c, s)
}

/// What a session may spend: its budget less the reserved buffer.
pub open spec fn spec_budget_limit(c: AvgReboundConfig) -> int {
    c.session_budget_usdc - c.reserved_budget_buffer_usdc
}

/// Whether spending `additional_notional` more keeps the session within
/// its budget limit.
pub open spec fn spec_projected_spend_allowed(c: AvgReboundConfig, s: AvgReboundState, additional_notional: i64) -> bool {
    s.primary_total_cost + s.opposite_total_cost + additional_notional <= spec_budget_limit(c)
}

pub fn avg_rebound_projected_spend_allowed(c: &AvgReboundConfig, s: &AvgReboundState, additional_notional: i64) -> (r: bool)
    ensures
        r == spec_projected_spend_allowed(*c, *s, additional_notional),
{
    (s.primary_total_cost as i128) + (s.opposite_total_cost as i128) + (additional_notional as i128)
        <= (c.session_budget_usdc as i128) - (c.reserved_budget_buffer_usdc as i128)
}

fn holds_id(ids: &Vec<String>, id: &str) -> (r: bool)
    ensures
        r == exists|i: int| 0 <= i < ids@.len() && #[trigger] ids@[i]@ == id@,
{
    let mut i: usize = 0;
    while i < ids.len()
        invariant
            i <= ids.len(),
            forall|j: int| 0 <= j < i ==> ids@[j]@ != id@,
        decreases ids.len() - i,
    {
        if str_eq(ids[i].as_str(), id) {
            return true;
        }
        i = i + 1;
    }
    false
}

fn is_stage_ready(s: &AvgReboundState, st: &AvgReboundStage) -> (r: bool)
    ensures
        r == stage_ready(*s, *st),
{
    let req = &st.required_primary_tier_ids;
    let mut j: usize = 0;
    while j < req.len()
        invariant
            j <= req.len(),
            req@ == st.required_primary_tier_ids@,
            forall|k: int| 0 <= k < j ==> has_tier(*s, #[trigger] req@[k]@),
        decreases req.len() - j,
    {
        if !holds_id(&s.primary_tier_ids, req[j].as_str()) {
            assert(!has_tier(*s, req@[j as int]@));
            assert(!stage_ready(*s, *st)) by {
                assert(st.required_primary_tier_ids@[j as int]@ == req@[j as int]@);
            }
            return false;
        }
        j = j + 1;
    }
    true
}

/// The current stage (see `current_stage_in`), by position.
pub fn avg_rebound_current_stage(c: &AvgReboundConfig, s: &AvgReboundState) -> (r: Option<usize>)
    ensures
        match r {
            Some(k) => spec_current_stage(*c, *s) == Some(k as int) && k < c.stages@.len(),
            None => spec_current_stage(*c, *s) is None,
        },
{
    let mut best: Option<usize> = None;
    let mut n: usize = 0;
    while n < c.stages.len()
        invariant
            n <= c.stages.len(),
            match best {
                Some(k) => current_stage_in(c.stages@, *s, n as int) == Some(k as int) && k < n,
                None => current_stage_in(c.stages@, *s, n as int) is None,
            },
        decreases c.stages.len() - n,
    {
        let st = &c.stages[n];
        if is_stage_ready(s, st) {
            let better = match best {
                None => true,
                Some(p) => st.required_primary_tier_ids.len() >= c.stages[p].required_primary_tier_ids.len(),
            };
            if better {
                best = Some(n);
            }
        }
        n = n + 1;
    }
    best
}

/// Every tier of the primary ladder is held.
pub fn avg_rebound_full_ladder_filled(c: &AvgReboundConfig, s: &AvgReboundState) -> (r: bool)
    ensures
        r == full_ladder_filled(*c, *s),
{
    let mut i: usize = 0;
    while i < c.primary_ladder.len()
        invariant
            i <= c.primary_ladder.len(),
            forall|j: int| 0 <= j < i ==> has_tier(*s, #[trigger] c.primary_ladder@[j].id@),
        decreases c.primary_ladder.len() - i,
    {
        if !holds_id(&s.primary_tier_ids, c.primary_ladder[i].id.as_str()) {
            assert(!has_tier(*s, c.primary_ladder@[i as int].id@));
            return false;
        }
        i = i + 1;
    }
    true
}

/// The first primary tier not held, by position.
pub fn avg_rebound_next_primary_tier(c: &AvgReboundConfig, s: &AvgReboundState) -> (r: Option<usize>)
    ensures
        match r {
            Some(t) => next_tier_from(*c, *s, 0) == Some(t as int) && t < c.primary_ladder@.len(),
            None => next_tier_from(*c, *s, 0) is None,
        },
{
    let mut i: usize = 0;
    while i < c.primary_ladder.len()
        invariant
            i <= c.primary_ladder.len(),
            next_tier_from(*c, *s, 0) == next_tier_from(*c, *s, i as int),
        decreases c.primary_ladder.len() - i,
    {
        if !holds_id(&s.primary_tier_ids, c.primary_ladder[i].id.as_str()) {
            return Some(i);
        }
        i = i + 1;
    }
    None
}

/// The first profit leg of a stage not held, by position.
pub fn avg_rebound_next_profit_leg(st: &AvgReboundStage, s: &AvgReboundState) -> (r: Option<usize>)
    ensures
        match r {
            Some(l) => next_leg_from(*st, *s, 0) == Some(l as int) && l < st.profit_legs@.len(),
            None => next_leg_from(*st, *s, 0) is None,
        },
{
    let mut i: usize = 0;
    while i < st.profit_legs.len()
        invariant
            i <= st.profit_legs.len(),
            next_leg_from(*st, *s, 0) == next_leg_from(*st, *s, i as int),
        decreases st.profit_legs.len() - i,
    {
        if !holds_id(&s.opposite_leg_ids, st.profit_legs[i].id.as_str()) {
            return Some(i);
        }
        i = i + 1;
    }
    None
}

/// The dynamic profit caps (see `spec_dynamic_profit_cap`).
pub fn avg_rebound_dynamic_profit_cap(c: &AvgReboundConfig, s: &AvgReboundState, qty: i64) -> (r: Option<(i64, i64)>)
    ensures
        match r {
            Some((raw, eff)) => spec_dynamic_profit_cap(*c, *s, qty as int) == Some((raw as int, eff as int)),
            None => spec_dynamic_profit_cap(*c, *s, qty as int) is None,
        },
{
    let target = match c.target_profit_usdc {
        None => return None,
        Some(t) => t,
    };
    if qty <= 0 || s.primary_total_qty <= 0 {
        return None;
    }
    let bought: i128 = s.opposite_filled_qty as i128 + qty as i128;
    let redeem: i128 = if (s.primary_total_qty as i128) <= bought { s.primary_total_qty as i128 } else { bought };
    let room: i128 = redeem - (s.primary_total_cost as i128 + s.opposite_total_cost as i128) - target as i128;
    if room <= 0 {
        return None;
    }
    assert(room * 1_000_000 <= 0x10_0000_0000_0000_0000_0000_0000) by (nonlinear_arith)
        requires room <= 0x4_0000_0000_0000_0000, room > 0;
    let effective: i128 = room * 1_000_000 / (qty as i128);
    if effective <= 0 {
        return None;
    }
    let raw: i128 = effective + c.extra_vwap_safety_buffer as i128;
    let raw_cap: i64 = if raw >= 1_000_000 { 999_999 } else { raw as i64 };
    let eff_cap: i64 = if effective >= 1_000_000 { 999_999 } else { effective as i64 };
    Some((raw_cap, eff_cap))
}

fn push_rescue(out: &mut Vec<AvgReboundCandidate>, k: Option<usize>, s: &AvgReboundState, intent: AvgReboundIntent, cap: i64)
    ensures
        final(out)@ == old(out)@.push(rescue_candidate(match k { Some(x) => Some(x as int), None => None }, *s, intent, cap)),
{
    out.push(AvgReboundCandidate {
        primary_side: false,
        intent,
        stage: k,
        tier_or_leg: None,
        qty: s.open_primary_qty,
        vwap_cap: cap,
        records_rejection: false,
    });
}

fn push_profit(out: &mut Vec<AvgReboundCandidate>, c: &AvgReboundConfig, s: &AvgReboundState, stage: Option<usize>)
    requires
        match stage {
            Some(k) => spec_current_stage(*c, *s) == Some(k as int) && k < c.stages@.len(),
            None => spec_current_stage(*c, *s) is None,
        },
    ensures
        final(out)@ == old(out)@ + profit_part(*c, *s),
{
    let ghost before = out@;
    match stage {
        None => {},
        Some(k) => match avg_rebound_next_profit_leg(&c.stages[k], s) {
            None => {},
            Some(l) => {
                if s.open_primary_qty > 0 {
                    let leg = &c.stages[k].profit_legs[l];
                    let qty: i64 = if leg.qty <= s.open_primary_qty { leg.qty } else { s.open_primary_qty };
                    let cap: i64 = match avg_rebound_dynamic_profit_cap(c, s, qty) {
                        Some((raw, _)) => raw,
                        None => leg.opposite_vwap_cap,
                    };
                    out.push(AvgReboundCandidate {
                        primary_side: false,
                        intent: AvgReboundIntent::ProfitPairlock,
                        stage: Some(k),
                        tier_or_leg: Some(l),
                        qty,
                        vwap_cap: cap,
                        records_rejection: true,
                    });
                }
            },
        },
    }
    assert(out@ =~= before + profit_part(*c, *s));
}

fn push_guard(out: &mut Vec<AvgReboundCandidate>, c: &AvgReboundConfig, s: &AvgReboundState, stage: Option<usize>, opposite_price: i64)
    requires
        match stage {
            Some(k) => spec_current_stage(*c, *s) == Some(k as int) && k < c.stages@.len(),
            None => spec_current_stage(*c, *s) is None,
        },
    ensures
        final(out)@ == old(out)@ + guard_part(*c, *s, opposite_price),
{
    let ghost before = out@;
    match stage {
        None => {},
        Some(k) => {
            if s.profit_started && s.open_primary_qty > 0 && c.full_giveback_guard_enabled
                && opposite_price >= c.stages[k].guard_trigger {
                out.push(AvgReboundCandidate {
                    primary_side: false,
                    intent: AvgReboundIntent::GivebackGuard,
                    stage: Some(k),
                    tier_or_leg: None,
                    qty: s.open_primary_qty,
                    vwap_cap: c.stages[k].guard_max_execution_vwap,
                    records_rejection: true,
                });
            }
        },
    }
    assert(out@ =~= before + guard_part(*c, *s, opposite_price));
}

fn push_rescues(out: &mut Vec<AvgReboundCandidate>, c: &AvgReboundConfig, s: &AvgReboundState, stage: Option<usize>)
    requires
        match stage {
            Some(k) => spec_current_stage(*c, *s) == Some(k as int),
            None => spec_current_stage(*c, *s) is None,
        },
    ensures
        final(out)@ == old(out)@ + rescue_part(*c, *s),
{
    let ghost before = out@;
    if s.open_primary_qty > 0 {
        push_rescue(out, stage, s, AvgReboundIntent::NormalRescue, c.rescue.normal_vwap_cap);
        push_rescue(out, stage, s, AvgReboundIntent::EmergencyRescue, c.rescue.emergency_vwap_cap);
        push_rescue(out, stage, s, AvgReboundIntent::HardRescue, c.rescue.hard_max_vwap_cap);
        match c.rescue.last_chance_vwap_cap {
            Some(cap) => push_rescue(out, stage, s, AvgReboundIntent::LastChanceRescue, cap),
            None => {},
        }
    }
    assert(out@ =~= before + rescue_part(*c, *s));
}

fn push_primary(out: &mut Vec<AvgReboundCandidate>, c: &AvgReboundConfig, s: &AvgReboundState)
    ensures
        final(out)@ == old(out)@ + primary_part(*c, *s),
{
    let ghost before = out@;
    let blocked = s.profit_started && (!c.allow_primary_after_partial_profit || s.open_primary_qty <= 100);
    if !blocked {
        match avg_rebound_next_primary_tier(c, s) {
            None => {},
            Some(t) => {
                out.push(AvgReboundCandidate {
                    primary_side: true,
                    intent: AvgReboundIntent::PrimaryLadder,
                    stage: None,
                    tier_or_leg: Some(t),
                    qty: c.primary_ladder[t].qty,
                    vwap_cap: c.primary_ladder[t].price_cap,
                    records_rejection: true,
                });
            },
        }
    }
    assert(out@ =~= before + primary_part(*c, *s));
}

/// The orders a step of the strategy tries, in order (see
/// `spec_avg_rebound_candidates`), given the opposite side's current
/// price.
pub fn avg_rebound_decision_candidates(c: &AvgReboundConfig, s: &AvgReboundState, opposite_price: i64) -> (r: Vec<AvgReboundCandidate>)
    ensures
        r@ == spec_avg_rebound_candidates(*c, *s, opposite_price),
{
    let mut out: Vec<AvgReboundCandidate> = Vec::new();
    let stage = avg_rebound_current_stage(c, s);
    push_profit(&mut out, c, s, stage);
    let ghost after_profit = out@;
    if avg_rebound_full_ladder_filled(c, s) {
        push_guard(&mut out, c, s, stage, opposite_price);
        push_rescues(&mut out, c, s, stage);
        assert(out@ =~= after_profit + (guard_part(*c, *s, opposite_price) + rescue_part(*c, *s)));
    } else {
        assert(out@ =~= after_profit + Seq::<AvgReboundCandidate>::empty());
    }
    let ghost middle = out@;
    push_primary(&mut out, c, s);
    assert(Seq::<AvgReboundCandidate>::empty() + profit_part(*c, *s) == profit_part(*c, *s));
    out
}

/// What a step comes to once the caller priced the candidates in order
/// (`priced[i]` for the `i`-th): the first that priced, and the positions
/// of the failures before it that are reported as rejections.
pub open spec fn spec_avg_rebound_pick(cands: Seq<AvgReboundCandidate>, priced: Seq<bool>, n: int) -> (Option<int>, Seq<int>)
    decreases n,
{
    if n <= 0 {
        (None, Seq::empty())
    } else {
        let (chosen, rejected) = spec_avg_rebound_pick(cands, priced, n - 1);
        if chosen is Some {
            (chosen, rejected)
        } else if priced[n - 1] {
            (Some(n - 1), rejected)
        } else if cands[n - 1].records_rejection {
            (None, rejected.push(n - 1))
        } else {
            (None, rejected)
        }
    }
}

/// The order a step places (by position among the candidates), if any,
/// and the positions of the reported rejections (see
/// `spec_avg_rebound_pick`).
pub fn avg_rebound_pick(cands: &[AvgReboundCandidate], priced: &[bool]) -> (r: (Option<usize>, Vec<usize>))
    requires
        cands.len() == priced.len(),
    ensures
        ({
            let (chosen, rejected) = spec_avg_rebound_pick(cands@, priced@, cands@.len() as int);
            &&& match r.0 { Some(i) => chosen == Some(i as int), None => chosen is None }
            &&& r.1@.len() == rejected.len()
            &&& forall|j: int| 0 <= j < rejected.len() ==> r.1@[j] as int == #[trigger] rejected[j]
        }),
{
    let mut rejected: Vec<usize> = Vec::new();
    let mut i: usize = 0;
    while i < cands.len()
        invariant
            i <= cands.len(),
            cands.len() == priced.len(),
            ({
                let (chosen, rej) = spec_avg_rebound_pick(cands@, priced@, i as int);
                &&& chosen is None
                &&& rejected@.len() == rej.len()
                &&& forall|j: int| 0 <= j < rej.len() ==> rejected@[j] as int == #[trigger] rej[j]
            }),
        decreases cands.len() - i,
    {
        if priced[i] {
            proof { lemma_pick_stays(cands@, priced@, i as int + 1, cands@.len() as int); }
            return (Some(i), rejected);
        }
        if cands[i].records_rejection {
            rejected.push(i);
        }
        i = i + 1;
    }
    (None, rejected)
}

proof fn lemma_pick_stays(cands: Seq<AvgReboundCandidate>, priced: Seq<bool>, m: int, n: int)
    requires
        1 <= m <= n,
        spec_avg_rebound_pick(cands, priced, m).0 is Some,
    ensures
        spec_avg_rebound_pick(cands, priced, n) == spec_avg_rebound_pick(cands, priced, m),
    decreases n - m,
{
    if m < n {
        lemma_pick_stays(cands, priced, m, n - 1);
    }
}

/// Law: a dynamic profit cap keeps the target. When the caps are
/// `Some((raw, eff))`, buying `qty` opposite shares at the effective cap
/// `eff` costs no more than what the pairs then formed redeem for (the
/// primary shares matched by opposite shares, one dollar each) less what the
/// session has spent and the target profit; `eff` is the highest such price
/// in millionths (or the ceiling just below one dollar), and `raw` adds the
/// safety buffer to it under the same ceiling. There is a cap exactly when a
/// target is set, `qty` and the primary position are positive, and that
/// room buys a positive price.
pub proof fn law_dynamic_profit_cap_keeps_the_target(c: AvgReboundConfig, s: AvgReboundState, qty: int)
    ensures
        ({
            let paired = if s.primary_total_qty <= s.opposite_filled_qty + qty { s.primary_total_qty as int } else { s.opposite_filled_qty + qty };
            let spent = s.primary_total_cost + s.opposite_total_cost;
            match spec_dynamic_profit_cap(c, s, qty) {
                Some((raw, eff)) => {
                    &&& c.target_profit_usdc is Some && qty > 0
                    &&& 0 < eff <= 999_999
                    &&& eff * qty <= (paired - spent - c.target_profit_usdc->0) * 1_000_000
                    &&& (eff < 999_999 ==> (eff + 1) * qty > (paired - spent - c.target_profit_usdc->0) * 1_000_000)
                    &&& raw <= 999_999
                    &&& (eff < 999_999 ==> raw == if eff + c.extra_vwap_safety_buffer >= 1_000_000 { 999_999 } else { eff + c.extra_vwap_safety_buffer })
                },
                None => c.target_profit_usdc is None || qty <= 0 || s.primary_total_qty <= 0
                    || (paired - spent - c.target_profit_usdc->0) * 1_000_000 < qty,
            }
        }),
{
    if let Some(target) = c.target_profit_usdc {
        if qty > 0 && s.primary_total_qty > 0 {
            let paired = if s.primary_total_qty <= s.opposite_filled_qty + qty { s.primary_total_qty as int } else { s.opposite_filled_qty + qty };
            let room = paired - (s.primary_total_cost + s.opposite_total_cost) - target;
            if room > 0 {
                let e = room * 1_000_000 / qty;
                assert(e * qty <= room * 1_000_000 && (e + 1) * qty > room * 1_000_000) by (nonlinear_arith)
                    requires e == room * 1_000_000 / qty, qty > 0, room > 0;
                if e >= 1_000_000 {
                    assert(999_999 * qty <= e * qty) by (nonlinear_arith) requires e >= 1_000_000, qty > 0;
                }
                if e <= 0 {
                    assert(room * 1_000_000 < qty) by (nonlinear_arith)
                        requires e == room * 1_000_000 / qty, qty > 0, e <= 0, room > 0;
                }
            } else {
                assert(room * 1_000_000 <= 0) by (nonlinear_arith) requires room <= 0;
            }
        }
    }
}

pub open spec fn is_rescue(i: AvgReboundIntent) -> bool {
    i is NormalRescue || i is EmergencyRescue || i is HardRescue || i is LastChanceRescue
}

/// Law: what each order a step may try stands for. A profit order buys the
/// opposite side under the current stage, for a leg of it not yet held, at
/// most that leg's shares and the open primary shares (some of them). A
/// guard order needs the full ladder, profit taking under way and the
/// opposite price at the stage's trigger, and covers all open
/// shares. Rescue orders need the full ladder and cover all open shares,
/// and their failures are not reported. A primary order buys a tier not yet
/// held, at its shares and cap, and only before profit taking (or after it
/// when allowed with more than a ten-thousandth of a share open); it is
/// always the last order tried.
pub proof fn law_candidates_follow_the_strategy(c: AvgReboundConfig, s: AvgReboundState, opposite_price: i64, i: int)
    requires
        0 <= i < spec_avg_rebound_candidates(c, s, opposite_price).len(),
    ensures
        ({
            let cands = spec_avg_rebound_candidates(c, s, opposite_price);
            let x = cands[i];
            &&& x.intent is ProfitPairlock ==> {
                &&& !x.primary_side && x.records_rejection
                &&& x.stage matches Some(k) && spec_current_stage(c, s) == Some(k as int)
                &&& x.tier_or_leg matches Some(l) && 0 <= l < c.stages@[x.stage->0 as int].profit_legs@.len()
                    && !has_leg(s, c.stages@[x.stage->0 as int].profit_legs@[l as int].id@)
                    && x.qty <= c.stages@[x.stage->0 as int].profit_legs@[l as int].qty
                &&& x.qty <= s.open_primary_qty
                &&& (x.qty == s.open_primary_qty || x.qty == c.stages@[x.stage->0 as int].profit_legs@[x.tier_or_leg->0 as int].qty)
                &&& s.open_primary_qty > 0
                &&& i == 0
            }
            &&& x.intent is GivebackGuard ==> {
                &&& !x.primary_side && full_ladder_filled(c, s) && s.profit_started && c.full_giveback_guard_enabled
                &&& x.stage matches Some(k) && spec_current_stage(c, s) == Some(k as int)
                    && opposite_price >= c.stages@[k as int].guard_trigger
                    && x.vwap_cap == c.stages@[k as int].guard_max_execution_vwap
                &&& x.qty == s.open_primary_qty && x.qty > 0
            }
            &&& is_rescue(x.intent) ==> {
                &&& !x.primary_side && full_ladder_filled(c, s) && !x.records_rejection
                &&& x.qty == s.open_primary_qty && x.qty > 0
            }
            &&& x.intent is PrimaryLadder ==> {
                &&& x.primary_side && x.records_rejection && x.stage is None
                &&& x.tier_or_leg matches Some(t) && 0 <= t < c.primary_ladder@.len()
                    && !has_tier(s, c.primary_ladder@[t as int].id@)
                    && x.qty == c.primary_ladder@[t as int].qty && x.vwap_cap == c.primary_ladder@[t as int].price_cap
                &&& !s.profit_started || (c.allow_primary_after_partial_profit && s.open_primary_qty > 100)
                &&& i == cands.len() - 1
            }
        }),
{
    let pp = profit_part(c, s);
    let mid = if full_ladder_filled(c, s) { guard_part(c, s, opposite_price) + rescue_part(c, s) } else { Seq::<AvgReboundCandidate>::empty() };
    let pr = primary_part(c, s);
    let cands = spec_avg_rebound_candidates(c, s, opposite_price);
    assert(cands == pp + mid + pr);
    lemma_next_leg(c, s);
    lemma_next_tier(c, s, 0);
    assert(c.stages@.len() == c.stages.len());
    assert(c.primary_ladder@.len() == c.primary_ladder.len());
    if spec_current_stage(c, s) is Some {
        let k = spec_current_stage(c, s)->0;
        assert(c.stages@[k].profit_legs@.len() == c.stages@[k].profit_legs.len());
    }
    if i < pp.len() {
        assert(cands[i] == pp[i]);
    } else if i < pp.len() + mid.len() {
        assert(cands[i] == mid[i - pp.len()]);
        if full_ladder_filled(c, s) {
            let g = guard_part(c, s, opposite_price);
            if i - pp.len() < g.len() {
                assert(mid[i - pp.len()] == g[i - pp.len()]);
            } else {
                assert(mid[i - pp.len()] == rescue_part(c, s)[i - pp.len() - g.len()]);
            }
        }
    } else {
        assert(cands[i] == pr[i - pp.len() - mid.len()]);
    }
}

proof fn lemma_next_leg(c: AvgReboundConfig, s: AvgReboundState)
    ensures
        spec_current_stage(c, s) matches Some(k) ==> (0 <= k < c.stages@.len()
            && (next_leg_from(c.stages@[k], s, 0) matches Some(l) ==> 0 <= l < c.stages@[k].profit_legs@.len()
                && !has_leg(s, c.stages@[k].profit_legs@[l].id@))),
{
    lemma_current_stage_in(c.stages@, s, c.stages@.len() as int);
    if spec_current_stage(c, s) is Some {
        let k = spec_current_stage(c, s)->0;
        lemma_next_leg_from(c.stages@[k], s, 0);
    }
}

proof fn lemma_current_stage_in(stages: Seq<AvgReboundStage>, s: AvgReboundState, n: int)
    ensures
        current_stage_in(stages, s, n) matches Some(k) ==> 0 <= k < n && k < stages.len(),
    decreases n,
{
    if 0 < n <= stages.len() {
        lemma_current_stage_in(stages, s, n - 1);
    }
}

proof fn lemma_next_leg_from(st: AvgReboundStage, s: AvgReboundState, i: int)
    ensures
        next_leg_from(st, s, i) matches Some(l) ==> i <= l < st.profit_legs@.len() && !has_leg(s, st.profit_legs@[l].id@),
    decreases st.profit_legs@.len() - i,
{
    if 0 <= i < st.profit_legs@.len() && has_leg(s, st.profit_legs@[i].id@) {
        lemma_next_leg_from(st, s, i + 1);
    }
}

proof fn lemma_next_tier(c: AvgReboundConfig, s: AvgReboundState, i: int)
    ensures
        next_tier_from(c, s, i) matches Some(t) ==> i <= t < c.primary_ladder@.len() && !has_tier(s, c.primary_ladder@[t].id@),
    decreases c.primary_ladder@.len() - i,
{
    if 0 <= i < c.primary_ladder@.len() && has_tier(s, c.primary_ladder@[i].id@) {
        lemma_next_tier(c, s, i + 1);
    }
}

/// Law: once the primary ladder is full and primary shares are open, a
/// step always has its rescues to try (normal, emergency and hard, in that
/// order, then the last chance where set); before the ladder is full it
/// has no guard and no rescue.
pub proof fn law_rescues_exactly_after_the_full_ladder(c: AvgReboundConfig, s: AvgReboundState, opposite_price: i64)
    ensures
        ({
            let cands = spec_avg_rebound_candidates(c, s, opposite_price);
            let start: int = profit_part(c, s).len() as int + guard_part(c, s, opposite_price).len() as int;
            &&& (full_ladder_filled(c, s) && s.open_primary_qty > 0) ==> {
                &&& start + 3 <= cands.len()
                &&& cands[start].intent is NormalRescue && cands[start].vwap_cap == c.rescue.normal_vwap_cap
                &&& cands[start + 1].intent is EmergencyRescue && cands[start + 1].vwap_cap == c.rescue.emergency_vwap_cap
                &&& cands[start + 2].intent is HardRescue && cands[start + 2].vwap_cap == c.rescue.hard_max_vwap_cap
            }
            &&& !full_ladder_filled(c, s) ==> forall|i: int| 0 <= i < cands.len() ==> !is_rescue(#[trigger] cands[i].intent) && !(cands[i].intent is GivebackGuard)
        }),
{
    let pp = profit_part(c, s);
    let pr = primary_part(c, s);
    let cands = spec_avg_rebound_candidates(c, s, opposite_price);
    if full_ladder_filled(c, s) {
        let g = guard_part(c, s, opposite_price);
        let rs = rescue_part(c, s);
        assert(cands == pp + (g + rs) + pr);
        if s.open_primary_qty > 0 {
            assert(rs.len() >= 3);
            assert(cands[pp.len() + g.len() as int] == rs[0]);
            assert(cands[pp.len() + g.len() + 1int] == rs[1]);
            assert(cands[pp.len() + g.len() + 2int] == rs[2]);
        }
    } else {
        assert(cands == pp + Seq::<AvgReboundCandidate>::empty() + pr);
        assert forall|i: int| 0 <= i < cands.len() implies !is_rescue(#[trigger] cands[i].intent) && !(cands[i].intent is GivebackGuard) by {
            if i < pp.len() {
                assert(cands[i] == pp[i]);
            } else {
                assert(cands[i] == pr[i - pp.len()]);
            }
        }
    }
}

} // verus!
