//! The diagnosis of an auto-scope trade: which causes the trade's evidence
//! points to, in order of precedence, and the primary and secondary one.
//! Amounts in millionths of a USDC, durations in milliseconds.
use vstd::prelude::*;
use crate::text::str_eq;

verus! {

broadcast use vstd::string::group_string_axioms;

/// What a finished (or still open) trade shows.
pub struct AutoScopeDiagnosticEvidence {
    pub total_pnl_usdc: i64,
    pub fee_drag_usdc: i64,
    pub cost_basis_usdc: i64,
    pub entry_slippage_usdc: Option<i64>,
    pub exit_reason: Option<String>,
    pub gave_back_usdc: Option<i64>,
    pub max_adverse_usdc: Option<i64>,
    pub open_to_trigger_ms: Option<i64>,
    pub trigger_to_buy_fill_ms: Option<i64>,
    pub submit_to_fill_ms: Option<i64>,
    pub thin_liquidity_signal: bool,
    pub is_open_position: bool,
}

/// A cause a trade's evidence may point to: a code, a short label and a
/// sentence, the last two for the operator's screen.
#[derive(Clone, Copy)]
pub struct AutoScopeDiagnosisCandidate {
    pub code: &'static str,
    pub label: &'static str,
    pub detail: &'static str,
}

/// A candidate as text.
pub open spec fn candidate_view(c: AutoScopeDiagnosisCandidate) -> (Seq<char>, Seq<char>, Seq<char>) {
    (c.code@, c.label@, c.detail@)
}

pub open spec fn candidate_views(cs: Seq<AutoScopeDiagnosisCandidate>) -> Seq<(Seq<char>, Seq<char>, Seq<char>)> {
    cs.map_values(|c: AutoScopeDiagnosisCandidate| candidate_view(c))
}

pub open spec fn take_profit_success() -> (Seq<char>, Seq<char>, Seq<char>) {
    ("take_profit_success"@, "TP basarili"@, "Pozisyon karda kapanmis ve cikis nedeni TP olarak gorunuyor."@)
}

pub open spec fn clean_win() -> (Seq<char>, Seq<char>, Seq<char>) {
    ("clean_win"@, "Temiz kar"@, "Trade net karda; belirgin zarar nedeni yok."@)
}

pub open spec fn break_even() -> (Seq<char>, Seq<char>, Seq<char>) {
    ("unknown"@, "Basa bas"@, "PnL sifira cok yakin; net kar/zarar nedeni ayrismiyor."@)
}

pub open spec fn unrealized_mark_loss() -> (Seq<char>, Seq<char>, Seq<char>) {
    ("unrealized_mark_loss"@, "Acik pozisyon mark zarari"@, "Pozisyon kapanmamis; zarar mevcut mark/canli fiyatla hesaplandi."@)
}

pub open spec fn bad_entry_price() -> (Seq<char>, Seq<char>, Seq<char>) {
    ("bad_entry_price"@, "Kotu giris fiyati"@, "Fill fiyati referans fiyata gore pahali kalmis."@)
}

pub open spec fn late_entry() -> (Seq<char>, Seq<char>, Seq<char>) {
    ("late_entry"@, "Gec giris"@, "Market acilisindan tetiklenmeye kadar gecikme yuksek."@)
}

pub open spec fn slow_fill() -> (Seq<char>, Seq<char>, Seq<char>) {
    ("slow_fill"@, "Yavas fill"@, "Tetikten veya submitten fill'e kadar gecen sure yuksek."@)
}

pub open spec fn thin_liquidity() -> (Seq<char>, Seq<char>, Seq<char>) {
    ("thin_liquidity"@, "Ince likidite"@, "Submit sirasinda derinlik/visible qty sinyali zayif gorunuyor."@)
}

pub open spec fn fee_drag() -> (Seq<char>, Seq<char>, Seq<char>) {
    ("fee_drag"@, "Fee zarari buyuttu"@, "Toplam fee, zarar tutarinin anlamli bir kismini olusturuyor."@)
}

pub open spec fn exit_too_late() -> (Seq<char>, Seq<char>, Seq<char>) {
    ("exit_too_late"@, "Cikista gec kalindi"@, "Trade once daha iyi fiyati gormus, kapanista bu avantaji geri vermis."@)
}

pub open spec fn market_reversal() -> (Seq<char>, Seq<char>, Seq<char>) {
    ("market_reversal"@, "Market ters dondu"@, "Hold sirasinda fiyat entry seviyesine gore belirgin ters hareket etmis."@)
}

pub open spec fn stop_loss_expected() -> (Seq<char>, Seq<char>, Seq<char>) {
    ("stop_loss_expected"@, "Stop loss beklenen zarar"@, "Pozisyon SL ile kapanmis; zarar stratejinin stop tarafindan uretilmis."@)
}

pub open spec fn no_clear_cause() -> (Seq<char>, Seq<char>, Seq<char>) {
    ("unknown"@, "Net neden yok"@, "Mevcut kayitlarla zarar nedeni tek bir sinyale indirgenemedi."@)
}

pub open spec fn when(cond: bool, c: (Seq<char>, Seq<char>, Seq<char>)) -> Seq<(Seq<char>, Seq<char>, Seq<char>)> {
    if cond { seq![c] } else { Seq::empty() }
}

/// The loss of the trade, as a positive amount (zero for a gain).
pub open spec fn loss_abs(e: AutoScopeDiagnosticEvidence) -> int {
    if e.total_pnl_usdc < 0 { -e.total_pnl_usdc } else { 0 }
}

pub open spec fn opt_or_zero(v: Option<i64>) -> int {
    match v {
        Some(x) => x as int,
        None => 0,
    }
}

pub open spec fn exceeds(v: Option<i64>, limit: int) -> bool {
    v matches Some(x) && x > limit
}

pub open spec fn exit_reason_is(e: AutoScopeDiagnosticEvidence, reason: Seq<char>) -> bool {
    e.exit_reason matches Some(r) && r@ == reason
}

pub open spec fn nonneg(x: int) -> int {
    if x < 0 { 0 } else { x }
}

/// A bad entry price: slippage of 0.02 or more, or of 1.5% of the cost
/// basis (at least one millionth) or more.
pub open spec fn is_bad_entry(e: AutoScopeDiagnosticEvidence) -> bool {
    let cost_basis: int = if e.cost_basis_usdc < 1 { 1 } else { e.cost_basis_usdc as int };
    let slip = nonneg(opt_or_zero(e.entry_slippage_usdc));
    slip >= 20_000 || 1000 * slip >= 15 * cost_basis
}

/// A slow fill: more than 3 s from the trigger, else from the submit, to
/// the fill.
pub open spec fn is_slow_fill(e: AutoScopeDiagnosticEvidence) -> bool {
    let fill_ms = match e.trigger_to_buy_fill_ms {
        Some(v) => Some(v),
        None => e.submit_to_fill_ms,
    };
    exceeds(fill_ms, 3_000)
}

/// Fees that made up half of the loss or more, or at least four fifths of
/// it.
pub open spec fn is_fee_drag(e: AutoScopeDiagnosticEvidence) -> bool {
    let fee = e.fee_drag_usdc as int;
    let loss = loss_abs(e);
    fee > 0 && (2 * fee >= loss || 4 * loss <= 5 * fee)
}

/// More than 0.02 given back after the best price, at least four fifths of
/// the loss.
pub open spec fn is_exit_too_late(e: AutoScopeDiagnosticEvidence) -> bool {
    let gave_back = nonneg(opt_or_zero(e.gave_back_usdc));
    gave_back > 20_000 && 5 * gave_back >= 4 * loss_abs(e)
}

/// An adverse move of more than 0.02, at least four fifths of the loss.
pub open spec fn is_market_reversal(e: AutoScopeDiagnosticEvidence) -> bool {
    let adverse = nonneg(-opt_or_zero(e.max_adverse_usdc));
    adverse > 20_000 && 5 * adverse >= 4 * loss_abs(e)
}

/// The causes of a losing trade, in order: an open position marked at a
/// loss; a bad entry price; a late entry (more than 90 s from the market's
/// opening to the trigger); a slow fill; thin liquidity; fee drag; an exit
/// too late; a market reversal; an expected stop loss (exit reason `sl`).
/// With none of these, no clear cause.
pub open spec fn losing_causes(e: AutoScopeDiagnosticEvidence) -> Seq<(Seq<char>, Seq<char>, Seq<char>)> {
    let causes = when(e.is_open_position, unrealized_mark_loss())
        + when(is_bad_entry(e), bad_entry_price())
        + when(exceeds(e.open_to_trigger_ms, 90_000), late_entry())
        + when(is_slow_fill(e), slow_fill())
        + when(e.thin_liquidity_signal, thin_liquidity())
        + when(is_fee_drag(e), fee_drag())
        + when(is_exit_too_late(e), exit_too_late())
        + when(is_market_reversal(e), market_reversal())
        + when(exit_reason_is(e, "sl"@), stop_loss_expected());
    if causes.len() == 0 { seq![no_clear_cause()] } else { causes }
}

/// The diagnosis candidates of a trade: a gain above 0.0001 is a take-profit
/// success (exit reason `tp`) or a clean win; within 0.0001 of zero it is
/// break-even; a loss has the causes of `losing_causes`.
pub open spec fn spec_diagnosis_candidates(e: AutoScopeDiagnosticEvidence) -> Seq<(Seq<char>, Seq<char>, Seq<char>)> {
    if e.total_pnl_usdc > 100 {
        if exit_reason_is(e, "tp"@) { seq![take_profit_success()] } else { seq![clean_win()] }
    } else if e.total_pnl_usdc >= -100 {
        seq![break_even()]
    } else {
        losing_causes(e)
    }
}

fn push_when(out: &mut Vec<AutoScopeDiagnosisCandidate>, cond: bool, c: AutoScopeDiagnosisCandidate)
    ensures
        candidate_views(final(out)@) == candidate_views(old(out)@) + when(cond, candidate_view(c)),
{
    if cond {
        out.push(c);
    }
    assert(candidate_views(out@) =~= candidate_views(old(out)@) + when(cond, candidate_view(c)));
}

fn exit_reason_equals(e: &AutoScopeDiagnosticEvidence, reason: &str) -> (r: bool)
    ensures
        r == exit_reason_is(*e, reason@),
{
    match &e.exit_reason {
        Some(x) => str_eq(x.as_str(), reason),
        None => false,
    }
}

fn opt_exceeds(v: Option<i64>, limit: i64) -> (r: bool)
    ensures
        r == exceeds(v, limit as int),
{
    match v {
        Some(x) => x > limit,
        None => false,
    }
}

fn bad_entry(e: &AutoScopeDiagnosticEvidence) -> (r: bool)
    ensures
        r == is_bad_entry(*e),
{
    let cost_basis: i128 = if e.cost_basis_usdc < 1 { 1 } else { e.cost_basis_usdc as i128 };
    let raw: i128 = match e.entry_slippage_usdc { Some(v) => v as i128, None => 0 };
    let slip: i128 = if raw < 0 { 0 } else { raw };
    slip >= 20_000 || 1000 * slip >= 15 * cost_basis
}

fn slow_fill_seen(e: &AutoScopeDiagnosticEvidence) -> (r: bool)
    ensures
        r == is_slow_fill(*e),
{
    let fill_ms = match e.trigger_to_buy_fill_ms {
        Some(v) => Some(v),
        None => e.submit_to_fill_ms,
    };
    opt_exceeds(fill_ms, 3_000)
}

fn loss_of(e: &AutoScopeDiagnosticEvidence) -> (r: i128)
    ensures
        r == loss_abs(*e),
        0 <= r <= 0x8000_0000_0000_0000,
{
    let total = e.total_pnl_usdc as i128;
    if total < 0 { 0 - total } else { 0 }
}

fn fee_drag_seen(e: &AutoScopeDiagnosticEvidence) -> (r: bool)
    ensures
        r == is_fee_drag(*e),
{
    let fee = e.fee_drag_usdc as i128;
    let loss = loss_of(e);
    fee > 0 && (2 * fee >= loss || 4 * loss <= 5 * fee)
}

fn exit_too_late_seen(e: &AutoScopeDiagnosticEvidence) -> (r: bool)
    ensures
        r == is_exit_too_late(*e),
{
    let raw: i128 = match e.gave_back_usdc { Some(v) => v as i128, None => 0 };
    let gave_back: i128 = if raw < 0 { 0 } else { raw };
    gave_back > 20_000 && 5 * gave_back >= 4 * loss_of(e)
}

fn market_reversal_seen(e: &AutoScopeDiagnosticEvidence) -> (r: bool)
    ensures
        r == is_market_reversal(*e),
{
    let raw: i128 = match e.max_adverse_usdc { Some(v) => v as i128, None => 0 };
    let adverse: i128 = if raw < 0 { 0 - raw } else { 0 };
    adverse > 20_000 && 5 * adverse >= 4 * loss_of(e)
}

fn losing_causes_of(e: &AutoScopeDiagnosticEvidence) -> (r: Vec<AutoScopeDiagnosisCandidate>)
    ensures
        candidate_views(r@) == losing_causes(*e),
{
    let mut out: Vec<AutoScopeDiagnosisCandidate> = Vec::new();
    assert(candidate_views(out@) =~= Seq::<(Seq<char>, Seq<char>, Seq<char>)>::empty());
    push_when(&mut out, e.is_open_position, AutoScopeDiagnosisCandidate {
        code: "unrealized_mark_loss",
        label: "Acik pozisyon mark zarari",
        detail: "Pozisyon kapanmamis; zarar mevcut mark/canli fiyatla hesaplandi.",
    });
    push_when(&mut out, bad_entry(e), AutoScopeDiagnosisCandidate {
        code: "bad_entry_price",
        label: "Kotu giris fiyati",
        detail: "Fill fiyati referans fiyata gore pahali kalmis.",
    });
    push_when(&mut out, opt_exceeds(e.open_to_trigger_ms, 90_000), AutoScopeDiagnosisCandidate {
        code: "late_entry",
        label: "Gec giris",
        detail: "Market acilisindan tetiklenmeye kadar gecikme yuksek.",
    });
    push_when(&mut out, slow_fill_seen(e), AutoScopeDiagnosisCandidate {
        code: "slow_fill",
        label: "Yavas fill",
        detail: "Tetikten veya submitten fill'e kadar gecen sure yuksek.",
    });
    push_when(&mut out, e.thin_liquidity_signal, AutoScopeDiagnosisCandidate {
        code: "thin_liquidity",
        label: "Ince likidite",
        detail: "Submit sirasinda derinlik/visible qty sinyali zayif gorunuyor.",
    });
    push_when(&mut out, fee_drag_seen(e), AutoScopeDiagnosisCandidate {
        code: "fee_drag",
        label: "Fee zarari buyuttu",
        detail: "Toplam fee, zarar tutarinin anlamli bir kismini olusturuyor.",
    });
    push_when(&mut out, exit_too_late_seen(e), AutoScopeDiagnosisCandidate {
        code: "exit_too_late",
        label: "Cikista gec kalindi",
        detail: "Trade once daha iyi fiyati gormus, kapanista bu avantaji geri vermis.",
    });
    push_when(&mut out, market_reversal_seen(e), AutoScopeDiagnosisCandidate {
        code: "market_reversal",
        label: "Market ters dondu",
        detail: "Hold sirasinda fiyat entry seviyesine gore belirgin ters hareket etmis.",
    });
    push_when(&mut out, exit_reason_equals(e, "sl"), AutoScopeDiagnosisCandidate {
        code: "stop_loss_expected",
        label: "Stop loss beklenen zarar",
        detail: "Pozisyon SL ile kapanmis; zarar stratejinin stop tarafindan uretilmis.",
    });
    if out.len() == 0 {
        out.push(AutoScopeDiagnosisCandidate {
            code: "unknown",
            label: "Net neden yok",
            detail: "Mevcut kayitlarla zarar nedeni tek bir sinyale indirgenemedi.",
        });
        assert(candidate_views(out@) =~= seq![no_clear_cause()]);
    }
    out
}

pub fn trade_builder_analysis_diagnosis_candidates(evidence: &AutoScopeDiagnosticEvidence) -> (r: Vec<AutoScopeDiagnosisCandidate>)
    ensures
        candidate_views(r@) == spec_diagnosis_candidates(*evidence),
{
    let mut out: Vec<AutoScopeDiagnosisCandidate> = Vec::new();
    if evidence.total_pnl_usdc > 100 {
        if exit_reason_equals(evidence, "tp") {
            out.push(AutoScopeDiagnosisCandidate {
                code: "take_profit_success",
                label: "TP basarili",
                detail: "Pozisyon karda kapanmis ve cikis nedeni TP olarak gorunuyor.",
            });
            assert(candidate_views(out@) =~= seq![take_profit_success()]);
        } else {
            out.push(AutoScopeDiagnosisCandidate {
                code: "clean_win",
                label: "Temiz kar",
                detail: "Trade net karda; belirgin zarar nedeni yok.",
            });
            assert(candidate_views(out@) =~= seq![clean_win()]);
        }
        return out;
    }
    if evidence.total_pnl_usdc >= -100 {
        out.push(AutoScopeDiagnosisCandidate {
            code: "unknown",
            label: "Basa bas",
            detail: "PnL sifira cok yakin; net kar/zarar nedeni ayrismiyor.",
        });
        assert(candidate_views(out@) =~= seq![break_even()]);
        return out;
    }
    losing_causes_of(evidence)
}

/// The first candidate after the first whose code differs from the first's.
pub open spec fn secondary_index(cs: Seq<(Seq<char>, Seq<char>, Seq<char>)>, from: int) -> Option<int>
    decreases cs.len() - from,
{
    if from < 1 || from >= cs.len() {
        None
    } else if cs[from].0 != cs[0].0 {
        Some(from)
    } else {
        secondary_index(cs, from + 1)
    }
}

/// The diagnosis of a trade: the code, label and detail of its first
/// candidate, and the code of the first later candidate with another code.
pub open spec fn spec_choose_diagnosis(e: AutoScopeDiagnosticEvidence) -> (Seq<char>, Option<Seq<char>>, Seq<char>, Seq<char>) {
    let cs = spec_diagnosis_candidates(e);
    let primary = cs[0];
    let secondary = match secondary_index(cs, 1) {
        Some(i) => Some(cs[i].0),
        None => None,
    };
    (primary.0, secondary, primary.1, primary.2)
}

/// There is always a first candidate.
pub proof fn lemma_candidates_non_empty(e: AutoScopeDiagnosticEvidence)
    ensures
        spec_diagnosis_candidates(e).len() >= 1,
{
}

proof fn lemma_secondary_index(cs: Seq<(Seq<char>, Seq<char>, Seq<char>)>, from: int)
    ensures
        match secondary_index(cs, from) {
            Some(i) => 1 <= i < cs.len() && cs[i].0 != cs[0].0,
            None => true,
        },
    decreases cs.len() - from,
{
    if 1 <= from < cs.len() && cs[from].0 == cs[0].0 {
        lemma_secondary_index(cs, from + 1);
    }
}

/// Law: every trade gets a diagnosis, and a secondary diagnosis, where
/// there is one, names another cause than the primary.
pub proof fn law_secondary_diagnosis_differs(e: AutoScopeDiagnosticEvidence)
    ensures
        spec_diagnosis_candidates(e).len() >= 1,
        spec_choose_diagnosis(e).1 matches Some(s) ==> s != spec_choose_diagnosis(e).0,
{
    lemma_secondary_index(spec_diagnosis_candidates(e), 1);
}

pub fn trade_builder_analysis_choose_diagnosis(evidence: &AutoScopeDiagnosticEvidence) -> (r: (String, Option<String>, String, String))
    ensures
        ({
            let (code, secondary, label, detail) = spec_choose_diagnosis(*evidence);
            &&& r.0@ == code
            &&& r.2@ == label
            &&& r.3@ == detail
            &&& match r.1 {
                Some(s) => secondary == Some(s@),
                None => secondary is None,
            }
        }),
{
    let candidates = trade_builder_analysis_diagnosis_candidates(evidence);
    let ghost cs = spec_diagnosis_candidates(*evidence);
    proof {
        lemma_candidates_non_empty(*evidence);
    }
    assert(candidate_views(candidates@).len() == candidates@.len());
    assert(candidate_views(candidates@)[0] == candidate_view(candidates@[0]));
    let primary = candidates[0];
    let mut secondary: Option<String> = None;
    let mut i: usize = 1;
    while i < candidates.len()
        invariant
            1 <= i <= candidates.len(),
            candidate_views(candidates@) == cs,
            cs == spec_diagnosis_candidates(*evidence),
            cs.len() == candidates@.len(),
            primary == candidates@[0],
            cs[0] == candidate_view(primary),
            secondary is None,
            secondary_index(cs, 1) == secondary_index(cs, i as int),
        decreases candidates.len() - i,
    {
        assert(cs[i as int] == candidate_view(candidates@[i as int]));
        if !str_eq(candidates[i].code, primary.code) {
            secondary = Some(candidates[i].code.to_string());
            assert(secondary_index(cs, i as int) == Some(i as int));
            return (primary.code.to_string(), secondary, primary.label.to_string(), primary.detail.to_string());
        }
        i = i + 1;
    }
    (primary.code.to_string(), secondary, primary.label.to_string(), primary.detail.to_string())
}

/// Two pieces of evidence that differ at most in which text object holds
/// the exit reason.
pub open spec fn same_evidence(a: AutoScopeDiagnosticEvidence, b: AutoScopeDiagnosticEvidence) -> bool {
    &&& a.total_pnl_usdc == b.total_pnl_usdc
    &&& a.fee_drag_usdc == b.fee_drag_usdc
    &&& a.cost_basis_usdc == b.cost_basis_usdc
    &&& a.entry_slippage_usdc == b.entry_slippage_usdc
    &&& (match (a.exit_reason, b.exit_reason) {
        (Some(x), Some(y)) => x@ == y@,
        (None, None) => true,
        _ => false,
    })
    &&& a.gave_back_usdc == b.gave_back_usdc
    &&& a.max_adverse_usdc == b.max_adverse_usdc
    &&& a.open_to_trigger_ms == b.open_to_trigger_ms
    &&& a.trigger_to_buy_fill_ms == b.trigger_to_buy_fill_ms
    &&& a.submit_to_fill_ms == b.submit_to_fill_ms
    &&& a.thin_liquidity_signal == b.thin_liquidity_signal
    &&& a.is_open_position == b.is_open_position
}

/// The diagnosis reads the exit reason by its text only.
pub proof fn lemma_same_evidence_same_diagnosis(a: AutoScopeDiagnosticEvidence, b: AutoScopeDiagnosticEvidence)
    requires
        same_evidence(a, b),
    ensures
        spec_diagnosis_candidates(a) == spec_diagnosis_candidates(b),
        spec_choose_diagnosis(a) == spec_choose_diagnosis(b),
{
    assert(exit_reason_is(a, "tp"@) == exit_reason_is(b, "tp"@));
    assert(exit_reason_is(a, "sl"@) == exit_reason_is(b, "sl"@));
    assert(losing_causes(a) == losing_causes(b));
}

} // verus!
