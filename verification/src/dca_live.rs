//! The live DCA node: which outcomes it buys, the trigger it is bound to,
//! and the execution it returns when it is blocked.
use vstd::prelude::*;
use crate::flow::{
    TradeFlowNode, TradeFlowGraphRuntime, TradeFlowNodeExecution, TradeFlowEdge, node_config_string,
    flow_context_view, flow_context_string, flow_node, node_index, node_config_f64, spec_node_config_micros,
};
use crate::analysis_pnl::{round_half_away, round_div};
use crate::decimal::{wide_micros_json, wide_micros_value};
use crate::json::{
    JsonValue, JsonView, opt_as_str, opt_get, view_members, members_get, set_first, push_member,
    members_with_first_set, lemma_view_members,
};
use crate::text::{str_eq, lower, trim, trimmed_lower, trimmed_non_empty, eq_ignore_case, trimmed, eq_ignore_ascii_case};
use crate::time::{rfc3339_instant_micros, parse_rfc3339_micros, rfc3339_text, format_rfc3339_micros, in_chrono_range, utc_now_micros};

verus! {

broadcast use vstd::string::group_string_axioms;

/// One outcome that the DCA node buys.
pub struct DcaLiveSelectedOutcome {
    pub market_slug: String,
    pub outcome_label: String,
    pub token_id: String,
}

pub open spec fn outcome_view(o: DcaLiveSelectedOutcome) -> (Seq<char>, Seq<char>, Seq<char>) {
    (o.market_slug@, o.outcome_label@, o.token_id@)
}

/// The non-blank trimmed text of a string document.
pub open spec fn doc_text(v: Option<JsonView>) -> Option<Seq<char>> {
    match opt_as_str(v) {
        Some(s) => if trim(s).len() > 0 { Some(trim(s)) } else { None },
        None => None,
    }
}

/// The first of two or three members that is present.
pub open spec fn first_present(a: Option<JsonView>, b: Option<JsonView>) -> Option<JsonView> {
    match a {
        Some(v) => Some(v),
        None => b,
    }
}

/// An outcome read from a `selectedOutcomes` row: its market (the row's
/// `slug`, else the flow's market), its label (`outcomeLabel`, `outcome` or
/// `label`, whichever is present first) and its token (`tokenId` or
/// `token_id`); labels and tokens must be non-blank strings.
pub open spec fn spec_selected_outcome(value: JsonView, context: JsonView) -> Option<(Seq<char>, Seq<char>, Seq<char>)> {
    if !(value is Object) {
        None
    } else {
        let slug = match doc_text(value.get("slug"@)) {
            Some(s) => Some(s),
            None => opt_as_str(opt_get(flow_context_view(context), "marketSlug"@)),
        };
        let label = doc_text(first_present(value.get("outcomeLabel"@), first_present(value.get("outcome"@), value.get("label"@))));
        let token = doc_text(first_present(value.get("tokenId"@), value.get("token_id"@)));
        match (slug, label, token) {
            (Some(s), Some(l), Some(t)) => Some((s, l, t)),
            _ => None,
        }
    }
}

fn doc_text_of(v: Option<&JsonValue>) -> (r: Option<String>)
    ensures
        crate::order::opt_text(r) == doc_text(crate::json::opt_view(v)),
{
    match v {
        Some(d) => match d.as_str() {
            Some(s) => trimmed_non_empty(s),
            None => None,
        },
        None => None,
    }
}

fn first_present_of<'a>(a: Option<&'a JsonValue>, b: Option<&'a JsonValue>) -> (r: Option<&'a JsonValue>)
    ensures
        crate::json::opt_view(r) == first_present(crate::json::opt_view(a), crate::json::opt_view(b)),
{
    match a {
        Some(v) => Some(v),
        None => b,
    }
}

pub fn dca_live_selected_outcome_from_value(value: &JsonValue, context: &JsonValue) -> (r: Option<DcaLiveSelectedOutcome>)
    ensures
        match r {
            Some(o) => spec_selected_outcome(value@, context@) == Some(outcome_view(o)),
            None => spec_selected_outcome(value@, context@) is None,
        },
{
    match value {
        JsonValue::Object(_) => {},
        _ => return None,
    }
    let market_slug = match doc_text_of(value.get("slug")) {
        Some(s) => s,
        None => match flow_context_string(context, "marketSlug") {
            Some(s) => s,
            None => return None,
        },
    };
    let label_value = first_present_of(value.get("outcomeLabel"), first_present_of(value.get("outcome"), value.get("label")));
    let outcome_label = match doc_text_of(label_value) {
        Some(s) => s,
        None => return None,
    };
    let token_value = first_present_of(value.get("tokenId"), value.get("token_id"));
    let token_id = match doc_text_of(token_value) {
        Some(s) => s,
        None => return None,
    };
    Some(DcaLiveSelectedOutcome { market_slug, outcome_label, token_id })
}

/// The outcomes read from the rows, skipping rows that do not read.
pub open spec fn selected_outcomes_of_rows(rows: Seq<JsonView>, context: JsonView) -> Seq<(Seq<char>, Seq<char>, Seq<char>)>
    decreases rows.len(),
{
    if rows.len() == 0 {
        Seq::empty()
    } else {
        match spec_selected_outcome(rows.last(), context) {
            Some(o) => selected_outcomes_of_rows(rows.drop_last(), context).push(o),
            None => selected_outcomes_of_rows(rows.drop_last(), context),
        }
    }
}

/// The outcomes of a DCA node: those of its `selectedOutcomes` rows; when
/// none reads, the single outcome that the node and the flow context name
/// (market: `manualSlug`, `marketSlug`, the flow's market; token and label:
/// the node's, else the flow's), if all three are known.
pub open spec fn spec_selected_outcomes(config: JsonView, context: JsonView) -> Seq<(Seq<char>, Seq<char>, Seq<char>)> {
    let from_rows = match config.get("selectedOutcomes"@) {
        Some(JsonView::Array(rows)) => selected_outcomes_of_rows(rows, context),
        _ => Seq::empty(),
    };
    if from_rows.len() > 0 {
        from_rows
    } else {
        let fc = flow_context_view(context);
        let slug = match opt_as_str(config.get("manualSlug"@)) {
            Some(s) => Some(s),
            None => match opt_as_str(config.get("marketSlug"@)) {
                Some(s) => Some(s),
                None => opt_as_str(opt_get(fc, "marketSlug"@)),
            },
        };
        let token = match opt_as_str(config.get("tokenId"@)) {
            Some(s) => Some(s),
            None => opt_as_str(opt_get(fc, "tokenId"@)),
        };
        let label = match opt_as_str(config.get("outcomeLabel"@)) {
            Some(s) => Some(s),
            None => opt_as_str(opt_get(fc, "outcomeLabel"@)),
        };
        match (slug, token, label) {
            (Some(s), Some(t), Some(l)) => seq![(s, l, t)],
            _ => Seq::empty(),
        }
    }
}

fn opt_or(a: Option<String>, b: Option<String>) -> (r: Option<String>)
    ensures
        crate::order::opt_text(r) == match crate::order::opt_text(a) {
            Some(s) => Some(s),
            None => crate::order::opt_text(b),
        },
{
    match a {
        Some(s) => Some(s),
        None => b,
    }
}

pub fn dca_live_selected_outcomes(node: &TradeFlowNode, context: &JsonValue) -> (r: Vec<DcaLiveSelectedOutcome>)
    ensures
        r@.map_values(|o: DcaLiveSelectedOutcome| outcome_view(o)) == spec_selected_outcomes(node.config@, context@),
{
    let mut outcomes: Vec<DcaLiveSelectedOutcome> = Vec::new();
    let ghost from_rows: Seq<(Seq<char>, Seq<char>, Seq<char>)> = Seq::empty();
    match node.config.get("selectedOutcomes") {
        Some(JsonValue::Array(rows)) => {
            let ghost rv = crate::json::view_items(rows@);
            proof {
                crate::json::lemma_view_items(rows@);
                assert(node.config@.get("selectedOutcomes"@) == Some(JsonView::Array(rv)));
            }
            let mut i: usize = 0;
            while i < rows.len()
                invariant
                    i <= rows.len(),
                    rv == crate::json::view_items(rows@),
                    rv.len() == rows.len(),
                    forall|k: int| 0 <= k < rows.len() ==> #[trigger] rv[k] == rows@[k]@,
                    outcomes@.map_values(|o: DcaLiveSelectedOutcome| outcome_view(o))
                        == selected_outcomes_of_rows(rv.subrange(0, i as int), context@),
                decreases rows.len() - i,
            {
                let ghost before = outcomes@;
                proof {
                    let p = rv.subrange(0, i + 1);
                    assert(p.drop_last() =~= rv.subrange(0, i as int));
                    assert(p.last() == rows@[i as int]@);
                }
                match dca_live_selected_outcome_from_value(&rows[i], context) {
                    Some(o) => {
                        outcomes.push(o);
                        proof {
                            assert(outcomes@.map_values(|o: DcaLiveSelectedOutcome| outcome_view(o))
                                =~= before.map_values(|o: DcaLiveSelectedOutcome| outcome_view(o)).push(outcome_view(outcomes@.last())));
                        }
                    },
                    None => {},
                }
                i = i + 1;
            }
            proof {
                assert(rv.subrange(0, rows.len() as int) =~= rv);
                from_rows = selected_outcomes_of_rows(rv, context@);
            }
        },
        _ => {},
    }
    assert(outcomes@.map_values(|o: DcaLiveSelectedOutcome| outcome_view(o)) == from_rows);
    if outcomes.len() > 0 {
        return outcomes;
    }
    let market_slug = opt_or(node_config_string(node, "manualSlug"), opt_or(node_config_string(node, "marketSlug"), flow_context_string(context, "marketSlug")));
    let token_id = opt_or(node_config_string(node, "tokenId"), flow_context_string(context, "tokenId"));
    let outcome_label = opt_or(node_config_string(node, "outcomeLabel"), flow_context_string(context, "outcomeLabel"));
    match (market_slug, token_id, outcome_label) {
        (Some(market_slug), Some(token_id), Some(outcome_label)) => {
            outcomes.push(DcaLiveSelectedOutcome { market_slug, outcome_label, token_id });
            assert(outcomes@.map_values(|o: DcaLiveSelectedOutcome| outcome_view(o)) =~= seq![outcome_view(outcomes@[0])]);
        },
        _ => {
            assert(outcomes@.map_values(|o: DcaLiveSelectedOutcome| outcome_view(o)) =~= Seq::<(Seq<char>, Seq<char>, Seq<char>)>::empty());
        },
    }
    outcomes
}

/// Setting a member of an object: the first member with the key gets the
/// value, or a new member is appended.
pub open spec fn object_insert(members: Seq<(Seq<char>, JsonView)>, key: Seq<char>, value: JsonView) -> Seq<(Seq<char>, JsonView)> {
    if members_get(members, key) is Some {
        set_first(members, key, value)
    } else {
        members.push((key, value))
    }
}

fn insert_member(members: Vec<(String, JsonValue)>, key: &str, value: JsonValue) -> (r: Vec<(String, JsonValue)>)
    ensures
        view_members(r@) == object_insert(view_members(members@), key@, value@),
{
    let mut present = false;
    let mut i: usize = 0;
    let k = key.to_string();
    let ghost mv = view_members(members@);
    proof { lemma_view_members(members@); }
    while i < members.len()
        invariant
            i <= members.len(),
            k@ == key@,
            mv == view_members(members@),
            mv.len() == members.len(),
            forall|j: int| 0 <= j < members.len() ==> #[trigger] mv[j] == (members@[j].0@, members@[j].1@),
            present == (members_get(mv.subrange(0, i as int), key@) is Some),
        decreases members.len() - i,
    {
        proof {
            crate::json::lemma_members_get_push(mv.subrange(0, i as int), mv[i as int], key@);
            assert(mv.subrange(0, i as int).push(mv[i as int]) =~= mv.subrange(0, i + 1));
        }
        if members[i].0 == k {
            present = true;
        }
        i = i + 1;
    }
    assert(mv.subrange(0, members.len() as int) =~= mv);
    if present {
        members_with_first_set(&members, key, value)
    } else {
        let mut m = members;
        push_member(&mut m, key, value);
        m
    }
}

/// The execution of a blocked DCA step: the payload, tagged with the node
/// key and the DCA mode when it is an object.
pub open spec fn spec_dca_blocked_output(node_key: Seq<char>, payload: JsonView) -> JsonView {
    match payload {
        JsonView::Object(m) => JsonView::Object(object_insert(object_insert(m, "node_key"@, JsonView::Str(node_key)), "mode"@, JsonView::Str("dca_live_v1"@))),
        _ => payload,
    }
}

pub fn dca_live_blocked_execution(node: &TradeFlowNode, payload: JsonValue) -> (r: TradeFlowNodeExecution)
    ensures
        r.output@ == spec_dca_blocked_output(node.key@, payload@),
        r.routes@.len() == 0,
        r.repeat_at is None,
        r.repeat_idempotency_key is None,
{
    let output = match payload {
        JsonValue::Object(m) => {
            let m1 = insert_member(m, "node_key", JsonValue::Str(node.key.clone()));
            let m2 = insert_member(m1, "mode", JsonValue::from_str("dca_live_v1"));
            JsonValue::Object(m2)
        },
        other => other,
    };
    TradeFlowNodeExecution { output, routes: Vec::new(), repeat_at: None, repeat_idempotency_key: None }
}

/// Why a DCA node cannot be bound to its trigger.
#[derive(Debug, PartialEq, Eq)]
pub enum DcaLiveBindingError {
    /// More than one edge leads into the node.
    MultipleUpstreams,
    /// The upstream node does not exist.
    TriggerNotFound,
    /// The upstream node is not a market-price trigger.
    NotMarketPriceTrigger,
    /// The trigger's binding mode is not `dca_live_only`.
    BindingModeNotDcaLive,
}

/// The positions of the edges into a node.
pub open spec fn incoming_positions(edges: Seq<TradeFlowEdge>, key: Seq<char>) -> Seq<int>
    decreases edges.len(),
{
    if edges.len() == 0 {
        Seq::empty()
    } else if edges.last().target@ == key {
        incoming_positions(edges.drop_last(), key).push(edges.len() - 1)
    } else {
        incoming_positions(edges.drop_last(), key)
    }
}

/// The binding mode of a trigger: trimmed and lower-cased, `standard` when
/// it has none.
pub open spec fn spec_binding_mode(config: JsonView) -> Seq<char> {
    match opt_as_str(config.get("bindingMode"@)) {
        Some(m) => lower(trim(m)),
        None => "standard"@,
    }
}

/// The trigger a DCA node is bound to: none without incoming edges; else the
/// single upstream node, which must be a market-price trigger in
/// `dca_live_only` binding mode.
pub open spec fn spec_dca_direct_trigger_key(nodes: Seq<TradeFlowNode>, edges: Seq<TradeFlowEdge>, key: Seq<char>) -> Result<Option<Seq<char>>, DcaLiveBindingError> {
    let incoming = incoming_positions(edges, key);
    if incoming.len() == 0 {
        Ok(None)
    } else if incoming.len() != 1 {
        Err(DcaLiveBindingError::MultipleUpstreams)
    } else {
        let source = edges[incoming[0]].source@;
        match node_index(nodes, source) {
            None => Err(DcaLiveBindingError::TriggerNotFound),
            Some(i) => if nodes[i].node_type@ != "trigger.market_price"@ {
                Err(DcaLiveBindingError::NotMarketPriceTrigger)
            } else if spec_binding_mode(nodes[i].config@) != "dca_live_only"@ {
                Err(DcaLiveBindingError::BindingModeNotDcaLive)
            } else {
                Ok(Some(source))
            },
        }
    }
}

pub fn dca_live_direct_trigger_key(node: &TradeFlowNode, graph: &TradeFlowGraphRuntime) -> (r: Result<Option<String>, DcaLiveBindingError>)
    ensures
        match r {
            Ok(Some(k)) => spec_dca_direct_trigger_key(graph.nodes@, graph.edges@, node.key@) == Ok::<Option<Seq<char>>, DcaLiveBindingError>(Some(k@)),
            Ok(None) => spec_dca_direct_trigger_key(graph.nodes@, graph.edges@, node.key@) == Ok::<Option<Seq<char>>, DcaLiveBindingError>(None),
            Err(e) => spec_dca_direct_trigger_key(graph.nodes@, graph.edges@, node.key@) == Err::<Option<Seq<char>>, DcaLiveBindingError>(e),
        },
{
    let mut incoming: Vec<usize> = Vec::new();
    let mut i: usize = 0;
    while i < graph.edges.len()
        invariant
            i <= graph.edges.len(),
            incoming@.map_values(|x: usize| x as int) == incoming_positions(graph.edges@.subrange(0, i as int), node.key@),
            forall|k: int| 0 <= k < incoming@.len() ==> #[trigger] incoming@[k] < i,
        decreases graph.edges.len() - i,
    {
        let ghost before = incoming@;
        proof {
            let p = graph.edges@.subrange(0, i + 1);
            assert(p.drop_last() =~= graph.edges@.subrange(0, i as int));
            assert(p.last() == graph.edges@[i as int]);
        }
        if graph.edges[i].target == node.key {
            incoming.push(i);
            assert(incoming@.map_values(|x: usize| x as int) =~= before.map_values(|x: usize| x as int).push(i as int));
        }
        i = i + 1;
    }
    assert(graph.edges@.subrange(0, graph.edges.len() as int) =~= graph.edges@);
    if incoming.len() == 0 {
        return Ok(None);
    }
    if incoming.len() != 1 {
        return Err(DcaLiveBindingError::MultipleUpstreams);
    }
    let source = &graph.edges[incoming[0]].source;
    assert(incoming@.map_values(|x: usize| x as int)[0] == incoming@[0] as int);
    let trigger = match flow_node(graph, source.as_str()) {
        Some(t) => t,
        None => return Err(DcaLiveBindingError::TriggerNotFound),
    };
    if !str_eq(trigger.node_type.as_str(), "trigger.market_price") {
        return Err(DcaLiveBindingError::NotMarketPriceTrigger);
    }
    let binding_mode = match node_config_string(trigger, "bindingMode") {
        Some(m) => trimmed_lower(m.as_str()),
        None => "standard".to_string(),
    };
    if !str_eq(binding_mode.as_str(), "dca_live_only") {
        return Err(DcaLiveBindingError::BindingModeNotDcaLive);
    }
    Ok(Some(source.clone()))
}

/// An instant of the flow context: the text under `key`, read as RFC 3339.
pub open spec fn spec_context_time(context: JsonView, key: Seq<char>) -> Option<i64> {
    match opt_as_str(opt_get(flow_context_view(context), key)) {
        Some(t) => rfc3339_instant_micros(t),
        None => None,
    }
}

pub fn dca_live_parse_context_time(context: &JsonValue, key: &str) -> (r: Option<i64>)
    ensures
        r == spec_context_time(context@, key@),
        r matches Some(m) ==> in_chrono_range(m),
{
    match flow_context_string(context, key) {
        Some(raw) => parse_rfc3339_micros(raw.as_str()),
        None => None,
    }
}

/// The record of a DCA step outside its custom window.
pub open spec fn spec_outside_window_payload(mode: Seq<char>, open_at: i64, end_at: i64, now: i64) -> JsonView {
    JsonView::Object(seq![
        ("blocked"@, JsonView::Bool(true)),
        ("reason"@, JsonView::Str("outside_dca_binding_window"@)),
        ("cycle_window_mode"@, JsonView::Str(mode)),
        ("cycle_window_open_at"@, JsonView::Str(rfc3339_text(open_at))),
        ("cycle_window_end_at"@, JsonView::Str(rfc3339_text(end_at))),
        ("evaluated_at"@, JsonView::Str(rfc3339_text(now))),
    ])
}

/// A DCA step in `custom_range` window mode is blocked at `now` unless
/// `now` lies in `[cycleWindowOpenAt, cycleWindowEndAt)`; any other mode,
/// or a window that does not parse, blocks nothing.
pub open spec fn spec_outside_binding_window(context: JsonView, now: i64) -> Option<JsonView> {
    match opt_as_str(opt_get(flow_context_view(context), "cycleWindowMode"@)) {
        None => None,
        Some(mode) => if !eq_ignore_case(trim(mode), "custom_range"@) {
            None
        } else {
            match (spec_context_time(context, "cycleWindowOpenAt"@), spec_context_time(context, "cycleWindowEndAt"@)) {
                (Some(open_at), Some(end_at)) => if open_at <= now && now < end_at {
                    None
                } else {
                    Some(spec_outside_window_payload(mode, open_at, end_at, now))
                },
                _ => None,
            }
        },
    }
}

/// Whether the DCA step falls outside its custom window at `now`
/// (microseconds since the epoch), and the record to log when it does.
pub fn dca_live_outside_binding_window_at(context: &JsonValue, now: i64) -> (r: Option<JsonValue>)
    requires
        in_chrono_range(now),
    ensures
        match r {
            Some(v) => spec_outside_binding_window(context@, now) == Some(v@),
            None => spec_outside_binding_window(context@, now) is None,
        },
{
    let mode = match flow_context_string(context, "cycleWindowMode") {
        Some(m) => m,
        None => return None,
    };
    let t = trimmed(mode.as_str());
    if !eq_ignore_ascii_case(t.as_str(), "custom_range") {
        return None;
    }
    let open_at = match dca_live_parse_context_time(context, "cycleWindowOpenAt") {
        Some(o) => o,
        None => return None,
    };
    let end_at = match dca_live_parse_context_time(context, "cycleWindowEndAt") {
        Some(e) => e,
        None => return None,
    };
    if open_at <= now && now < end_at {
        return None;
    }
    let mut members: Vec<(String, JsonValue)> = Vec::new();
    assert(view_members(members@) =~= Seq::<(Seq<char>, JsonView)>::empty());
    push_member(&mut members, "blocked", JsonValue::Bool(true));
    push_member(&mut members, "reason", JsonValue::from_str("outside_dca_binding_window"));
    push_member(&mut members, "cycle_window_mode", JsonValue::Str(mode));
    push_member(&mut members, "cycle_window_open_at", JsonValue::Str(format_rfc3339_micros(open_at)));
    push_member(&mut members, "cycle_window_end_at", JsonValue::Str(format_rfc3339_micros(end_at)));
    push_member(&mut members, "evaluated_at", JsonValue::Str(format_rfc3339_micros(now)));
    let r = JsonValue::Object(members);
    assert(r@->Object_0 =~= spec_outside_window_payload(mode@, open_at, end_at, now)->Object_0);
    Some(r)
}

/// The same, at the clock's current instant: what it returns is what the
/// window gives at some instant that chrono represents.
pub fn dca_live_outside_binding_window(context: &JsonValue) -> (r: Option<JsonValue>)
    ensures
        exists|now: i64| in_chrono_range(now) && #[trigger] spec_outside_binding_window(context@, now) == match r {
            Some(v) => Some(v@),
            None => None::<JsonView>,
        },
{
    let now = utc_now_micros();
    dca_live_outside_binding_window_at(context, now)
}

/// The members of an object document; none for any other document.
pub open spec fn config_members(config: JsonView) -> Seq<(Seq<char>, JsonView)> {
    match config {
        JsonView::Object(m) => m,
        _ => Seq::empty(),
    }
}

fn config_members_of(config: &JsonValue) -> (r: Vec<(String, JsonValue)>)
    ensures
        view_members(r@) == config_members(config@),
{
    match config.deep_clone() {
        JsonValue::Object(m) => m,
        _ => {
            let v: Vec<(String, JsonValue)> = Vec::new();
            assert(view_members(v@) =~= Seq::<(Seq<char>, JsonView)>::empty());
            v
        },
    }
}

pub open spec fn opt_or_i64(a: Option<i64>, b: Option<i64>) -> Option<i64> {
    match a {
        Some(x) => Some(x),
        None => b,
    }
}

/// The first DCA order's shares (in millionths): the node's initial order
/// shares, else its first DCA shares, else its target quantity; none unless
/// positive.
pub open spec fn spec_initial_shares(config: JsonView) -> Option<i64> {
    match opt_or_i64(spec_node_config_micros(config, "initialOrderShares"@),
        opt_or_i64(spec_node_config_micros(config, "firstDcaShares"@), spec_node_config_micros(config, "targetQty"@))) {
        Some(x) => if x > 0 { Some(x) } else { None },
        None => None,
    }
}

pub fn dca_live_initial_shares(node: &TradeFlowNode) -> (r: Option<i64>)
    ensures
        r == spec_initial_shares(node.config@),
{
    let v = match node_config_f64(node, "initialOrderShares") {
        Some(x) => Some(x),
        None => match node_config_f64(node, "firstDcaShares") {
            Some(x) => Some(x),
            None => node_config_f64(node, "targetQty"),
        },
    };
    match v {
        Some(x) => if x > 0 { Some(x) } else { None },
        None => None,
    }
}

/// The DCA node's entry price cap in cents (in millionths of a cent).
pub open spec fn max_price_cents(config: JsonView) -> Option<i64> {
    opt_or_i64(spec_node_config_micros(config, "dcaEntryMaxPriceCent"@), spec_node_config_micros(config, "maxPriceCent"@))
}

/// The seed size of a DCA pair in USDC (in millionths): the node's size or
/// target notional, else the shares at the entry price cap (100c when none
/// is set; none for a cap of none or less), rounded half away from zero;
/// none unless positive.
pub open spec fn spec_seed_usdc(config: JsonView, shares: i64) -> Option<int> {
    let v: Option<int> = match opt_or_i64(spec_node_config_micros(config, "sizeUsdc"@), spec_node_config_micros(config, "targetNotionalUsdc"@)) {
        Some(x) => Some(x as int),
        None => {
            let c: int = match max_price_cents(config) { Some(c) => c as int, None => 100_000_000 };
            if c > 0 { Some(round_half_away(shares * c, 100_000_000)) } else { None }
        },
    };
    match v {
        Some(x) => if x > 0 { Some(x) } else { None },
        None => None,
    }
}

pub fn dca_live_seed_usdc(node: &TradeFlowNode, shares: i64) -> (r: Option<i128>)
    ensures
        match r {
            Some(v) => spec_seed_usdc(node.config@, shares) == Some(v as int),
            None => spec_seed_usdc(node.config@, shares) is None,
        },
{
    let direct = match node_config_f64(node, "sizeUsdc") {
        Some(x) => Some(x),
        None => node_config_f64(node, "targetNotionalUsdc"),
    };
    let v: Option<i128> = match direct {
        Some(x) => Some(x as i128),
        None => {
            let c: i128 = match node_config_f64(node, "dcaEntryMaxPriceCent") {
                Some(c) => c as i128,
                None => match node_config_f64(node, "maxPriceCent") {
                    Some(c) => c as i128,
                    None => 100_000_000,
                },
            };
            if c > 0 {
                proof {
                    assert(-0x8000_0000_0000_0000 * 0x8000_0000_0000_0000 <= (shares as int) * c <= 0x8000_0000_0000_0000 * 0x8000_0000_0000_0000) by (nonlinear_arith)
                        requires 0 < c <= 0x8000_0000_0000_0000, -0x8000_0000_0000_0000 <= shares < 0x8000_0000_0000_0000;
                }
                Some(round_div((shares as i128) * c, 100_000_000))
            } else {
                None
            }
        },
    };
    match v {
        Some(x) => if x > 0 { Some(x) } else { None },
        None => None,
    }
}

/// The members of the buy node for one DCA outcome: the node's own
/// configuration, a single buy of `shares` of the outcome's token (a limit
/// order unless the node sets the execution mode), with the node's entry
/// price cap where it has one.
pub open spec fn spec_single_leg_members(config: JsonView, o: (Seq<char>, Seq<char>, Seq<char>), shares: i64) -> Seq<(Seq<char>, JsonView)> {
    let m1 = object_insert(config_members(config), "mode"@, JsonView::Str("single"@));
    let m2 = object_insert(m1, "side"@, JsonView::Str("buy"@));
    let m3 = object_insert(m2, "marketSlug"@, JsonView::Str(o.0));
    let m4 = object_insert(m3, "tokenId"@, JsonView::Str(o.2));
    let m5 = object_insert(m4, "outcomeLabel"@, JsonView::Str(o.1));
    let m6 = object_insert(m5, "sizeMode"@, JsonView::Str("shares"@));
    let m7 = object_insert(m6, "targetQty"@, wide_micros_json(shares as int));
    let m8 = if members_get(m7, "executionMode"@) is None { object_insert(m7, "executionMode"@, JsonView::Str("limit"@)) } else { m7 };
    match max_price_cents(config) {
        Some(c) => object_insert(m8, "maxPriceCent"@, wide_micros_json(c as int)),
        None => m8,
    }
}

fn has_member(members: &Vec<(String, JsonValue)>, key: &str) -> (r: bool)
    ensures
        r == (members_get(view_members(members@), key@) is Some),
{
    let mut i: usize = 0;
    let k = key.to_string();
    let ghost mv = view_members(members@);
    proof { lemma_view_members(members@); }
    while i < members.len()
        invariant
            i <= members.len(),
            k@ == key@,
            mv == view_members(members@),
            mv.len() == members.len(),
            forall|j: int| 0 <= j < members.len() ==> #[trigger] mv[j] == (members@[j].0@, members@[j].1@),
            members_get(mv.subrange(0, i as int), key@) is None,
        decreases members.len() - i,
    {
        proof {
            crate::json::lemma_members_get_push(mv.subrange(0, i as int), mv[i as int], key@);
            assert(mv.subrange(0, i as int).push(mv[i as int]) =~= mv.subrange(0, i + 1));
        }
        if members[i].0 == k {
            proof {
                lemma_members_get_prefix(mv, i as int + 1, key@);
            }
            return true;
        }
        i = i + 1;
    }
    assert(mv.subrange(0, members.len() as int) =~= mv);
    false
}

proof fn lemma_members_get_prefix(m: Seq<(Seq<char>, JsonView)>, n: int, key: Seq<char>)
    requires
        0 <= n <= m.len(),
        members_get(m.subrange(0, n), key) is Some,
    ensures
        members_get(m, key) is Some,
    decreases m.len() - n,
{
    if n < m.len() {
        crate::json::lemma_members_get_push(m.subrange(0, n), m[n], key);
        assert(m.subrange(0, n).push(m[n]) =~= m.subrange(0, n + 1));
        lemma_members_get_prefix(m, n + 1, key);
    } else {
        assert(m.subrange(0, n) =~= m);
    }
}

pub fn build_dca_live_single_leg_node(node: &TradeFlowNode, outcome: &DcaLiveSelectedOutcome, shares: i64) -> (r: TradeFlowNode)
    ensures
        r.key@ == node.key@,
        r.node_type@ == node.node_type@,
        r.config@ == JsonView::Object(spec_single_leg_members(node.config@, outcome_view(*outcome), shares)),
{
    let m = config_members_of(&node.config);
    let m = insert_member(m, "mode", JsonValue::from_str("single"));
    let m = insert_member(m, "side", JsonValue::from_str("buy"));
    let m = insert_member(m, "marketSlug", JsonValue::Str(outcome.market_slug.clone()));
    let m = insert_member(m, "tokenId", JsonValue::Str(outcome.token_id.clone()));
    let m = insert_member(m, "outcomeLabel", JsonValue::Str(outcome.outcome_label.clone()));
    let m = insert_member(m, "sizeMode", JsonValue::from_str("shares"));
    let m = insert_member(m, "targetQty", wide_micros_value(shares as i128));
    let m = if !has_member(&m, "executionMode") { insert_member(m, "executionMode", JsonValue::from_str("limit")) } else { m };
    let cap = match node_config_f64(node, "dcaEntryMaxPriceCent") {
        Some(c) => Some(c),
        None => node_config_f64(node, "maxPriceCent"),
    };
    let m = match cap {
        Some(c) => insert_member(m, "maxPriceCent", wide_micros_value(c as i128)),
        None => m,
    };
    TradeFlowNode { key: node.key.clone(), node_type: node.node_type.clone(), config: JsonValue::Object(m) }
}

/// Why a DCA pair node cannot be built.
#[derive(Debug, Clone, Copy, PartialEq, Eq, Structural)]
pub enum DcaLivePairError {
    /// Neither a size nor a positive seed from the shares at the price cap.
    MissingSeedSize,
}

pub open spec fn opt_text_or(a: Option<Seq<char>>, b: Option<Seq<char>>) -> Option<Seq<char>> {
    match a {
        Some(x) => Some(x),
        None => b,
    }
}

/// The market a DCA pair trades: the node's manual slug, else its market
/// slug, else the flow context's.
pub open spec fn spec_pair_market_slug(config: JsonView, context: JsonView) -> Option<Seq<char>> {
    opt_text_or(opt_as_str(config.get("manualSlug"@)), opt_text_or(opt_as_str(config.get("marketSlug"@)),
        opt_as_str(opt_get(flow_context_view(context), "marketSlug"@))))
}

/// The members of the pair-lock node for a DCA node: its own configuration
/// in pair-lock mode, with the pair's cost cap (its target pair cost, else
/// its pair cap, else 97c), a seed size where it sets neither a size nor a
/// target notional, a limit order unless it sets the execution mode, its
/// market, and its first outcome's token, label and market. Refused without
/// a seed size where one is needed.
pub open spec fn spec_pair_members(config: JsonView, context: JsonView, shares: i64) -> Result<Seq<(Seq<char>, JsonView)>, DcaLivePairError> {
    let m1 = object_insert(config_members(config), "mode"@, JsonView::Str("pair_lock"@));
    let target: int = match opt_or_i64(spec_node_config_micros(config, "targetPairCostCent"@), spec_node_config_micros(config, "pairMaxTotalCent"@)) {
        Some(c) => c as int,
        None => 97_000_000,
    };
    let m2 = object_insert(m1, "pairMaxTotalCent"@, wide_micros_json(target));
    let needs_seed = members_get(m2, "sizeUsdc"@) is None && members_get(m2, "targetNotionalUsdc"@) is None;
    if needs_seed && spec_seed_usdc(config, shares) is None {
        Err(DcaLivePairError::MissingSeedSize)
    } else {
        let m3 = if needs_seed { object_insert(m2, "sizeUsdc"@, wide_micros_json(spec_seed_usdc(config, shares)->0)) } else { m2 };
        let m4 = if members_get(m3, "executionMode"@) is None { object_insert(m3, "executionMode"@, JsonView::Str("limit"@)) } else { m3 };
        let m5 = match spec_pair_market_slug(config, context) {
            Some(slug) => object_insert(m4, "marketSlug"@, JsonView::Str(slug)),
            None => m4,
        };
        let outcomes = spec_selected_outcomes(config, context);
        Ok(if outcomes.len() > 0 {
            let first = outcomes[0];
            object_insert(object_insert(object_insert(m5, "tokenId"@, JsonView::Str(first.2)), "outcomeLabel"@, JsonView::Str(first.1)),
                "marketSlug"@, JsonView::Str(first.0))
        } else {
            m5
        })
    }
}

pub open spec fn opt_str_view(s: Option<String>) -> Option<Seq<char>> {
    match s {
        Some(x) => Some(x@),
        None => None,
    }
}

fn or_string(a: Option<String>, b: Option<String>) -> (r: Option<String>)
    ensures
        opt_str_view(r) == opt_text_or(opt_str_view(a), opt_str_view(b)),
{
    match a {
        Some(x) => Some(x),
        None => b,
    }
}

#[verifier::rlimit(40)]
pub fn build_dca_live_pair_node(node: &TradeFlowNode, context: &JsonValue, shares: i64) -> (r: Result<TradeFlowNode, DcaLivePairError>)
    ensures
        match r {
            Ok(n) => spec_pair_members(node.config@, context@, shares) matches Ok(m)
                && n.key@ == node.key@ && n.node_type@ == node.node_type@ && n.config@ == JsonView::Object(m),
            Err(e) => spec_pair_members(node.config@, context@, shares) == Err::<Seq<(Seq<char>, JsonView)>, DcaLivePairError>(e),
        },
{
    let m = config_members_of(&node.config);
    let m = insert_member(m, "mode", JsonValue::from_str("pair_lock"));
    let target: i128 = match node_config_f64(node, "targetPairCostCent") {
        Some(c) => c as i128,
        None => match node_config_f64(node, "pairMaxTotalCent") {
            Some(c) => c as i128,
            None => 97_000_000,
        },
    };
    let m = insert_member(m, "pairMaxTotalCent", wide_micros_value(target));
    let needs_seed = !has_member(&m, "sizeUsdc") && !has_member(&m, "targetNotionalUsdc");
    let m = if needs_seed {
        match dca_live_seed_usdc(node, shares) {
            Some(seed) => insert_member(m, "sizeUsdc", wide_micros_value(seed)),
            None => return Err(DcaLivePairError::MissingSeedSize),
        }
    } else {
        m
    };
    let m = if !has_member(&m, "executionMode") { insert_member(m, "executionMode", JsonValue::from_str("limit")) } else { m };
    let slug = or_string(node_config_string(node, "manualSlug"), or_string(node_config_string(node, "marketSlug"),
        flow_context_string(context, "marketSlug")));
    let m = match slug {
        Some(s) => insert_member(m, "marketSlug", JsonValue::Str(s)),
        None => m,
    };
    let outcomes = dca_live_selected_outcomes(node, context);
    let m = if outcomes.len() > 0 {
        let first = &outcomes[0];
        proof {
            assert(outcomes@.map_values(|o: DcaLiveSelectedOutcome| outcome_view(o))[0] == outcome_view(outcomes@[0]));
        }
        let m = insert_member(m, "tokenId", JsonValue::Str(first.token_id.clone()));
        let m = insert_member(m, "outcomeLabel", JsonValue::Str(first.outcome_label.clone()));
        insert_member(m, "marketSlug", JsonValue::Str(first.market_slug.clone()))
    } else {
        m
    };
    Ok(TradeFlowNode { key: node.key.clone(), node_type: node.node_type.clone(), config: JsonValue::Object(m) })
}

pub open spec fn node_view(n: TradeFlowNode) -> (Seq<char>, Seq<char>, JsonView) {
    (n.key@, n.node_type@, n.config@)
}

pub open spec fn edge_view(e: TradeFlowEdge) -> (Seq<char>, Seq<char>, Seq<char>, Option<JsonView>) {
    (e.source@, e.target@, e.edge_type@, match e.condition { Some(c) => Some(c@), None => None })
}

/// A node of a DCA pair's graph: the trigger with its binding mode set to
/// pair lock, any other node as it is.
pub open spec fn pair_graph_node(n: TradeFlowNode, trigger_key: Seq<char>) -> (Seq<char>, Seq<char>, JsonView) {
    if n.key@ == trigger_key {
        (n.key@, n.node_type@, JsonView::Object(object_insert(config_members(n.config@), "bindingMode"@, JsonView::Str("pair_lock_only"@))))
    } else {
        node_view(n)
    }
}

fn copy_edge(e: &TradeFlowEdge) -> (r: TradeFlowEdge)
    ensures
        edge_view(r) == edge_view(*e),
{
    TradeFlowEdge {
        source: e.source.clone(),
        target: e.target.clone(),
        edge_type: e.edge_type.clone(),
        condition: match &e.condition {
            Some(c) => Some(c.deep_clone()),
            None => None,
        },
    }
}

/// The graph a DCA pair runs in: the same context, nodes and edges, with
/// the trigger bound in pair-lock mode.
pub fn dca_live_pair_graph(graph: &TradeFlowGraphRuntime, trigger_key: &str) -> (r: TradeFlowGraphRuntime)
    ensures
        r.context@ == graph.context@,
        r.nodes@.map_values(|n: TradeFlowNode| node_view(n)) == graph.nodes@.map_values(|n: TradeFlowNode| pair_graph_node(n, trigger_key@)),
        r.edges@.map_values(|e: TradeFlowEdge| edge_view(e)) == graph.edges@.map_values(|e: TradeFlowEdge| edge_view(e)),
{
    let mut nodes: Vec<TradeFlowNode> = Vec::new();
    let mut i: usize = 0;
    while i < graph.nodes.len()
        invariant
            i <= graph.nodes.len(),
            nodes@.len() == i,
            forall|k: int| 0 <= k < i ==> node_view(#[trigger] nodes@[k]) == pair_graph_node(graph.nodes@[k], trigger_key@),
        decreases graph.nodes.len() - i,
    {
        let candidate = &graph.nodes[i];
        let copy = if str_eq(candidate.key.as_str(), trigger_key) {
            let m = config_members_of(&candidate.config);
            let m = insert_member(m, "bindingMode", JsonValue::from_str("pair_lock_only"));
            TradeFlowNode { key: candidate.key.clone(), node_type: candidate.node_type.clone(), config: JsonValue::Object(m) }
        } else {
            TradeFlowNode { key: candidate.key.clone(), node_type: candidate.node_type.clone(), config: candidate.config.deep_clone() }
        };
        nodes.push(copy);
        i = i + 1;
    }
    let mut edges: Vec<TradeFlowEdge> = Vec::new();
    let mut j: usize = 0;
    while j < graph.edges.len()
        invariant
            j <= graph.edges.len(),
            edges@.len() == j,
            forall|k: int| 0 <= k < j ==> edge_view(#[trigger] edges@[k]) == edge_view(graph.edges@[k]),
        decreases graph.edges.len() - j,
    {
        edges.push(copy_edge(&graph.edges[j]));
        j = j + 1;
    }
    assert(nodes@.map_values(|n: TradeFlowNode| node_view(n)) =~= graph.nodes@.map_values(|n: TradeFlowNode| pair_graph_node(n, trigger_key@)));
    assert(edges@.map_values(|e: TradeFlowEdge| edge_view(e)) =~= graph.edges@.map_values(|e: TradeFlowEdge| edge_view(e)));
    TradeFlowGraphRuntime { context: graph.context.deep_clone(), nodes, edges }
}

/// How many rows read as an outcome.
pub open spec fn readable_row_count(rows: Seq<JsonView>, context: JsonView) -> nat
    decreases rows.len(),
{
    if rows.len() == 0 {
        0
    } else {
        readable_row_count(rows.drop_last(), context) + if spec_selected_outcome(rows.last(), context) is Some { 1nat } else { 0nat }
    }
}

proof fn lemma_rows_collected(rows: Seq<JsonView>, context: JsonView)
    ensures
        ({
            let r = selected_outcomes_of_rows(rows, context);
            &&& r.len() == readable_row_count(rows, context)
            &&& forall|i: int| 0 <= i < rows.len() && (#[trigger] spec_selected_outcome(rows[i], context)) is Some
                ==> r.contains(spec_selected_outcome(rows[i], context)->0)
            &&& forall|j: int| 0 <= j < r.len() ==> exists|i: int| 0 <= i < rows.len() && spec_selected_outcome(rows[i], context) == Some(#[trigger] r[j])
            &&& (exists|i: int| 0 <= i < rows.len() && (#[trigger] spec_selected_outcome(rows[i], context)) is Some) ==> readable_row_count(rows, context) > 0
        }),
    decreases rows.len(),
{
    if rows.len() > 0 {
        let p = rows.drop_last();
        lemma_rows_collected(p, context);
        let rp = selected_outcomes_of_rows(p, context);
        let r = selected_outcomes_of_rows(rows, context);
        let last = spec_selected_outcome(rows.last(), context);
        assert forall|i: int| 0 <= i < rows.len() && (#[trigger] spec_selected_outcome(rows[i], context)) is Some
            implies r.contains(spec_selected_outcome(rows[i], context)->0) by {
            if i < rows.len() - 1 {
                assert(p[i] == rows[i]);
                assert(spec_selected_outcome(p[i], context) is Some);
                let k = choose|k: int| 0 <= k < rp.len() && rp[k] == spec_selected_outcome(rows[i], context)->0;
                if last is Some {
                    assert(r[k] == rp[k]);
                } else {
                    assert(r == rp);
                }
            } else {
                assert(r == rp.push(last->0));
                assert(r[rp.len() as int] == last->0);
            }
        }
        assert forall|j: int| 0 <= j < r.len() implies exists|i: int| 0 <= i < rows.len() && spec_selected_outcome(rows[i], context) == Some(#[trigger] r[j]) by {
            if j < rp.len() {
                assert(r[j] == rp[j]);
                let i = choose|i: int| 0 <= i < p.len() && spec_selected_outcome(p[i], context) == Some(rp[j]);
                assert(p[i] == rows[i]);
            } else {
                assert(r[j] == last->0);
                assert(rows[rows.len() - 1] == rows.last());
            }
        }
        if exists|i: int| 0 <= i < rows.len() && (#[trigger] spec_selected_outcome(rows[i], context)) is Some {
            let i = choose|i: int| 0 <= i < rows.len() && (#[trigger] spec_selected_outcome(rows[i], context)) is Some;
            if i < rows.len() - 1 {
                assert(p[i] == rows[i]);
                assert(spec_selected_outcome(p[i], context) is Some);
            }
        }
    }
}

/// Law: a node with `selectedOutcomes` rows, at least one of which reads
/// as an outcome, buys every outcome its rows read, and only those: one
/// outcome per readable row (a basket of two readable rows has two).
pub proof fn law_every_readable_row_is_selected(config: JsonView, context: JsonView, rows: Seq<JsonView>)
    requires
        config.get("selectedOutcomes"@) == Some(JsonView::Array(rows)),
        exists|i: int| 0 <= i < rows.len() && (#[trigger] spec_selected_outcome(rows[i], context)) is Some,
    ensures
        ({
            let r = spec_selected_outcomes(config, context);
            &&& r.len() == readable_row_count(rows, context)
            &&& forall|i: int| 0 <= i < rows.len() && (#[trigger] spec_selected_outcome(rows[i], context)) is Some
                ==> r.contains(spec_selected_outcome(rows[i], context)->0)
            &&& forall|j: int| 0 <= j < r.len() ==> exists|i: int| 0 <= i < rows.len() && spec_selected_outcome(rows[i], context) == Some(#[trigger] r[j])
        }),
{
    lemma_rows_collected(rows, context);
}

} // verus!
