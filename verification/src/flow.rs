//! The trade-flow data that the order logic reads: nodes with their JSON
//! configuration, run steps with their JSON input, graph edges, and the
//! lookups shared by the node executors.
use vstd::prelude::*;
use crate::json::{JsonValue, JsonView, opt_as_bool, opt_as_i64, opt_as_str, opt_get, opt_view};
use crate::json_number::{spec_json_micros, json_micros};

verus! {

broadcast use vstd::string::group_string_axioms;

/// A node of a trade-flow graph.
pub struct TradeFlowNode {
    pub key: String,
    pub node_type: String,
    pub config: JsonValue,
}

/// One execution step of a flow run. Instants are microseconds since the Unix epoch.
pub struct TradeFlowRunStep {
    pub id: i64,
    pub run_id: i64,
    pub node_key: String,
    pub node_type: String,
    pub status: String,
    pub attempt: i32,
    pub input_json: Option<JsonValue>,
    pub output_json: Option<JsonValue>,
    pub error_text: Option<String>,
    pub started_at: Option<i64>,
    pub ended_at: Option<i64>,
    pub available_at: i64,
    pub parent_step_id: Option<i64>,
    pub idempotency_key: Option<String>,
    pub created_at: i64,
}

/// A directed edge from `source` to `target`.
pub struct TradeFlowEdge {
    pub source: String,
    pub target: String,
    pub edge_type: String,
    pub condition: Option<JsonValue>,
}

/// The nodes and edges of a flow definition, with its shared context.
pub struct TradeFlowGraphRuntime {
    pub context: JsonValue,
    pub nodes: Vec<TradeFlowNode>,
    pub edges: Vec<TradeFlowEdge>,
}

/// What a node execution produces: its output document, the routes that it
/// takes, and when it wants to run again.
pub struct TradeFlowNodeExecution {
    pub output: JsonValue,
    pub routes: Vec<String>,
    pub repeat_at: Option<i64>,
    pub repeat_idempotency_key: Option<String>,
}

/// The view of a step's input document, if any.
pub open spec fn step_input(step: &TradeFlowRunStep) -> Option<JsonView> {
    match step.input_json {
        Some(v) => Some(v@),
        None => None,
    }
}

/// The views of a list of keys.
pub open spec fn key_views(keys: Seq<&str>) -> Seq<Seq<char>> {
    keys.map_values(|k: &str| k@)
}

/// The first of `keys` whose member is an `i64`.
pub open spec fn first_key_i64(doc: JsonView, keys: Seq<Seq<char>>) -> Option<i64>
    decreases keys.len(),
{
    if keys.len() == 0 {
        None
    } else {
        match opt_as_i64(doc.get(keys[0])) {
            Some(v) => Some(v),
            None => first_key_i64(doc, keys.drop_first()),
        }
    }
}

/// The first of `keys` whose member is a string.
pub open spec fn first_key_str(doc: JsonView, keys: Seq<Seq<char>>) -> Option<Seq<char>>
    decreases keys.len(),
{
    if keys.len() == 0 {
        None
    } else {
        match opt_as_str(doc.get(keys[0])) {
            Some(v) => Some(v),
            None => first_key_str(doc, keys.drop_first()),
        }
    }
}

/// The first of `keys` whose member is present and not `null`.
pub open spec fn first_key_value(doc: JsonView, keys: Seq<Seq<char>>) -> Option<JsonView>
    decreases keys.len(),
{
    if keys.len() == 0 {
        None
    } else {
        match doc.get(keys[0]) {
            Some(v) => if v is Null { first_key_value(doc, keys.drop_first()) } else { Some(v) },
            None => first_key_value(doc, keys.drop_first()),
        }
    }
}

/// The `flowContext` member of a run context.
pub open spec fn flow_context_view(context: JsonView) -> Option<JsonView> {
    context.get("flowContext"@)
}

/// A string member of a node's configuration.
pub fn node_config_string(node: &TradeFlowNode, key: &str) -> (r: Option<String>)
    ensures
        match r {
            Some(s) => opt_as_str(node.config@.get(key@)) == Some(s@),
            None => opt_as_str(node.config@.get(key@)) is None,
        },
{
    match node.config.get(key) {
        Some(v) => match v.as_str() {
            Some(s) => Some(s.to_string()),
            None => None,
        },
        None => None,
    }
}

/// A number of a node's configuration (or a number written as text), in
/// millionths.
pub open spec fn spec_node_config_micros(config: JsonView, key: Seq<char>) -> Option<i64> {
    match config.get(key) {
        Some(v) => spec_json_micros(v),
        None => None,
    }
}

pub fn node_config_f64(node: &TradeFlowNode, key: &str) -> (r: Option<i64>)
    ensures
        r == spec_node_config_micros(node.config@, key@),
{
    match node.config.get(key) {
        Some(v) => json_micros(v),
        None => None,
    }
}

/// A boolean member of a node's configuration.
pub fn node_config_bool(node: &TradeFlowNode, key: &str) -> (r: Option<bool>)
    ensures
        r == opt_as_bool(node.config@.get(key@)),
{
    match node.config.get(key) {
        Some(v) => v.as_bool(),
        None => None,
    }
}

/// An integer member of a node's configuration.
pub fn node_config_i64(node: &TradeFlowNode, key: &str) -> (r: Option<i64>)
    ensures
        r == opt_as_i64(node.config@.get(key@)),
{
    match node.config.get(key) {
        Some(v) => v.as_i64(),
        None => None,
    }
}

/// A member of an optional document.
pub fn opt_member<'a>(doc: Option<&'a JsonValue>, key: &str) -> (r: Option<&'a JsonValue>)
    ensures
        opt_view(r) == opt_get(opt_view(doc), key@),
{
    match doc {
        Some(d) => d.get(key),
        None => None,
    }
}

/// A string member of the run's `flowContext`.
pub fn flow_context_string(context: &JsonValue, key: &str) -> (r: Option<String>)
    ensures
        match r {
            Some(s) => opt_as_str(opt_get(flow_context_view(context@), key@)) == Some(s@),
            None => opt_as_str(opt_get(flow_context_view(context@), key@)) is None,
        },
{
    match opt_member(context.get("flowContext"), key) {
        Some(v) => match v.as_str() {
            Some(s) => Some(s.to_string()),
            None => None,
        },
        None => None,
    }
}

/// A member of the run's `flowContext`, copied.
pub fn flow_context_value(context: &JsonValue, key: &str) -> (r: Option<JsonValue>)
    ensures
        match r {
            Some(v) => opt_get(flow_context_view(context@), key@) == Some(v@),
            None => opt_get(flow_context_view(context@), key@) is None,
        },
{
    match opt_member(context.get("flowContext"), key) {
        Some(v) => Some(v.deep_clone()),
        None => None,
    }
}

/// The first of `keys` whose member of the step input is an `i64`.
pub fn step_input_i64(step: &TradeFlowRunStep, keys: &[&str]) -> (r: Option<i64>)
    ensures
        r == match step_input(step) {
            Some(doc) => first_key_i64(doc, key_views(keys@)),
            None => None,
        },
{
    let input = match &step.input_json {
        Some(v) => v,
        None => return None,
    };
    let ghost doc = input@;
    let ghost ks = key_views(keys@);
    let mut i: usize = 0;
    proof {
        assert(ks.subrange(0, ks.len() as int) =~= ks);
    }
    while i < keys.len()
        invariant
            i <= keys.len(),
            ks == key_views(keys@),
            ks.len() == keys@.len(),
            doc == input@,
            step_input(step) == Some(doc),
            first_key_i64(doc, ks) == first_key_i64(doc, ks.subrange(i as int, ks.len() as int)),
        decreases keys.len() - i,
    {
        let ghost rest = ks.subrange(i as int, ks.len() as int);
        assert(rest[0] == keys@[i as int]@);
        let found = match input.get(keys[i]) {
            Some(v) => v.as_i64(),
            None => None,
        };
        if found.is_some() {
            return found;
        }
        assert(rest.drop_first() =~= ks.subrange(i + 1, ks.len() as int));
        i = i + 1;
    }
    None
}

/// The first of `keys` whose member of the step input is a string.
pub fn step_input_string(step: &TradeFlowRunStep, keys: &[&str]) -> (r: Option<String>)
    ensures
        match r {
            Some(s) => step_input(step) is Some && first_key_str(step_input(step)->0, key_views(keys@)) == Some(s@),
            None => step_input(step) is None || first_key_str(step_input(step)->0, key_views(keys@)) is None,
        },
{
    let input = match &step.input_json {
        Some(v) => v,
        None => return None,
    };
    let ghost doc = input@;
    let ghost ks = key_views(keys@);
    let mut i: usize = 0;
    proof {
        assert(ks.subrange(0, ks.len() as int) =~= ks);
    }
    while i < keys.len()
        invariant
            i <= keys.len(),
            ks == key_views(keys@),
            ks.len() == keys@.len(),
            doc == input@,
            step_input(step) == Some(doc),
            first_key_str(doc, ks) == first_key_str(doc, ks.subrange(i as int, ks.len() as int)),
        decreases keys.len() - i,
    {
        let ghost rest = ks.subrange(i as int, ks.len() as int);
        assert(rest[0] == keys@[i as int]@);
        match input.get(keys[i]) {
            Some(v) => match v.as_str() {
                Some(s) => return Some(s.to_string()),
                None => {},
            },
            None => {},
        }
        assert(rest.drop_first() =~= ks.subrange(i + 1, ks.len() as int));
        i = i + 1;
    }
    None
}

/// The first of `keys` whose member of the step input is present and not `null`.
pub fn step_input_value<'a>(step: &'a TradeFlowRunStep, keys: &[&str]) -> (r: Option<&'a JsonValue>)
    ensures
        opt_view(r) == match step_input(step) {
            Some(doc) => first_key_value(doc, key_views(keys@)),
            None => None,
        },
{
    let input = match &step.input_json {
        Some(v) => v,
        None => return None,
    };
    let ghost doc = input@;
    let ghost ks = key_views(keys@);
    let mut i: usize = 0;
    proof {
        assert(ks.subrange(0, ks.len() as int) =~= ks);
    }
    while i < keys.len()
        invariant
            i <= keys.len(),
            ks == key_views(keys@),
            ks.len() == keys@.len(),
            doc == input@,
            step_input(step) == Some(doc),
            first_key_value(doc, ks) == first_key_value(doc, ks.subrange(i as int, ks.len() as int)),
        decreases keys.len() - i,
    {
        let ghost rest = ks.subrange(i as int, ks.len() as int);
        assert(rest[0] == keys@[i as int]@);
        match input.get(keys[i]) {
            Some(v) => match v {
                JsonValue::Null => {},
                _ => return Some(v),
            },
            None => {},
        }
        assert(rest.drop_first() =~= ks.subrange(i + 1, ks.len() as int));
        i = i + 1;
    }
    None
}

/// The index of the first node with the given key.
pub open spec fn node_index(nodes: Seq<TradeFlowNode>, key: Seq<char>) -> Option<int>
    decreases nodes.len(),
{
    if nodes.len() == 0 {
        None
    } else if nodes.last().key@ == key && node_index(nodes.drop_last(), key) is None {
        Some(nodes.len() - 1)
    } else {
        node_index(nodes.drop_last(), key)
    }
}

/// The first node of a graph with the given key.
pub fn flow_node<'a>(graph: &'a TradeFlowGraphRuntime, key: &str) -> (r: Option<&'a TradeFlowNode>)
    ensures
        match r {
            Some(n) => node_index(graph.nodes@, key@) matches Some(i) && *n == graph.nodes@[i],
            None => node_index(graph.nodes@, key@) is None,
        },
{
    let k = key.to_string();
    let mut i: usize = 0;
    while i < graph.nodes.len()
        invariant
            i <= graph.nodes.len(),
            k@ == key@,
            node_index(graph.nodes@.subrange(0, i as int), key@) is None,
        decreases graph.nodes.len() - i,
    {
        let ghost pre = graph.nodes@.subrange(0, i + 1);
        assert(pre.drop_last() =~= graph.nodes@.subrange(0, i as int));
        if graph.nodes[i].key == k {
            proof { lemma_node_index_prefix(graph.nodes@, i as int + 1, key@); }
            return Some(&graph.nodes[i]);
        }
        i = i + 1;
    }
    assert(graph.nodes@.subrange(0, i as int) =~= graph.nodes@);
    None
}

/// A first match in a prefix is the first match of the whole sequence.
proof fn lemma_node_index_prefix(nodes: Seq<TradeFlowNode>, n: int, key: Seq<char>)
    requires
        0 <= n <= nodes.len(),
        node_index(nodes.subrange(0, n), key) is Some,
    ensures
        node_index(nodes, key) == node_index(nodes.subrange(0, n), key),
    decreases nodes.len() - n,
{
    if n < nodes.len() {
        let p = nodes.subrange(0, n + 1);
        assert(p.drop_last() =~= nodes.subrange(0, n));
        lemma_node_index_prefix(nodes, n + 1, key);
    } else {
        assert(nodes.subrange(0, n) =~= nodes);
    }
}

} // verus!
