//! Queries over a flow graph: which triggers feed an action.
use vstd::prelude::*;
use crate::flow::{TradeFlowEdge, TradeFlowGraphRuntime, TradeFlowNode, node_index, flow_node};
use crate::json::{JsonView, opt_as_str};
use crate::text::{str_eq, lower, trim, ends_with, chars_of, trimmed_lower, string_from_chars};

verus! {

broadcast use vstd::string::group_string_axioms;

/// The market mode of a trigger node: its `marketMode`, trimmed and
/// lower-cased, or `standard` when it has none.
pub open spec fn spec_node_market_mode(config: JsonView) -> Seq<char> {
    match opt_as_str(config.get("marketMode"@)) {
        Some(m) => lower(trim(m)),
        None => "standard"@,
    }
}

pub fn node_market_mode(node: &TradeFlowNode) -> (r: String)
    ensures
        r@ == spec_node_market_mode(node.config@),
{
    match node.config.get("marketMode") {
        Some(v) => match v.as_str() {
            Some(s) => trimmed_lower(s),
            None => "standard".to_string(),
        },
        None => "standard".to_string(),
    }
}

/// Whether an edge runs from `source` to `target`.
pub open spec fn has_edge(edges: Seq<TradeFlowEdge>, source: Seq<char>, target: Seq<char>) -> bool {
    exists|j: int| 0 <= j < edges.len() && #[trigger] edges[j].source@ == source && edges[j].target@ == target
}

/// Whether a key names a market-price trigger in auto-scope mode (its first
/// node with that key).
pub open spec fn is_auto_scope_trigger(nodes: Seq<TradeFlowNode>, key: Seq<char>) -> bool {
    match node_index(nodes, key) {
        Some(i) => nodes[i].node_type@ == "trigger.market_price"@ && spec_node_market_mode(nodes[i].config@) == "auto_scope"@,
        None => false,
    }
}

/// A chain of keys walked against the edges, from `p[0]` back to its
/// sources: each next key is an existing node with an edge into the previous.
pub open spec fn is_back_path(nodes: Seq<TradeFlowNode>, edges: Seq<TradeFlowEdge>, p: Seq<Seq<char>>) -> bool {
    &&& p.len() >= 1
    &&& forall|i: int| 1 <= i < p.len() ==> #[trigger] back_step(nodes, edges, p, i)
}

/// Step `i` of a chain: an existing node `p[i]` with an edge into `p[i - 1]`.
pub open spec fn back_step(nodes: Seq<TradeFlowNode>, edges: Seq<TradeFlowEdge>, p: Seq<Seq<char>>, i: int) -> bool {
    has_edge(edges, p[i], p[i - 1]) && node_index(nodes, p[i]) is Some
}

pub const PAIR_LOCK_COUNTER_SUFFIX: &'static str = "__counter";

/// Where the search starts: the action, and for a pair-lock counter
/// (`<key>__counter`) also the action it counters.
pub open spec fn search_starts(key: Seq<char>) -> Seq<Seq<char>> {
    if ends_with(key, PAIR_LOCK_COUNTER_SUFFIX@) {
        seq![key, key.subrange(0, key.len() - PAIR_LOCK_COUNTER_SUFFIX@.len())]
    } else {
        seq![key]
    }
}

/// Whether an auto-scope market-price trigger feeds the action, through any
/// chain of existing nodes.
pub open spec fn spec_has_upstream_auto_scope_trigger(nodes: Seq<TradeFlowNode>, edges: Seq<TradeFlowEdge>, key: Seq<char>) -> bool {
    exists|p: Seq<Seq<char>>|
        #![trigger is_back_path(nodes, edges, p)]
        is_back_path(nodes, edges, p) && p.len() >= 2 && search_starts(key).contains(p[0])
            && is_auto_scope_trigger(nodes, p.last())
}

/// The number of edges whose source is not among `keys`.
pub open spec fn unseen_sources(edges: Seq<TradeFlowEdge>, keys: Seq<Seq<char>>) -> nat
    decreases edges.len(),
{
    if edges.len() == 0 {
        0
    } else {
        unseen_sources(edges.drop_last(), keys) + if keys.contains(edges.last().source@) { 0nat } else { 1nat }
    }
}

/// Seeing one more key never raises the count, and lowers it when the key is
/// the unseen source of edge `j`.
proof fn lemma_unseen_sources_push(edges: Seq<TradeFlowEdge>, keys: Seq<Seq<char>>, k: Seq<char>, j: int)
    ensures
        unseen_sources(edges, keys.push(k)) <= unseen_sources(edges, keys),
        0 <= j < edges.len() && edges[j].source@ == k && !keys.contains(k)
            ==> unseen_sources(edges, keys.push(k)) < unseen_sources(edges, keys),
    decreases edges.len(),
{
    if edges.len() > 0 {
        lemma_unseen_sources_push(edges.drop_last(), keys, k, j);
        let s = edges.last().source@;
        if keys.contains(s) {
            let i = choose|i: int| 0 <= i < keys.len() && keys[i] == s;
            assert(keys.push(k)[i] == s);
        }
        if s == k {
            assert(keys.push(k)[keys.len() as int] == k);
        }
        if keys.push(k).contains(s) && s != k {
            let i = choose|i: int| 0 <= i < keys.push(k).len() && keys.push(k)[i] == s;
            assert(keys[i] == s);
        }
        if 0 <= j < edges.len() - 1 {
            assert(edges.drop_last()[j] == edges[j]);
        }
    }
}

/// Whether the key is one of the keys.
fn contains_key(keys: &Vec<String>, key: &String) -> (r: bool)
    ensures
        r == keys@.map_values(|s: String| s@).contains(key@),
{
    let ghost kv = keys@.map_values(|s: String| s@);
    let mut i: usize = 0;
    while i < keys.len()
        invariant
            i <= keys.len(),
            kv == keys@.map_values(|s: String| s@),
            forall|k: int| 0 <= k < i ==> kv[k] != key@,
        decreases keys.len() - i,
    {
        if keys[i] == *key {
            assert(kv[i as int] == key@);
            return true;
        }
        i = i + 1;
    }
    false
}

/// The keys of a list of strings.
pub open spec fn key_seq(keys: Seq<String>) -> Seq<Seq<char>> {
    keys.map_values(|s: String| s@)
}

/// When every searched key has all its existing sources searched, and none
/// of them is an auto-scope trigger, no chain from a searched key reaches one.
proof fn lemma_closed_search(nodes: Seq<TradeFlowNode>, edges: Seq<TradeFlowEdge>, seen: Seq<Seq<char>>, p: Seq<Seq<char>>)
    requires
        is_back_path(nodes, edges, p),
        seen.contains(p[0]),
        forall|v: Seq<char>, s: Seq<char>| seen.contains(v) && has_edge(edges, s, v) && node_index(nodes, s) is Some
            ==> seen.contains(s) && !is_auto_scope_trigger(nodes, s),
    ensures
        forall|i: int| 0 <= i < p.len() ==> seen.contains(#[trigger] p[i]),
        forall|i: int| 1 <= i < p.len() ==> !is_auto_scope_trigger(nodes, #[trigger] p[i]),
    decreases p.len(),
{
    if p.len() > 1 {
        let q = p.drop_last();
        assert forall|i: int| 1 <= i < q.len() implies #[trigger] back_step(nodes, edges, q, i) by {
            assert(q[i] == p[i] && q[i - 1] == p[i - 1]);
            assert(back_step(nodes, edges, p, i));
        }
        lemma_closed_search(nodes, edges, seen, q);
        let n = p.len() - 1;
        assert(q[n - 1] == p[n - 1]);
        assert(seen.contains(q[n - 1]));
        assert(back_step(nodes, edges, p, n));
        assert(seen.contains(p[n]) && !is_auto_scope_trigger(nodes, p[n]));
        assert forall|i: int| 0 <= i < p.len() implies seen.contains(#[trigger] p[i]) by {
            if i < n {
                assert(q[i] == p[i]);
            }
        }
        assert forall|i: int| 1 <= i < p.len() implies !is_auto_scope_trigger(nodes, #[trigger] p[i]) by {
            if i < n {
                assert(q[i] == p[i]);
            }
        }
    }
}

/// Whether an auto-scope market-price trigger feeds the action (for a
/// pair-lock counter, also the action it counters), searching breadth first
/// against the edges.
pub fn trade_builder_analysis_has_upstream_auto_scope_trigger(graph: &TradeFlowGraphRuntime, action_node_key: &str) -> (r: bool)
    ensures
        r == spec_has_upstream_auto_scope_trigger(graph.nodes@, graph.edges@, action_node_key@),
{
    let ghost nodes = graph.nodes@;
    let ghost edges = graph.edges@;
    let ghost starts = search_starts(action_node_key@);
    let key_chars = chars_of(action_node_key);
    let suffix = chars_of(PAIR_LOCK_COUNTER_SUFFIX);
    let mut seen: Vec<String> = Vec::new();
    seen.push(action_node_key.to_string());
    let ghost mut paths: Seq<Seq<Seq<char>>> = seq![seq![action_node_key@]];
    let n = key_chars.len();
    let m = suffix.len();
    let mut is_counter = m <= n;
    let mut i: usize = 0;
    while is_counter && i < m
        invariant
            is_counter ==> m <= n,
            i <= m,
            key_chars@ == action_node_key@,
            suffix@ == PAIR_LOCK_COUNTER_SUFFIX@,
            m == suffix.len(),
            n == key_chars.len(),
            is_counter ==> forall|k: int| 0 <= k < i ==> key_chars@[n - m + k] == suffix@[k],
            !is_counter && i == 0 ==> m > n,
            !is_counter ==> !ends_with(action_node_key@, PAIR_LOCK_COUNTER_SUFFIX@),
        decreases m - i,
    {
        if key_chars[n - m + i] != suffix[i] {
            assert(m <= n);
            assert(key_chars@.subrange(n - m, n as int)[i as int] == key_chars@[n - m + i]);
            is_counter = false;
        }
        i = i + 1;
    }
    if is_counter {
        assert(key_chars@.subrange(n - m, n as int) =~= suffix@);
        let mut base: Vec<char> = Vec::new();
        let mut j: usize = 0;
        while j < n - m
            invariant
                j <= n - m,
                m <= n,
                n == key_chars.len(),
                base@ == key_chars@.subrange(0, j as int),
            decreases n - m - j,
        {
            base.push(key_chars[j]);
            proof { assert(key_chars@.subrange(0, j + 1) =~= key_chars@.subrange(0, j as int).push(key_chars@[j as int])); }
            j = j + 1;
        }
        seen.push(string_from_chars(&base));
        proof {
            paths = paths.push(seq![base@]);
        }
    } else {
        proof {
            if m <= n {
                assert(!ends_with(action_node_key@, PAIR_LOCK_COUNTER_SUFFIX@));
            }
        }
    }
    proof {
        assert(key_seq(seen@) =~= starts);
    }
    let mut head: usize = 0;
    while head < seen.len()
        invariant
            head <= seen.len(),
            nodes == graph.nodes@,
            edges == graph.edges@,
            starts == search_starts(action_node_key@),
            paths.len() == seen.len(),
            forall|k: int| 0 <= k < starts.len() ==> key_seq(seen@).contains(#[trigger] starts[k]),
            forall|k: int| 0 <= k < seen.len() ==> {
                let p = #[trigger] paths[k];
                is_back_path(nodes, edges, p) && starts.contains(p[0]) && p.last() == seen@[k]@
            },
            forall|k: int, s: Seq<char>| 0 <= k < head && #[trigger] has_edge(edges, s, seen@[k]@) && node_index(nodes, s) is Some
                ==> key_seq(seen@).contains(s) && !is_auto_scope_trigger(nodes, s),
        decreases unseen_sources(edges, key_seq(seen@)), seen.len() - head,
    {
        let current = seen[head].clone();
        let ghost seen_before = seen@;
        let mut j: usize = 0;
        while j < graph.edges.len()
            invariant
                j <= graph.edges.len(),
                head < seen.len(),
                nodes == graph.nodes@,
                edges == graph.edges@,
                starts == search_starts(action_node_key@),
                current@ == seen@[head as int]@,
                paths.len() == seen.len(),
                seen_before.len() <= seen@.len(),
                forall|k: int| 0 <= k < seen_before.len() ==> #[trigger] seen@[k] == seen_before[k],
                forall|k: int| 0 <= k < starts.len() ==> key_seq(seen@).contains(#[trigger] starts[k]),
                forall|k: int| 0 <= k < seen.len() ==> {
                    let p = #[trigger] paths[k];
                    is_back_path(nodes, edges, p) && starts.contains(p[0]) && p.last() == seen@[k]@
                },
                forall|k: int, s: Seq<char>| 0 <= k < head && #[trigger] has_edge(edges, s, seen@[k]@) && node_index(nodes, s) is Some
                    ==> key_seq(seen@).contains(s) && !is_auto_scope_trigger(nodes, s),
                forall|jj: int| 0 <= jj < j && #[trigger] edges[jj].target@ == current@ && node_index(nodes, edges[jj].source@) is Some
                    ==> key_seq(seen@).contains(edges[jj].source@) && !is_auto_scope_trigger(nodes, edges[jj].source@),
                unseen_sources(edges, key_seq(seen@)) <= unseen_sources(edges, key_seq(seen_before)),
                seen@.len() > seen_before.len() ==> unseen_sources(edges, key_seq(seen@)) < unseen_sources(edges, key_seq(seen_before)),
            decreases graph.edges.len() - j,
        {
            let edge = &graph.edges[j];
            if edge.target == current {
                match flow_node(graph, edge.source.as_str()) {
                    Some(source_node) => {
                        let mode = node_market_mode(source_node);
                        let ghost p = paths[head as int];
                        let ghost q = p.push(edge.source@);
                        proof {
                            assert(has_edge(edges, edge.source@, current@)) by {
                                assert(edges[j as int].source@ == edge.source@);
                            }
                            assert forall|i: int| 1 <= i < q.len() implies #[trigger] back_step(nodes, edges, q, i) by {
                                if i < p.len() {
                                    assert(q[i] == p[i] && q[i - 1] == p[i - 1]);
                                    assert(back_step(nodes, edges, p, i));
                                } else {
                                    assert(q[i - 1] == current@);
                                    assert(q[i] == edge.source@);
                                }
                            }
                            assert(q[0] == p[0]);
                        }
                        if str_eq(source_node.node_type.as_str(), "trigger.market_price") && str_eq(mode.as_str(), "auto_scope") {
                            proof {
                                assert(is_auto_scope_trigger(nodes, q.last()));
                                assert(is_back_path(nodes, edges, q));
                            }
                            return true;
                        }
                        if !contains_key(&seen, &edge.source) {
                            let ghost before = seen@;
                            seen.push(edge.source.clone());
                            proof {
                                paths = paths.push(q);
                                assert(key_seq(seen@) =~= key_seq(before).push(edge.source@));
                                lemma_unseen_sources_push(edges, key_seq(before), edge.source@, j as int);
                                assert(edges[j as int].source@ == edge.source@);
                                assert forall|k: int| 0 <= k < starts.len() implies key_seq(seen@).contains(#[trigger] starts[k]) by {
                                    let w = choose|w: int| 0 <= w < key_seq(before).len() && key_seq(before)[w] == starts[k];
                                    assert(key_seq(seen@)[w] == starts[k]);
                                }
                                assert forall|k: int, s: Seq<char>| 0 <= k < head && #[trigger] has_edge(edges, s, seen@[k]@) && node_index(nodes, s) is Some
                                    implies key_seq(seen@).contains(s) && !is_auto_scope_trigger(nodes, s) by {
                                    assert(seen@[k] == before[k]);
                                    let w = choose|w: int| 0 <= w < key_seq(before).len() && key_seq(before)[w] == s;
                                    assert(key_seq(seen@)[w] == s);
                                }
                                assert forall|jj: int| 0 <= jj < j && #[trigger] edges[jj].target@ == current@ && node_index(nodes, edges[jj].source@) is Some
                                    implies key_seq(seen@).contains(edges[jj].source@) && !is_auto_scope_trigger(nodes, edges[jj].source@) by {
                                    let w = choose|w: int| 0 <= w < key_seq(before).len() && key_seq(before)[w] == edges[jj].source@;
                                    assert(key_seq(seen@)[w] == edges[jj].source@);
                                }
                                assert(key_seq(seen@)[before.len() as int] == edge.source@);
                                assert(seen@[before.len() as int] == edge.source);
                            }
                        }
                        proof {
                            assert(!is_auto_scope_trigger(nodes, edge.source@));
                        }
                    },
                    None => {},
                }
            }
            j = j + 1;
        }
        proof {
            assert forall|k: int, s: Seq<char>| 0 <= k < head + 1 && #[trigger] has_edge(edges, s, seen@[k]@) && node_index(nodes, s) is Some
                implies key_seq(seen@).contains(s) && !is_auto_scope_trigger(nodes, s) by {
                if k == head {
                    let jj = choose|jj: int| 0 <= jj < edges.len() && #[trigger] edges[jj].source@ == s && edges[jj].target@ == seen@[k]@;
                    assert(edges[jj].target@ == current@);
                }
            }
        }
        head = head + 1;
    }
    proof {
        let sk = key_seq(seen@);
        assert forall|v: Seq<char>, s: Seq<char>| sk.contains(v) && has_edge(edges, s, v) && node_index(nodes, s) is Some
            implies sk.contains(s) && !is_auto_scope_trigger(nodes, s) by {
            let k = choose|k: int| 0 <= k < sk.len() && sk[k] == v;
            assert(seen@[k]@ == v);
            assert(has_edge(edges, s, seen@[k]@));
        }
        if spec_has_upstream_auto_scope_trigger(nodes, edges, action_node_key@) {
            let p = choose|p: Seq<Seq<char>>| #![trigger is_back_path(nodes, edges, p)]
                is_back_path(nodes, edges, p) && p.len() >= 2 && starts.contains(p[0]) && is_auto_scope_trigger(nodes, p.last());
            let w = choose|w: int| 0 <= w < starts.len() && starts[w] == p[0];
            assert(sk.contains(starts[w]));
            lemma_closed_search(nodes, edges, sk, p);
            assert(!is_auto_scope_trigger(nodes, p[p.len() - 1]));
        }
    }
    false
}

} // verus!
