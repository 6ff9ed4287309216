use vstd::prelude::*;

pub mod action_place_order;
pub mod analysis;
pub mod analysis_pnl;
pub mod armed_cache;
pub mod armed_eval;
pub mod avg_rebound;
pub mod buy_fill_lock;
pub mod buy_guards;
pub mod cancel_reconcile;
pub mod confidence_ladder;
pub mod config_diff;
pub mod dca_live;
pub mod decimal;
pub mod decision_ids;
pub mod deferred_submit_events;
pub mod diagnosis;
pub mod decision_log_fields;
pub mod exit_errors;
pub mod exit_fast_submit;
pub mod exit_ladders;
pub mod fill_sync;
pub mod flow;
pub mod graph;
pub mod json;
pub mod json_number;
pub mod ladder_laws;
pub mod ladder_plan;
pub mod market_scope;
pub mod market_snapshots;
pub mod official_pnl;
pub mod official_pnl_step;
pub mod official_rows;
pub mod order;
pub mod runtime_price;
pub mod share_qty;
pub mod snapshot_plan;
pub mod strategy_nodes;
pub mod time;
pub mod trade_diagnostic;
pub mod text;

verus! {
} // verus!
