//! Events of a submit that are held back until the submit is known to have
//! gone through: the passed guard diagnostics, at most one, and the order
//! events, in the order they came. Prices in millionths.
use vstd::prelude::*;
use crate::json::{JsonValue, JsonView};

verus! {

/// The guard diagnostics of a submit whose guards passed.
pub struct DeferredTradeBuilderGuardPassed {
    pub current_price: i64,
    pub desired_price: i64,
    pub best_ask: Option<i64>,
    pub trigger_price_guard: JsonValue,
    pub execution_floor_guard: JsonValue,
    pub max_price_guard: JsonValue,
}

/// An order event held back.
pub struct DeferredTradeBuilderOrderEvent {
    pub event_type: &'static str,
    pub payload: JsonValue,
}

pub open spec fn event_view(e: DeferredTradeBuilderOrderEvent) -> (Seq<char>, JsonView) {
    (e.event_type@, e.payload@)
}

pub open spec fn events_view(s: Seq<DeferredTradeBuilderOrderEvent>) -> Seq<(Seq<char>, JsonView)> {
    s.map_values(|e: DeferredTradeBuilderOrderEvent| event_view(e))
}

pub struct DeferredTradeBuilderSubmitEvents {
    pub guard_passed: Option<DeferredTradeBuilderGuardPassed>,
    pub order_events: Vec<DeferredTradeBuilderOrderEvent>,
}

impl Default for DeferredTradeBuilderSubmitEvents {
    /// Nothing held back.
    fn default() -> (r: Self)
        ensures
            r.guard_passed is None,
            r.order_events@.len() == 0,
    {
        DeferredTradeBuilderSubmitEvents { guard_passed: None, order_events: Vec::new() }
    }
}

impl DeferredTradeBuilderSubmitEvents {
    /// Nothing held back.
    pub fn new() -> (r: Self)
        ensures
            r.guard_passed is None,
            r.order_events@.len() == 0,
    {
        DeferredTradeBuilderSubmitEvents { guard_passed: None, order_events: Vec::new() }
    }

    /// Holds back the passed guard diagnostics, in place of any held before.
    pub fn defer_guard_passed(
        &mut self,
        current_price: i64,
        desired_price: i64,
        best_ask: Option<i64>,
        trigger_price_guard: JsonValue,
        execution_floor_guard: JsonValue,
        max_price_guard: JsonValue,
    )
        ensures
            final(self).guard_passed matches Some(g) && g.current_price == current_price && g.desired_price == desired_price
                && g.best_ask == best_ask && g.trigger_price_guard@ == trigger_price_guard@
                && g.execution_floor_guard@ == execution_floor_guard@ && g.max_price_guard@ == max_price_guard@,
            final(self).order_events@ == old(self).order_events@,
    {
        self.guard_passed = Some(DeferredTradeBuilderGuardPassed {
            current_price,
            desired_price,
            best_ask,
            trigger_price_guard,
            execution_floor_guard,
            max_price_guard,
        });
    }

    /// Holds back an order event, after those held before.
    pub fn defer_order_event(&mut self, event_type: &'static str, payload: JsonValue)
        ensures
            events_view(final(self).order_events@) == events_view(old(self).order_events@).push((event_type@, payload@)),
            final(self).guard_passed == old(self).guard_passed,
    {
        let ghost before = self.order_events@;
        let ghost pv = payload@;
        self.order_events.push(DeferredTradeBuilderOrderEvent { event_type, payload });
        assert(events_view(self.order_events@) =~= events_view(before).push((event_type@, pv)));
    }

    /// Hands over what is held back, for the store to append in this order
    /// (the guard diagnostics first, then the order events), and leaves
    /// nothing held back.
    pub fn take_for_flush(&mut self) -> (r: (Option<DeferredTradeBuilderGuardPassed>, Vec<DeferredTradeBuilderOrderEvent>))
        ensures
            r.0 == old(self).guard_passed,
            r.1@ == old(self).order_events@,
            final(self).guard_passed is None,
            final(self).order_events@.len() == 0,
    {
        let guard = self.guard_passed.take();
        let mut events: Vec<DeferredTradeBuilderOrderEvent> = Vec::new();
        std::mem::swap(&mut events, &mut self.order_events);
        (guard, events)
    }
}

} // verus!
