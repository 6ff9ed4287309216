//! Paging through exchange fills: the running totals of a sync, and whether
//! the exchange offers another page.
use vstd::prelude::*;
use crate::text::{str_eq, trim, trimmed_non_empty};

verus! {

broadcast use vstd::string::group_string_axioms;

/// The totals of a run over pages of fills.
pub struct TradeBuilderFillPageSyncResult {
    pub synced_count: usize,
    pub pages_scanned: usize,
    pub raw_count: usize,
    pub first_row_keys: Vec<String>,
    pub next_cursor_present: bool,
}

pub open spec fn sat_add(a: usize, b: usize) -> usize {
    if a + b > usize::MAX { usize::MAX } else { (a + b) as usize }
}

impl TradeBuilderFillPageSyncResult {
    /// Adds another run's totals (saturating); the first non-empty row keys
    /// stay.
    pub fn merge(&mut self, other: TradeBuilderFillPageSyncResult)
        ensures
            final(self).synced_count == sat_add(old(self).synced_count, other.synced_count),
            final(self).pages_scanned == sat_add(old(self).pages_scanned, other.pages_scanned),
            final(self).raw_count == sat_add(old(self).raw_count, other.raw_count),
            final(self).next_cursor_present == (old(self).next_cursor_present || other.next_cursor_present),
            final(self).first_row_keys@ == if old(self).first_row_keys@.len() == 0 { other.first_row_keys@ } else { old(self).first_row_keys@ },
    {
        self.synced_count = self.synced_count.saturating_add(other.synced_count);
        self.pages_scanned = self.pages_scanned.saturating_add(other.pages_scanned);
        self.raw_count = self.raw_count.saturating_add(other.raw_count);
        self.next_cursor_present = self.next_cursor_present || other.next_cursor_present;
        if self.first_row_keys.len() == 0 {
            self.first_row_keys = other.first_row_keys;
        }
    }
}

/// Whether the exchange offers another page: a next cursor that is not
/// blank, not an end marker (`LTE=`, `END`, `end`) and not the cursor just
/// read.
pub open spec fn spec_cursor_has_next(next_cursor: Option<Seq<char>>, current_cursor: Seq<char>) -> bool {
    match next_cursor {
        None => false,
        Some(c) => {
            let t = trim(c);
            t.len() > 0 && t != "LTE="@ && t != "END"@ && t != "end"@ && t != current_cursor
        },
    }
}

pub fn trade_builder_cursor_has_next(next_cursor: Option<&str>, current_cursor: &str) -> (r: bool)
    ensures
        r == spec_cursor_has_next(match next_cursor { Some(c) => Some(c@), None => None }, current_cursor@),
{
    let next = match next_cursor {
        Some(c) => match trimmed_non_empty(c) {
            Some(t) => t,
            None => return false,
        },
        None => return false,
    };
    !(str_eq(next.as_str(), "LTE=") || str_eq(next.as_str(), "END") || str_eq(next.as_str(), "end"))
        && !str_eq(next.as_str(), current_cursor)
}

} // verus!
