//! Cost metrics and how they add up over the cycles of a session.
//!
//! A counter starts over when the process that counts does. The history keeps
//! what was counted before each restart, so that its totals span all cycles.

use vstd::prelude::*;

use crate::json::{as_unsigned, field, Json, JsonValue};
use crate::usd::Usd;

verus! {

/// Cost metrics captured from an input document.
#[derive(Debug, Clone, Copy)]
pub struct CostMetrics {
    pub total_cost_usd: Usd,
    pub total_duration_ms: u64,
    pub total_api_duration_ms: u64,
    pub total_lines_added: u64,
    pub total_lines_removed: u64,
}

/// The metrics in which nothing has been spent.
pub open spec fn no_cost() -> CostMetrics {
    CostMetrics {
        total_cost_usd: Usd::spec_zero(),
        total_duration_ms: 0,
        total_api_duration_ms: 0,
        total_lines_added: 0,
        total_lines_removed: 0,
    }
}

impl Default for CostMetrics {
    fn default() -> (metrics: CostMetrics)
        ensures
            metrics == no_cost(),
    {
        CostMetrics {
            total_cost_usd: Usd::zero(),
            total_duration_ms: 0,
            total_api_duration_ms: 0,
            total_lines_added: 0,
            total_lines_removed: 0,
        }
    }
}

/// The unsigned integer at the member `key` of `json`, or zero.
pub open spec fn count_at(json: Json, key: Seq<char>) -> u64 {
    match as_unsigned(field(json, key)) {
        Some(count) => count,
        None => 0,
    }
}

/// The amount at the member `key` of `json`, or none.
pub open spec fn amount_at(json: Json, key: Seq<char>) -> Usd {
    match field(json, key) {
        Some(Json::Number(number)) => Usd { bits: number.double_bits },
        _ => Usd::spec_zero(),
    }
}

/// The metrics that the cost document `json` gives.
pub open spec fn metrics_of(json: Json) -> CostMetrics {
    CostMetrics {
        total_cost_usd: amount_at(json, "total_cost_usd"@),
        total_duration_ms: count_at(json, "total_duration_ms"@),
        total_api_duration_ms: count_at(json, "total_api_duration_ms"@),
        total_lines_added: count_at(json, "total_lines_added"@),
        total_lines_removed: count_at(json, "total_lines_removed"@),
    }
}

/// The unsigned integer at the member `key` of `value`, or zero.
pub fn read_count(value: &JsonValue, key: &str) -> (count: u64)
    ensures
        count == count_at(value@, key@),
{
    match value.get(key) {
        Some(member) => match member.as_u64() {
            Some(count) => count,
            None => 0,
        },
        None => 0,
    }
}

impl CostMetrics {
    /// The metrics that a cost document gives. What is missing or of another
    /// type counts as zero.
    pub fn from_cost_value(value: &JsonValue) -> (metrics: CostMetrics)
        ensures
            metrics == metrics_of(value@),
    {
        let total_cost_usd: Usd = match value.get("total_cost_usd") {
            Some(JsonValue::Number(number)) => Usd { bits: number.double_bits },
            _ => Usd::zero(),
        };
        CostMetrics {
            total_cost_usd,
            total_duration_ms: read_count(value, "total_duration_ms"),
            total_api_duration_ms: read_count(value, "total_api_duration_ms"),
            total_lines_added: read_count(value, "total_lines_added"),
            total_lines_removed: read_count(value, "total_lines_removed"),
        }
    }
}

/// Aggregated cost data: what the running cycle has counted, what the cycles
/// before it had counted when each of them ended, and both together.
#[derive(Debug, Clone, Copy)]
pub struct CostHistory {
    pub current: CostMetrics,
    pub accumulated: CostMetrics,
    pub total: CostMetrics,
}

/// The history before anything was counted.
pub open spec fn no_cost_history() -> CostHistory {
    CostHistory { current: no_cost(), accumulated: no_cost(), total: no_cost() }
}

impl Default for CostHistory {
    fn default() -> (history: CostHistory)
        ensures
            history == no_cost_history(),
    {
        CostHistory {
            current: CostMetrics::default(),
            accumulated: CostMetrics::default(),
            total: CostMetrics::default(),
        }
    }
}

/// What a counter has accumulated once it reads `new` after `current`: a
/// counter that reads less than before has started over, and what it read
/// before is kept.
pub open spec fn carried(accumulated: u64, current: u64, new: u64) -> int {
    if new < current {
        accumulated + current
    } else {
        accumulated as int
    }
}

/// Whether the dollar amount `new` after `current` shows a new cycle.
pub open spec fn usd_restarts(current: Usd, new: Usd) -> bool {
    Usd::spec_zero().is_less(current) && new.is_less(current)
}

/// Whether no counter of `history` overflows when it takes in `new`.
pub open spec fn has_room(history: CostHistory, new: CostMetrics) -> bool {
    &&& new.total_duration_ms + carried(
        history.accumulated.total_duration_ms,
        history.current.total_duration_ms,
        new.total_duration_ms,
    ) <= u64::MAX
    &&& new.total_api_duration_ms + carried(
        history.accumulated.total_api_duration_ms,
        history.current.total_api_duration_ms,
        new.total_api_duration_ms,
    ) <= u64::MAX
    &&& new.total_lines_added + carried(
        history.accumulated.total_lines_added,
        history.current.total_lines_added,
        new.total_lines_added,
    ) <= u64::MAX
    &&& new.total_lines_removed + carried(
        history.accumulated.total_lines_removed,
        history.current.total_lines_removed,
        new.total_lines_removed,
    ) <= u64::MAX
}

/// Whether `after` is `before` once it has taken in `new`, where `plus` adds
/// dollar amounts.
pub open spec fn cost_taken_in<F: Fn(Usd, Usd) -> Usd>(
    before: CostHistory,
    new: CostMetrics,
    plus: F,
    after: CostHistory,
) -> bool {
    &&& after.current == new
    &&& after.accumulated.total_duration_ms == carried(
        before.accumulated.total_duration_ms,
        before.current.total_duration_ms,
        new.total_duration_ms,
    )
    &&& after.accumulated.total_api_duration_ms == carried(
        before.accumulated.total_api_duration_ms,
        before.current.total_api_duration_ms,
        new.total_api_duration_ms,
    )
    &&& after.accumulated.total_lines_added == carried(
        before.accumulated.total_lines_added,
        before.current.total_lines_added,
        new.total_lines_added,
    )
    &&& after.accumulated.total_lines_removed == carried(
        before.accumulated.total_lines_removed,
        before.current.total_lines_removed,
        new.total_lines_removed,
    )
    &&& if usd_restarts(before.current.total_cost_usd, new.total_cost_usd) {
        call_ensures(
            plus,
            (before.accumulated.total_cost_usd, before.current.total_cost_usd),
            after.accumulated.total_cost_usd,
        )
    } else {
        after.accumulated.total_cost_usd == before.accumulated.total_cost_usd
    }
    &&& after.total.total_duration_ms == new.total_duration_ms
        + after.accumulated.total_duration_ms
    &&& after.total.total_api_duration_ms == new.total_api_duration_ms
        + after.accumulated.total_api_duration_ms
    &&& after.total.total_lines_added == new.total_lines_added
        + after.accumulated.total_lines_added
    &&& after.total.total_lines_removed == new.total_lines_removed
        + after.accumulated.total_lines_removed
    &&& call_ensures(
        plus,
        (new.total_cost_usd, after.accumulated.total_cost_usd),
        after.total.total_cost_usd,
    )
}

/// Whether a counter overflows when it reads `new` after `current`.
fn counter_has_room(accumulated: u64, current: u64, new: u64) -> (room: bool)
    ensures
        room == (new + carried(accumulated, current, new) <= u64::MAX),
{
    let sum: u128 = if new < current {
        accumulated as u128 + current as u128
    } else {
        accumulated as u128
    };
    sum + new as u128 <= u64::MAX as u128
}

/// What a counter has accumulated once it reads `new` after `current`.
fn carry(accumulated: u64, current: u64, new: u64) -> (sum: u64)
    requires
        carried(accumulated, current, new) <= u64::MAX,
    ensures
        sum == carried(accumulated, current, new),
{
    if current > 0 && new < current {
        accumulated + current
    } else {
        accumulated
    }
}

impl CostHistory {
    /// Whether no counter overflows when the history takes in `new_metrics`.
    pub fn can_apply(&self, new_metrics: &CostMetrics) -> (room: bool)
        ensures
            room == has_room(*self, *new_metrics),
    {
        counter_has_room(
            self.accumulated.total_duration_ms,
            self.current.total_duration_ms,
            new_metrics.total_duration_ms,
        ) && counter_has_room(
            self.accumulated.total_api_duration_ms,
            self.current.total_api_duration_ms,
            new_metrics.total_api_duration_ms,
        ) && counter_has_room(
            self.accumulated.total_lines_added,
            self.current.total_lines_added,
            new_metrics.total_lines_added,
        ) && counter_has_room(
            self.accumulated.total_lines_removed,
            self.current.total_lines_removed,
            new_metrics.total_lines_removed,
        )
    }

    /// Takes in `new_metrics`. `plus` adds dollar amounts.
    pub fn apply<F: Fn(Usd, Usd) -> Usd>(&mut self, new_metrics: &CostMetrics, plus: &F)
        requires
            has_room(*old(self), *new_metrics),
            forall|a: Usd, b: Usd| call_requires(*plus, (a, b)),
        ensures
            cost_taken_in(*old(self), *new_metrics, *plus, *final(self)),
    {
        let mut accumulated: CostMetrics = self.accumulated;
        if Usd::zero().less_than(&self.current.total_cost_usd)
            && new_metrics.total_cost_usd.less_than(&self.current.total_cost_usd) {
            accumulated.total_cost_usd = plus(
                self.accumulated.total_cost_usd,
                self.current.total_cost_usd,
            );
        }
        accumulated.total_duration_ms = carry(
            self.accumulated.total_duration_ms,
            self.current.total_duration_ms,
            new_metrics.total_duration_ms,
        );
        accumulated.total_api_duration_ms = carry(
            self.accumulated.total_api_duration_ms,
            self.current.total_api_duration_ms,
            new_metrics.total_api_duration_ms,
        );
        accumulated.total_lines_added = carry(
            self.accumulated.total_lines_added,
            self.current.total_lines_added,
            new_metrics.total_lines_added,
        );
        accumulated.total_lines_removed = carry(
            self.accumulated.total_lines_removed,
            self.current.total_lines_removed,
            new_metrics.total_lines_removed,
        );
        self.accumulated = accumulated;
        self.current = *new_metrics;
        self.total = CostMetrics {
            total_cost_usd: plus(new_metrics.total_cost_usd, accumulated.total_cost_usd),
            total_duration_ms: new_metrics.total_duration_ms + accumulated.total_duration_ms,
            total_api_duration_ms: new_metrics.total_api_duration_ms
                + accumulated.total_api_duration_ms,
            total_lines_added: new_metrics.total_lines_added + accumulated.total_lines_added,
            total_lines_removed: new_metrics.total_lines_removed
                + accumulated.total_lines_removed,
        };
    }
}

} // verus!
