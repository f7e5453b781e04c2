//! What holds of amounts, of cost metrics and of the totals that they add up to.

use vstd::prelude::*;

use crate::cost::{
    carried, cost_taken_in, has_room, metrics_of, no_cost, no_cost_history, usd_restarts,
    CostHistory, CostMetrics,
};
use crate::json::{Json, JsonNumber};
use crate::usd::Usd;

verus! {

/// Law: amounts that are not negative are ordered as their bit patterns are, up
/// to infinity.
pub proof fn law_positive_amounts_are_ordered_by_their_bits(a: Usd, b: Usd)
    requires
        a.bits <= 0x7ff0_0000_0000_0000,
        b.bits <= 0x7ff0_0000_0000_0000,
    ensures
        a.is_less(b) <==> a.bits < b.bits,
{
}

/// Law: to change the sign of two amounts turns their order round.
pub proof fn law_signs_turn_the_order_round(a: Usd, b: Usd, minus_a: Usd, minus_b: Usd)
    requires
        a.bits < 0x8000_0000_0000_0000,
        b.bits < 0x8000_0000_0000_0000,
        minus_a.bits == a.bits + 0x8000_0000_0000_0000,
        minus_b.bits == b.bits + 0x8000_0000_0000_0000,
    ensures
        minus_a.is_less(minus_b) <==> b.is_less(a),
{
}

/// Law: a negative amount is less than one that is not, except that the two
/// zeros are the same; the other way round it never is.
pub proof fn law_negative_amounts_come_first(negative: Usd, other: Usd)
    requires
        0x8000_0000_0000_0000 <= negative.bits <= 0xfff0_0000_0000_0000,
        other.bits <= 0x7ff0_0000_0000_0000,
    ensures
        negative.is_less(other) <==> !(negative.bits == 0x8000_0000_0000_0000 && other.bits == 0),
        !other.is_less(negative),
{
}

/// Law: what is no number is neither less nor more than anything.
pub proof fn law_what_is_no_number_has_no_order(nan: Usd, other: Usd)
    requires
        0x7ff0_0000_0000_0000 < nan.bits < 0x8000_0000_0000_0000 || nan.bits
            > 0xfff0_0000_0000_0000,
    ensures
        !nan.is_less(other),
        !other.is_less(nan),
{
}

/// Law: the order of amounts is strict and transitive.
pub proof fn law_amounts_are_strictly_ordered(a: Usd, b: Usd, c: Usd)
    ensures
        !a.is_less(a),
        a.is_less(b) ==> !b.is_less(a),
        a.is_less(b) && b.is_less(c) ==> a.is_less(c),
{
}

/// Law: before anything was counted every counter is at zero.
pub proof fn law_counting_starts_at_zero()
    ensures
        Usd::spec_zero().bits == 0,
        no_cost().total_cost_usd.bits == 0,
        no_cost().total_duration_ms == 0,
        no_cost().total_api_duration_ms == 0,
        no_cost().total_lines_added == 0,
        no_cost().total_lines_removed == 0,
        no_cost_history().current == no_cost(),
        no_cost_history().accumulated == no_cost(),
        no_cost_history().total == no_cost(),
{
}

/// Whether the member `key` of `json` counts `count`: it is a number that is
/// the unsigned integer `count`, or there is no such number and `count` is zero.
pub open spec fn counts(json: Json, key: Seq<char>, count: int) -> bool {
    match json {
        Json::Object(map) => if map.contains_key(key) {
            match map[key] {
                Json::Number(number) => match number.unsigned {
                    Some(n) => count == n,
                    None => count == 0,
                },
                _ => count == 0,
            }
        } else {
            count == 0
        },
        _ => count == 0,
    }
}

/// Law: a member that is set to an unsigned integer counts that, one that is
/// set to another number, to another value or not at all counts zero.
pub proof fn law_members_count_what_was_set(
    map: Map<Seq<char>, Json>,
    key: Seq<char>,
    number: JsonNumber,
    json: Json,
    count: int,
)
    ensures
        number.unsigned matches Some(n) ==> (counts(
            Json::Object(map.insert(key, Json::Number(number))),
            key,
            count,
        ) <==> count == n),
        number.unsigned is None ==> (counts(
            Json::Object(map.insert(key, Json::Number(number))),
            key,
            count,
        ) <==> count == 0),
        !(json is Number) ==> (counts(Json::Object(map.insert(key, json)), key, count) <==> count
            == 0),
        counts(Json::Object(map.remove(key)), key, count) <==> count == 0,
        !(json is Object) ==> (counts(json, key, count) <==> count == 0),
{
}

/// Law: each counter of the metrics is read from the member of its own name.
pub proof fn law_metrics_are_read_by_name(json: Json)
    ensures
        counts(json, "total_duration_ms"@, metrics_of(json).total_duration_ms as int),
        counts(json, "total_api_duration_ms"@, metrics_of(json).total_api_duration_ms as int),
        counts(json, "total_lines_added"@, metrics_of(json).total_lines_added as int),
        counts(json, "total_lines_removed"@, metrics_of(json).total_lines_removed as int),
{
}

/// Law: the dollar amount is the double that the member `total_cost_usd` is, and
/// zero where that is no number.
pub proof fn law_amount_is_read_by_name(json: Json, map: Map<Seq<char>, Json>)
    ensures
        json == Json::Object(map) && map.contains_key("total_cost_usd"@) ==> (
        map["total_cost_usd"@] matches Json::Number(number) ==> metrics_of(json).total_cost_usd.bits
            == number.double_bits),
        json == Json::Object(map) && map.contains_key("total_cost_usd"@) && !(
        map["total_cost_usd"@] is Number) ==> metrics_of(json).total_cost_usd.bits == 0,
        json == Json::Object(map) && !map.contains_key("total_cost_usd"@) ==> metrics_of(
            json,
        ).total_cost_usd.bits == 0,
        !(json is Object) ==> metrics_of(json).total_cost_usd.bits == 0,
{
}

/// What a counter has counted since it read `current`, now that it reads `new`:
/// the difference or, where it has started over, all that it reads.
pub open spec fn counted_since(current: u64, new: u64) -> int {
    if new >= current {
        new - current
    } else {
        new as int
    }
}

/// Law: what is taken in is the current reading, and each total grows by what
/// its counter has counted since the reading before.
pub proof fn law_totals_grow_by_what_was_counted<F: Fn(Usd, Usd) -> Usd>(
    before: CostHistory,
    new: CostMetrics,
    plus: F,
    after: CostHistory,
)
    requires
        cost_taken_in(before, new, plus, after),
    ensures
        after.current == new,
        before.total.total_duration_ms == before.current.total_duration_ms
            + before.accumulated.total_duration_ms ==> after.total.total_duration_ms
            == before.total.total_duration_ms + counted_since(
            before.current.total_duration_ms,
            new.total_duration_ms,
        ),
        before.total.total_api_duration_ms == before.current.total_api_duration_ms
            + before.accumulated.total_api_duration_ms ==> after.total.total_api_duration_ms
            == before.total.total_api_duration_ms + counted_since(
            before.current.total_api_duration_ms,
            new.total_api_duration_ms,
        ),
        before.total.total_lines_added == before.current.total_lines_added
            + before.accumulated.total_lines_added ==> after.total.total_lines_added
            == before.total.total_lines_added + counted_since(
            before.current.total_lines_added,
            new.total_lines_added,
        ),
        before.total.total_lines_removed == before.current.total_lines_removed
            + before.accumulated.total_lines_removed ==> after.total.total_lines_removed
            == before.total.total_lines_removed + counted_since(
            before.current.total_lines_removed,
            new.total_lines_removed,
        ),
{
}

/// Law: the total is the current reading and what earlier cycles have counted,
/// whatever the total was before, and what earlier cycles have counted grows by
/// the reading that a restart has cut off.
pub proof fn law_restarts_are_carried<F: Fn(Usd, Usd) -> Usd>(
    before: CostHistory,
    new: CostMetrics,
    plus: F,
    after: CostHistory,
)
    requires
        cost_taken_in(before, new, plus, after),
    ensures
        after.total.total_duration_ms == after.current.total_duration_ms
            + after.accumulated.total_duration_ms,
        after.total.total_api_duration_ms == after.current.total_api_duration_ms
            + after.accumulated.total_api_duration_ms,
        after.total.total_lines_added == after.current.total_lines_added
            + after.accumulated.total_lines_added,
        after.total.total_lines_removed == after.current.total_lines_removed
            + after.accumulated.total_lines_removed,
        after.accumulated.total_duration_ms - before.accumulated.total_duration_ms == if new.total_duration_ms
            < before.current.total_duration_ms {
            before.current.total_duration_ms as int
        } else {
            0
        },
        after.accumulated.total_api_duration_ms - before.accumulated.total_api_duration_ms
            == if new.total_api_duration_ms < before.current.total_api_duration_ms {
            before.current.total_api_duration_ms as int
        } else {
            0
        },
        after.accumulated.total_lines_added - before.accumulated.total_lines_added == if new.total_lines_added
            < before.current.total_lines_added {
            before.current.total_lines_added as int
        } else {
            0
        },
        after.accumulated.total_lines_removed - before.accumulated.total_lines_removed
            == if new.total_lines_removed < before.current.total_lines_removed {
            before.current.total_lines_removed as int
        } else {
            0
        },
{
}

/// What a restart that a reading `new` after `current` shows has cut off.
pub open spec fn cut_off(current: u64, new: u64) -> int {
    if new < current {
        current as int
    } else {
        0
    }
}

/// Law: metrics fit if and only if each counter's reading fits on top of what
/// earlier cycles, the one that it ends among them, have counted.
pub proof fn law_metrics_fit_while_totals_do(before: CostHistory, new: CostMetrics)
    ensures
        has_room(before, new) <==> {
            &&& before.accumulated.total_duration_ms + cut_off(
                before.current.total_duration_ms,
                new.total_duration_ms,
            ) + new.total_duration_ms <= u64::MAX
            &&& before.accumulated.total_api_duration_ms + cut_off(
                before.current.total_api_duration_ms,
                new.total_api_duration_ms,
            ) + new.total_api_duration_ms <= u64::MAX
            &&& before.accumulated.total_lines_added + cut_off(
                before.current.total_lines_added,
                new.total_lines_added,
            ) + new.total_lines_added <= u64::MAX
            &&& before.accumulated.total_lines_removed + cut_off(
                before.current.total_lines_removed,
                new.total_lines_removed,
            ) + new.total_lines_removed <= u64::MAX
        },
{
}

/// Law: metrics in which no counter reads more fit wherever those that read
/// more do, as long as no counter starts over.
pub proof fn law_smaller_metrics_fit(before: CostHistory, new: CostMetrics, smaller: CostMetrics)
    requires
        has_room(before, new),
        before.current.total_duration_ms <= smaller.total_duration_ms <= new.total_duration_ms,
        before.current.total_api_duration_ms <= smaller.total_api_duration_ms
            <= new.total_api_duration_ms,
        before.current.total_lines_added <= smaller.total_lines_added <= new.total_lines_added,
        before.current.total_lines_removed <= smaller.total_lines_removed
            <= new.total_lines_removed,
    ensures
        has_room(before, smaller),
{
}

/// Law: dollars are carried over a restart. Where a positive amount is followed
/// by any smaller one, negative ones included, it is added to what earlier
/// cycles have cost; where it is followed by the same or a larger one, or was
/// not positive, nothing is. The total is the current amount and what earlier
/// cycles have cost.
pub proof fn law_dollars_are_carried<F: Fn(Usd, Usd) -> Usd>(
    before: CostHistory,
    new: CostMetrics,
    plus: F,
    after: CostHistory,
)
    requires
        cost_taken_in(before, new, plus, after),
    ensures
        after.current.total_cost_usd == new.total_cost_usd,
        0 < before.current.total_cost_usd.bits <= 0x7ff0_0000_0000_0000 && (
        new.total_cost_usd.bits < before.current.total_cost_usd.bits || 0x8000_0000_0000_0000
            <= new.total_cost_usd.bits <= 0xfff0_0000_0000_0000) ==> call_ensures(
            plus,
            (before.accumulated.total_cost_usd, before.current.total_cost_usd),
            after.accumulated.total_cost_usd,
        ),
        !(0 < before.current.total_cost_usd.bits <= 0x7ff0_0000_0000_0000)
            ==> after.accumulated.total_cost_usd == before.accumulated.total_cost_usd,
        before.current.total_cost_usd.bits <= new.total_cost_usd.bits < 0x8000_0000_0000_0000
            || new.total_cost_usd.bits > 0xfff0_0000_0000_0000
            ==> after.accumulated.total_cost_usd == before.accumulated.total_cost_usd,
        call_ensures(
            plus,
            (new.total_cost_usd, after.accumulated.total_cost_usd),
            after.total.total_cost_usd,
        ),
{
}

/// Whether an amount is a number that is not negative.
pub open spec fn is_not_negative(amount: Usd) -> bool {
    amount.bits <= 0x7ff0_0000_0000_0000
}

/// Whether `plus`, on amounts that are not negative, does not depend on the
/// order of its arguments, grows with each of them, and gives no less than
/// either.
pub open spec fn adds_up_amounts<F: Fn(Usd, Usd) -> Usd>(plus: F) -> bool {
    &&& forall|a: Usd, b: Usd, x: Usd| #[trigger]
        call_ensures(plus, (a, b), x) && is_not_negative(a) && is_not_negative(b)
            ==> is_not_negative(x) && a.bits <= x.bits && b.bits <= x.bits
    &&& forall|a: Usd, b: Usd, c: Usd, d: Usd, x: Usd, y: Usd| #[trigger]
        call_ensures(plus, (a, b), x) && #[trigger] call_ensures(plus, (c, d), y)
            && is_not_negative(a) && is_not_negative(b) && is_not_negative(c) && is_not_negative(d)
            && ((a.bits <= c.bits && b.bits <= d.bits) || (a.bits <= d.bits && b.bits <= c.bits))
            ==> x.bits <= y.bits
}

/// Law: the dollar total never falls while amounts are not negative, over
/// restarts too.
pub proof fn law_dollar_total_never_falls<F: Fn(Usd, Usd) -> Usd>(
    before: CostHistory,
    new: CostMetrics,
    plus: F,
    after: CostHistory,
)
    requires
        cost_taken_in(before, new, plus, after),
        adds_up_amounts(plus),
        is_not_negative(before.current.total_cost_usd),
        is_not_negative(before.accumulated.total_cost_usd),
        is_not_negative(new.total_cost_usd),
        call_ensures(
            plus,
            (before.current.total_cost_usd, before.accumulated.total_cost_usd),
            before.total.total_cost_usd,
        ),
    ensures
        before.total.total_cost_usd.bits <= after.total.total_cost_usd.bits,
        is_not_negative(after.accumulated.total_cost_usd),
{
    law_dollars_are_carried(before, new, plus, after);
}

/// Law: a reading that is no less than the one before starts no new cycle, and
/// one that is less than a positive one does.
pub proof fn law_falling_amounts_show_restarts(current: Usd, new: Usd)
    ensures
        0 < current.bits <= 0x7ff0_0000_0000_0000 && new.bits < current.bits ==> usd_restarts(
            current,
            new,
        ),
        usd_restarts(current, new) ==> new.is_less(current) && 0 < current.bits
            <= 0x7ff0_0000_0000_0000,
{
}

/// Law: a counter that reads less has its last reading carried, and no other
/// has.
pub proof fn law_falling_counters_are_carried(accumulated: u64, current: u64, new: u64)
    ensures
        carried(accumulated, current, new) - accumulated == current || carried(
            accumulated,
            current,
            new,
        ) == accumulated,
        new < current ==> carried(accumulated, current, new) - current == accumulated,
        new >= current ==> carried(accumulated, current, new) == accumulated,
{
}

} // verus!
