//! Laws relating successive `unlock` transitions: idempotence and
//! conservation over a schedule's whole lifetime.

use vstd::prelude::*;

verus! {

use crate::engine::{advanced_start, matured_tranches, released_amount};

/// The locked total left after unlocking at each time in `times`, in order,
/// starting from the given schedule state.
pub open spec fn remaining_after(
    start_time: int,
    unit_time: int,
    unit_amount: int,
    total_amount: int,
    times: Seq<int>,
) -> int
    decreases times.len(),
{
    if times.len() == 0 {
        total_amount
    } else {
        let m = matured_tranches(start_time, unit_time, times[0]);
        let a = released_amount(m, unit_amount, total_amount);
        remaining_after(
            advanced_start(start_time, unit_time, times[0]),
            unit_time,
            unit_amount,
            total_amount - a,
            times.drop_first(),
        )
    }
}

/// The sum of the amounts released by unlocking at each time in `times`, in
/// order, starting from the given schedule state.
pub open spec fn released_over(
    start_time: int,
    unit_time: int,
    unit_amount: int,
    total_amount: int,
    times: Seq<int>,
) -> int
    decreases times.len(),
{
    if times.len() == 0 {
        0
    } else {
        let m = matured_tranches(start_time, unit_time, times[0]);
        let a = released_amount(m, unit_amount, total_amount);
        a + released_over(
            advanced_start(start_time, unit_time, times[0]),
            unit_time,
            unit_amount,
            total_amount - a,
            times.drop_first(),
        )
    }
}

/// No tranche count is ever negative: a reading before the current boundary
/// counts zero tranches, and elapsed time past it divides to a non-negative
/// count.
pub proof fn lemma_matured_nonnegative(start_time: int, unit_time: int, now: int)
    requires
        unit_time > 0,
    ensures
        matured_tranches(start_time, unit_time, now) >= 0,
{
    if now >= start_time {
        vstd::arithmetic::div_mod::lemma_div_pos_is_pos(now - start_time, unit_time);
    }
}

/// Law (idempotence): after an unlock at `now` has advanced the clock, a
/// second unlock at the same `now` finds no matured tranche and so releases
/// nothing, whatever remains locked.
pub proof fn lemma_unlock_idempotent(
    start_time: int,
    unit_time: int,
    unit_amount: int,
    total_amount: int,
    now: int,
)
    requires
        unit_time > 0,
        unit_amount >= 0,
        total_amount >= 0,
    ensures
        matured_tranches(advanced_start(start_time, unit_time, now), unit_time, now) == 0,
        released_amount(0, unit_amount, total_amount) == 0,
{
    if now >= start_time {
        let m = matured_tranches(start_time, unit_time, now);
        let next = advanced_start(start_time, unit_time, now);
        vstd::arithmetic::div_mod::lemma_fundamental_div_mod(now - start_time, unit_time);
        vstd::arithmetic::div_mod::lemma_mod_division_less_than_divisor(
            now - start_time,
            unit_time,
        );
        assert(now - next == (now - start_time) % unit_time);
        vstd::arithmetic::div_mod::lemma_basic_div(now - next, unit_time);
    }
}

/// Law (conservation): over any sequence of unlocks, the amounts released
/// sum to exactly what left the locked total, so their sum never exceeds the
/// initial total, and the remaining total never goes below zero.
pub proof fn lemma_conservation(
    start_time: int,
    unit_time: int,
    unit_amount: int,
    total_amount: int,
    times: Seq<int>,
)
    requires
        unit_time > 0,
        unit_amount >= 0,
        total_amount >= 0,
    ensures
        released_over(start_time, unit_time, unit_amount, total_amount, times) + remaining_after(
            start_time,
            unit_time,
            unit_amount,
            total_amount,
            times,
        ) == total_amount,
        0 <= released_over(start_time, unit_time, unit_amount, total_amount, times)
            <= total_amount,
        0 <= remaining_after(start_time, unit_time, unit_amount, total_amount, times)
            <= total_amount,
    decreases times.len(),
{
    if times.len() > 0 {
        let m = matured_tranches(start_time, unit_time, times[0]);
        lemma_matured_nonnegative(start_time, unit_time, times[0]);
        vstd::arithmetic::mul::lemma_mul_nonnegative(m, unit_amount);
        let a = released_amount(m, unit_amount, total_amount);
        assert(0 <= a <= total_amount);
        lemma_conservation(
            advanced_start(start_time, unit_time, times[0]),
            unit_time,
            unit_amount,
            total_amount - a,
            times.drop_first(),
        );
    }
}

/// Law (vault mirroring): a vault whose balance starts equal to the locked
/// total, and which is debited by exactly the released amount of every
/// unlock, always holds exactly the remaining locked total.
pub proof fn lemma_vault_mirrors_remaining(
    start_time: int,
    unit_time: int,
    unit_amount: int,
    total_amount: int,
    vault_balance: int,
    times: Seq<int>,
)
    requires
        unit_time > 0,
        unit_amount >= 0,
        total_amount >= 0,
        vault_balance == total_amount,
    ensures
        vault_balance - released_over(start_time, unit_time, unit_amount, total_amount, times)
            == remaining_after(start_time, unit_time, unit_amount, total_amount, times),
        vault_balance - released_over(start_time, unit_time, unit_amount, total_amount, times)
            >= 0,
{
    lemma_conservation(start_time, unit_time, unit_amount, total_amount, times);
}

} // verus!
