//! The clock of the speed ramp.
//!
//! The clock gathers the time that passes from tick to tick. A tick on which
//! it has gone past the ramp interval is a pulse: the obstacles speed up once,
//! and one interval is taken off the clock, so that what it had gathered
//! beyond the interval counts towards the next pulse.

use vstd::prelude::*;
use vstd::arithmetic::div_mod::lemma_fundamental_div_mod_converse;
use crate::fixed::saturate_u64;

verus! {

/// The clock once `dt` more has passed.
pub open spec fn gathered(clock: u64, dt: u64) -> u64 {
    saturate_u64(clock + dt)
}

/// Whether a tick on which `dt` has passed is a pulse.
pub open spec fn due(clock: u64, dt: u64, interval: u64) -> bool {
    gathered(clock, dt) > interval
}

/// The clock as a tick on which `dt` has passed leaves it.
pub open spec fn carried(clock: u64, dt: u64, interval: u64) -> u64 {
    if due(clock, dt, interval) {
        (gathered(clock, dt) - interval) as u64
    } else {
        gathered(clock, dt)
    }
}

/// The clock after `ticks` ticks on each of which `dt` has passed.
pub open spec fn clock_after(clock: u64, dt: u64, interval: u64, ticks: nat) -> u64
    decreases ticks,
{
    if ticks == 0 {
        clock
    } else {
        carried(clock_after(clock, dt, interval, (ticks - 1) as nat), dt, interval)
    }
}

/// The number of pulses among `ticks` ticks on each of which `dt` has passed.
pub open spec fn pulses(clock: u64, dt: u64, interval: u64, ticks: nat) -> nat
    decreases ticks,
{
    if ticks == 0 {
        0
    } else {
        let earlier = pulses(clock, dt, interval, (ticks - 1) as nat);
        if due(clock_after(clock, dt, interval, (ticks - 1) as nat), dt, interval) {
            earlier + 1
        } else {
            earlier
        }
    }
}

/// With ticks no longer than the interval, the clock never holds more than
/// one interval, and no time is lost: what has passed is on the clock or was
/// taken off it, one interval per pulse.
pub proof fn lemma_clock_keeps_time(dt: u64, interval: u64, ticks: nat)
    requires
        dt <= interval,
        dt + interval <= u64::MAX,
    ensures
        clock_after(0, dt, interval, ticks) <= interval,
        clock_after(0, dt, interval, ticks) + pulses(0, dt, interval, ticks) * interval == ticks
            * dt,
        ticks * dt > 0 ==> clock_after(0, dt, interval, ticks) > 0,
    decreases ticks,
{
    let now = pulses(0, dt, interval, ticks);
    if ticks > 0 {
        let before = (ticks - 1) as nat;
        lemma_clock_keeps_time(dt, interval, before);
        let earlier = pulses(0, dt, interval, before);
        assert(now * interval == earlier * interval + (now - earlier) * interval)
            by (nonlinear_arith);
        assert((now - earlier) * interval == if now == earlier {
            0
        } else {
            interval as int
        }) by (nonlinear_arith)
            requires
                now == earlier || now == earlier + 1,
        ;
        assert(ticks * dt == before * dt + dt) by (nonlinear_arith)
            requires
                ticks == before + 1,
        ;
    } else {
        assert(now * interval == 0) by (nonlinear_arith)
            requires
                now == 0,
        ;
        assert(ticks * dt == 0) by (nonlinear_arith)
            requires
                ticks == 0,
        ;
    }
}

/// With ticks no longer than the interval, the pulses by the time `T` are the
/// multiples of the interval that lie strictly between zero and `T`.
pub proof fn lemma_pulses_of_short_ticks(dt: u64, interval: u64, ticks: nat)
    requires
        interval > 0,
        dt <= interval,
        dt + interval <= u64::MAX,
    ensures
        ticks * dt == 0 ==> pulses(0, dt, interval, ticks) == 0,
        ticks * dt > 0 ==> pulses(0, dt, interval, ticks) == (ticks * dt - 1) / (interval as int),
{
    lemma_clock_keeps_time(dt, interval, ticks);
    let p = pulses(0, dt, interval, ticks);
    let c = clock_after(0, dt, interval, ticks);
    if ticks * dt > 0 {
        lemma_fundamental_div_mod_converse(ticks * dt - 1, interval as int, p as int, c - 1);
    } else {
        assert(p * interval >= 0) by (nonlinear_arith)
            requires
                p >= 0,
                interval > 0,
        ;
        assert(p == 0) by (nonlinear_arith)
            requires
                p * interval == 0,
                interval > 0,
        ;
    }
}

/// With ticks longer than the interval, every tick is a pulse: the clock
/// falls behind, since one tick takes no more than one interval off it.
pub proof fn lemma_pulses_of_long_ticks(dt: u64, interval: u64, ticks: nat)
    requires
        dt > interval,
        ticks * dt <= u64::MAX,
    ensures
        pulses(0, dt, interval, ticks) == ticks,
        clock_after(0, dt, interval, ticks) == ticks * (dt - interval),
    decreases ticks,
{
    if ticks > 0 {
        let before = (ticks - 1) as nat;
        assert(ticks * dt == before * dt + dt) by (nonlinear_arith)
            requires
                ticks == before + 1,
        ;
        assert(before * dt >= 0) by (nonlinear_arith)
            requires
                before >= 0,
                dt >= 0,
        ;
        lemma_pulses_of_long_ticks(dt, interval, before);
        assert(ticks * (dt - interval) == before * (dt - interval) + (dt - interval))
            by (nonlinear_arith)
            requires
                ticks == before + 1,
        ;
        assert(before * (dt - interval) <= before * dt) by (nonlinear_arith)
            requires
                before >= 0,
                0 <= dt - interval <= dt,
        ;
    }
}

/// The pulses are periodic: by the time `T`, reached in ticks of one length,
/// there have been `T / interval` of them, rounded down, whatever the length
/// of a tick, as long as a tick is no longer than the interval and `T` is not
/// itself a multiple of the interval. (At a multiple of the interval the
/// pulse is still to come: the clock must go past the interval, not reach it.
/// With longer ticks the count equals the number of ticks.)
pub proof fn lemma_pulses_are_periodic(dt: u64, interval: u64, ticks: nat)
    requires
        interval > 0,
        dt <= interval ==> dt + interval <= u64::MAX && (ticks * dt == 0 || (ticks * dt) % (
        interval as int) != 0),
        dt > interval ==> ticks * dt <= u64::MAX && (ticks * dt) / (interval as int) == ticks,
    ensures
        pulses(0, dt, interval, ticks) == (ticks * dt) / (interval as int),
{
    if dt <= interval {
        lemma_clock_keeps_time(dt, interval, ticks);
        let p = pulses(0, dt, interval, ticks);
        let c = clock_after(0, dt, interval, ticks);
        if c == interval {
            assert((p + 1) * interval == p * interval + interval) by (nonlinear_arith);
            lemma_fundamental_div_mod_converse(ticks * dt, interval as int, (p + 1) as int, 0);
        } else {
            lemma_fundamental_div_mod_converse(ticks * dt, interval as int, p as int, c as int);
        }
    } else {
        lemma_pulses_of_long_ticks(dt, interval, ticks);
    }
}

} // verus!
