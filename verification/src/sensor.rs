//! The water-level sensor, as far as it computes anything: the distance that
//! an echo stands for, and what a reading does to the device context.

use vstd::prelude::*;
use crate::clock::now_millis;
use crate::state::{Context, State};

verus! {

/// Distance that sound covers, there and back halved, in one second.
pub const DISTANCE_PER_SECOND: u64 = 171_605;

/// Ticks per second of the local clock.
pub const TICK_RATE: u64 = 1_000_000;

/// Seconds to wait for either edge of the echo before giving up.
pub const EDGE_TIMEOUT: u64 = 2;

/// Milliseconds between two measurements.
pub const MEASURE_PERIOD: u64 = 5000;

/// Microseconds that the trigger line is held high to send a pulse.
pub const TRIGGER_PULSE: u64 = 10;

/// The edge of the echo that a measurement is waiting for.
#[derive(Clone, Copy, Debug, PartialEq, Eq, Structural)]
pub enum EchoPhase {
    /// The pulse was sent; the echo line is to go high.
    Rising,
    /// The echo line went high; it is to go low again.
    Falling,
}

/// What a look at the echo line tells a measurement to do.
#[derive(Clone, Copy, Debug, PartialEq, Eq, Structural)]
pub enum EchoStep {
    /// Nothing yet: look again.
    Wait,
    /// The rising edge is there: start timing the echo and wait for it to end.
    Started,
    /// The edge did not come in time: the measurement failed.
    TimedOut,
    /// The echo ended: the measurement is over, with the distance it gave,
    /// if it gave one.
    Finished(Option<u64>),
}

/// The distance that an echo of `ticks` clock ticks stands for, on a clock of
/// `tick_hz` ticks per second.
pub open spec fn echo_distance(ticks: u64, tick_hz: u64) -> int {
    ticks * DISTANCE_PER_SECOND / (tick_hz as int)
}

/// The distance that an echo of `ticks` clock ticks gives, on a clock of
/// `tick_hz` ticks per second: none on a clock that does not tick, and none
/// where 64 bits cannot hold it.
pub open spec fn distance_of(ticks: u64, tick_hz: u64) -> Option<u64> {
    if tick_hz > 0 && echo_distance(ticks, tick_hz) <= u64::MAX {
        Some(echo_distance(ticks, tick_hz) as u64)
    } else {
        None
    }
}

/// What a look at the echo line tells a measurement in `phase` that has
/// waited `waited` ticks for its edge, on a clock of `tick_hz` ticks per
/// second. The edge counts whenever it is there; without it the wait is
/// over once it has lasted longer than the timeout.
pub open spec fn echo_step(phase: EchoPhase, echo_high: bool, waited: u64, tick_hz: u64)
    -> EchoStep {
    match phase {
        EchoPhase::Rising => if echo_high {
            EchoStep::Started
        } else if waited > EDGE_TIMEOUT * tick_hz {
            EchoStep::TimedOut
        } else {
            EchoStep::Wait
        },
        EchoPhase::Falling => if !echo_high {
            EchoStep::Finished(distance_of(waited, tick_hz))
        } else if waited > EDGE_TIMEOUT * tick_hz {
            EchoStep::TimedOut
        } else {
            EchoStep::Wait
        },
    }
}

/// The context after a measurement that ended at local time `now`: a
/// reading becomes the water level, and a failure is noted with its time
/// while the last level stays.
pub open spec fn context_after_measurement(ctx: Context, reading: Option<u64>, now: u64)
    -> Context {
    match reading {
        Some(distance) => Context {
            state: State { waterlevel: Some(distance), ..ctx.state },
            ..ctx
        },
        None => Context { state: State { measurement_error: Some(now), ..ctx.state }, ..ctx },
    }
}

/// Reads `embassy_time::TICK_HZ`, the number of ticks per second of the
/// clock that the time driver was built for. The driver takes the rate from
/// the one rate feature that is switched on, and the hosted driver that this
/// crate builds with switches on the rate of a million ticks per second: the
/// contract claims that the constant is that rate.
#[verifier::external_body]
pub(crate) fn ticks_per_second() -> (tick_hz: u64)
    ensures
        tick_hz == TICK_RATE,
{
    embassy_time::TICK_HZ
}

/// Converts the length of an echo to a distance, on a clock of `tick_hz`
/// ticks per second. There is no distance for a clock that does not tick,
/// nor for one that 64 bits cannot hold.
pub fn distance_at_rate(ticks: u64, tick_hz: u64) -> (distance: Option<u64>)
    ensures
        distance == distance_of(ticks, tick_hz),
{
    if tick_hz == 0 {
        return None;
    }
    assert(ticks * DISTANCE_PER_SECOND <= u64::MAX * 171_605) by (nonlinear_arith)
        requires
            DISTANCE_PER_SECOND == 171_605,
            ticks <= u64::MAX,
    ;
    let product: u128 = (ticks as u128) * (DISTANCE_PER_SECOND as u128);
    let quotient: u128 = product / (tick_hz as u128);
    if quotient <= u64::MAX as u128 {
        Some(quotient as u64)
    } else {
        None
    }
}

/// Converts the length of an echo, in ticks of the local clock, to a
/// distance: the result of [`distance_at_rate`] at the rate of the local
/// clock. At that rate every echo has a distance.
pub fn distance(ticks: u64) -> (distance: Option<u64>)
    ensures
        distance == distance_of(ticks, TICK_RATE),
        distance == Some((ticks * DISTANCE_PER_SECOND / 1_000_000) as u64),
{
    let tick_hz: u64 = ticks_per_second();
    distance_at_rate(ticks, tick_hz)
}

/// Whether a wait of `waited` ticks has lasted longer than the timeout, on a
/// clock of `tick_hz` ticks per second.
pub fn edge_timed_out(waited: u64, tick_hz: u64) -> (late: bool)
    ensures
        late == (waited > EDGE_TIMEOUT * tick_hz),
{
    match tick_hz.checked_mul(EDGE_TIMEOUT) {
        Some(limit) => waited > limit,
        None => false,
    }
}

/// Decides what a measurement in `phase` does after a look at the echo
/// line, having waited `waited` ticks for its edge on a clock of `tick_hz`
/// ticks per second.
pub fn echo_step_at_rate(phase: EchoPhase, echo_high: bool, waited: u64, tick_hz: u64) -> (step:
    EchoStep)
    ensures
        step == echo_step(phase, echo_high, waited, tick_hz),
{
    match phase {
        EchoPhase::Rising => {
            if echo_high {
                EchoStep::Started
            } else if edge_timed_out(waited, tick_hz) {
                EchoStep::TimedOut
            } else {
                EchoStep::Wait
            }
        },
        EchoPhase::Falling => {
            if !echo_high {
                EchoStep::Finished(distance_at_rate(waited, tick_hz))
            } else if edge_timed_out(waited, tick_hz) {
                EchoStep::TimedOut
            } else {
                EchoStep::Wait
            }
        },
    }
}

/// Decides what a measurement in `phase` does after a look at the echo
/// line, having waited `waited` ticks of the local clock for its edge: the
/// step of [`echo_step_at_rate`] at the rate of the local clock. Without its
/// edge a wait is over once it has lasted longer than two million ticks.
pub fn measure_step(phase: EchoPhase, echo_high: bool, waited: u64) -> (step: EchoStep)
    ensures
        step == echo_step(phase, echo_high, waited, TICK_RATE),
        (phase == EchoPhase::Rising && !echo_high) || (phase == EchoPhase::Falling && echo_high)
            ==> step == if waited > 2_000_000 {
            EchoStep::TimedOut
        } else {
            EchoStep::Wait
        },
{
    let tick_hz: u64 = ticks_per_second();
    echo_step_at_rate(phase, echo_high, waited, tick_hz)
}

/// Records a measurement that ended at local time `now`.
pub fn record_measurement_at(ctx: &mut Context, reading: Option<u64>, now: u64)
    ensures
        *final(ctx) == context_after_measurement(*old(ctx), reading, now),
{
    match reading {
        Some(distance) => {
            ctx.state.waterlevel = Some(distance);
        },
        None => {
            ctx.state.measurement_error = Some(now);
        },
    }
}

/// Records a measurement that ended at the time the local clock shows. A
/// reading is recorded whatever the clock shows; a failure is noted with
/// some reading of it.
pub fn record_measurement(ctx: &mut Context, reading: Option<u64>)
    ensures
        exists|now: u64|
            *final(ctx) == #[trigger] context_after_measurement(*old(ctx), reading, now),
        reading is Some ==> *final(ctx) == context_after_measurement(*old(ctx), reading, 0),
{
    let now: u64 = now_millis();
    record_measurement_at(ctx, reading, now)
}

} // verus!
