//! The filter control state machine: one evaluation per tick.
//!
//! A tick looks at the device context in a fixed order. A flagged leak, with
//! leak protection on, closes every valve and ends the tick. Without a known
//! water level nothing happens at all. Otherwise at most one transition of the
//! cycle fires, and the valves are set to what the resulting state asks for.

use vstd::prelude::*;
use crate::clock::{expired, has_expired, now_millis};
use crate::state::{Config, Context, FilterState, State};
use crate::valve::{ValveCommand, ValveControler};

verus! {

/// Milliseconds between two ticks.
pub const TICK_PERIOD: u64 = 500;

/// Whether the leak override holds: leak protection is on and a leak is flagged.
pub open spec fn leak_override(ctx: Context) -> bool {
    ctx.config.leak_protection && ctx.state.leak is Some
}

/// The one state that `state` can move to.
pub open spec fn successor(state: FilterState) -> FilterState {
    match state {
        FilterState::Idle => FilterState::CleanBeforeFill,
        FilterState::CleanBeforeFill => FilterState::Fill,
        FilterState::Fill => FilterState::CleanAfterFill,
        FilterState::CleanAfterFill => FilterState::Idle,
        FilterState::ForcedFill(_) => FilterState::Idle,
        FilterState::ForcedClean(_) => FilterState::Idle,
        FilterState::ForcedIdle(_) => FilterState::Idle,
    }
}

/// Whether `state`, entered at `since`, is due to move on at `now` with the
/// water at `level`.
pub open spec fn exit_due(state: FilterState, config: Config, level: u64, since: u64, now: u64)
    -> bool {
    match state {
        FilterState::Idle => level > config.waterlevel_fill_start,
        FilterState::CleanBeforeFill => expired(since, config.clean_before_fill_duration, now),
        FilterState::Fill => level < config.waterlevel_fill_end,
        FilterState::CleanAfterFill => expired(since, config.clean_after_fill_duration, now),
        FilterState::ForcedFill(duration) => expired(since, duration, now),
        FilterState::ForcedClean(duration) => expired(since, duration, now),
        FilterState::ForcedIdle(duration) => expired(since, duration, now),
    }
}

/// The command that the valves get while the filter is in `state`.
pub open spec fn command_for(state: FilterState) -> ValveCommand {
    match state {
        FilterState::CleanBeforeFill => ValveCommand::Clean,
        FilterState::CleanAfterFill => ValveCommand::Clean,
        FilterState::ForcedClean(_) => ValveCommand::Clean,
        FilterState::Fill => ValveCommand::Fill,
        FilterState::ForcedFill(_) => ValveCommand::Fill,
        FilterState::Idle => ValveCommand::Idle,
        FilterState::ForcedIdle(_) => ValveCommand::Idle,
    }
}

/// The filter state after a tick at `now`.
pub open spec fn next_filter_state(ctx: Context, now: u64) -> FilterState {
    if leak_override(ctx) {
        FilterState::Idle
    } else {
        match ctx.state.waterlevel {
            None => ctx.state.filter_state,
            Some(level) => if exit_due(
                ctx.state.filter_state,
                ctx.config,
                level,
                ctx.state.last_state_change,
                now,
            ) {
                successor(ctx.state.filter_state)
            } else {
                ctx.state.filter_state
            },
        }
    }
}

/// The device context after a tick at `now`: the filter state moves as
/// [`next_filter_state`] says, the time of the last change follows it, and
/// nothing else is touched.
pub open spec fn tick_context(ctx: Context, now: u64) -> Context {
    let next = next_filter_state(ctx, now);
    Context {
        state: State {
            filter_state: next,
            last_state_change: if next != ctx.state.filter_state {
                now
            } else {
                ctx.state.last_state_change
            },
            ..ctx.state
        },
        ..ctx
    }
}

/// The command that a tick at `now` gives the valves, if it gives one.
pub open spec fn tick_command(ctx: Context, now: u64) -> Option<ValveCommand> {
    if leak_override(ctx) {
        Some(ValveCommand::Idle)
    } else if ctx.state.waterlevel is None {
        None
    } else {
        Some(command_for(next_filter_state(ctx, now)))
    }
}

/// Whether a second tick at the same instant would move the filter again:
/// the first tick entered a state that is due to exit on entry.
pub open spec fn reentry_due(ctx: Context, now: u64) -> bool {
    let entered = next_filter_state(ctx, now);
    &&& !leak_override(ctx)
    &&& ctx.state.waterlevel is Some
    &&& entered != ctx.state.filter_state
    &&& match entered {
        FilterState::CleanBeforeFill => ctx.config.clean_before_fill_duration == 0,
        FilterState::Fill => ctx.state.waterlevel->0 < ctx.config.waterlevel_fill_end,
        FilterState::CleanAfterFill => ctx.config.clean_after_fill_duration == 0,
        FilterState::Idle => ctx.state.waterlevel->0 > ctx.config.waterlevel_fill_start,
        _ => false,
    }
}

/// The command that the valves get while the filter is in `state`.
pub fn valve_command(state: FilterState) -> (command: ValveCommand)
    ensures
        command == command_for(state),
{
    match state {
        FilterState::CleanBeforeFill => ValveCommand::Clean,
        FilterState::CleanAfterFill => ValveCommand::Clean,
        FilterState::Fill => ValveCommand::Fill,
        FilterState::Idle => ValveCommand::Idle,
        FilterState::ForcedFill(_) => ValveCommand::Fill,
        FilterState::ForcedClean(_) => ValveCommand::Clean,
        FilterState::ForcedIdle(_) => ValveCommand::Idle,
    }
}

/// Evaluates the transition table for `state`, entered at `since`, with the
/// water at `level`: the successor where the exit condition holds, else
/// `state` itself.
pub fn transition(state: FilterState, config: &Config, level: u64, since: u64, now: u64) -> (next:
    FilterState)
    ensures
        next == if exit_due(state, *config, level, since, now) {
            successor(state)
        } else {
            state
        },
{
    match state {
        FilterState::CleanBeforeFill => {
            if has_expired(since, config.clean_before_fill_duration, now) {
                FilterState::Fill
            } else {
                state
            }
        },
        FilterState::CleanAfterFill => {
            if has_expired(since, config.clean_after_fill_duration, now) {
                FilterState::Idle
            } else {
                state
            }
        },
        FilterState::Fill => {
            if level < config.waterlevel_fill_end {
                FilterState::CleanAfterFill
            } else {
                state
            }
        },
        FilterState::Idle => {
            if level > config.waterlevel_fill_start {
                FilterState::CleanBeforeFill
            } else {
                state
            }
        },
        FilterState::ForcedFill(duration) => {
            if has_expired(since, duration, now) {
                FilterState::Idle
            } else {
                state
            }
        },
        FilterState::ForcedClean(duration) => {
            if has_expired(since, duration, now) {
                FilterState::Idle
            } else {
                state
            }
        },
        FilterState::ForcedIdle(duration) => {
            if has_expired(since, duration, now) {
                FilterState::Idle
            } else {
                state
            }
        },
    }
}

/// Runs one tick at local time `now` and returns the command given to the
/// valves, if one was given.
///
/// The context and the command are exactly those of [`tick_context`] and
/// [`tick_command`]. In particular: the time of the last change is set to
/// `now` if the filter state changed and kept if it did not; the state either
/// stays, moves to its one successor, or falls to idle under the leak
/// override; under the leak override the valves are told to idle whatever
/// the level and the state; and without a known level, and no leak override,
/// neither the context nor the valves change.
pub fn update_state_at(ctx: &mut Context, valve_controler: &mut ValveControler, now: u64) -> (issued:
    Option<ValveCommand>)
    ensures
        *final(ctx) == tick_context(*old(ctx), now),
        issued == tick_command(*old(ctx), now),
        match issued {
            Some(command) => final(valve_controler).positions() == command.positions(),
            None => *final(valve_controler) == *old(valve_controler),
        },
        final(ctx).state.filter_state != old(ctx).state.filter_state
            ==> final(ctx).state.last_state_change == now,
        final(ctx).state.filter_state == old(ctx).state.filter_state
            ==> final(ctx).state.last_state_change == old(ctx).state.last_state_change,
        final(ctx).state.filter_state == old(ctx).state.filter_state
            || final(ctx).state.filter_state == successor(old(ctx).state.filter_state)
            || (leak_override(*old(ctx)) && final(ctx).state.filter_state == FilterState::Idle),
        leak_override(*old(ctx)) ==> final(ctx).state.filter_state == FilterState::Idle && issued
            == Some(ValveCommand::Idle) && final(valve_controler).positions()
            == ValveCommand::Idle.positions(),
        !leak_override(*old(ctx)) && old(ctx).state.waterlevel is None ==> *final(ctx) == *old(ctx)
            && issued is None && *final(valve_controler) == *old(valve_controler),
{
    if ctx.config.leak_protection && ctx.state.leak.is_some() {
        valve_controler.idle();
        if ctx.state.filter_state != FilterState::Idle {
            ctx.state.filter_state = FilterState::Idle;
            ctx.state.last_state_change = now;
        }
        return Some(ValveCommand::Idle);
    }
    let level: u64 = match ctx.state.waterlevel {
        Some(level) => level,
        None => {
            return None;
        },
    };
    let current = ctx.state.filter_state;
    let next = transition(current, &ctx.config, level, ctx.state.last_state_change, now);
    if next != current {
        ctx.state.filter_state = next;
        ctx.state.last_state_change = now;
    }
    let command = valve_command(next);
    valve_controler.apply(command);
    Some(command)
}

/// Runs one tick at the time the local clock shows.
///
/// Whatever the clock shows, the tick is that of [`update_state_at`] for some
/// reading of it; the leak override and the inertness without a known level
/// do not depend on the reading.
pub fn update_state(ctx: &mut Context, valve_controler: &mut ValveControler) -> (issued: Option<
    ValveCommand,
>)
    ensures
        exists|now: u64|
            *final(ctx) == tick_context(*old(ctx), now) && issued == #[trigger] tick_command(
                *old(ctx),
                now,
            ),
        match issued {
            Some(command) => final(valve_controler).positions() == command.positions(),
            None => *final(valve_controler) == *old(valve_controler),
        },
        leak_override(*old(ctx)) ==> final(ctx).state.filter_state == FilterState::Idle && issued
            == Some(ValveCommand::Idle) && final(valve_controler).positions()
            == ValveCommand::Idle.positions(),
        !leak_override(*old(ctx)) && old(ctx).state.waterlevel is None ==> *final(ctx) == *old(ctx)
            && issued is None && *final(valve_controler) == *old(valve_controler),
{
    let now: u64 = now_millis();
    update_state_at(ctx, valve_controler, now)
}

/// A second tick at the same instant changes nothing, unless the first one
/// entered a state that is due to exit on entry: a cleaning phase of no
/// length, filling with the water already past the end mark, or idling with
/// the water already past the start mark.
pub proof fn lemma_tick_idempotent(ctx: Context, now: u64)
    requires
        !reentry_due(ctx, now),
    ensures
        tick_context(tick_context(ctx, now), now) == tick_context(ctx, now),
        tick_command(tick_context(ctx, now), now) == tick_command(ctx, now),
{
}

/// Where the first tick entered a state that is due to exit on entry, a
/// second tick at the same instant moves the filter once more.
pub proof fn lemma_tick_reentry(ctx: Context, now: u64)
    requires
        reentry_due(ctx, now),
    ensures
        tick_context(tick_context(ctx, now), now).state.filter_state != tick_context(
            ctx,
            now,
        ).state.filter_state,
{
}

/// A tick that leaves the filter state alone leaves the whole context alone,
/// and so does every tick after it at that instant.
pub proof fn lemma_tick_without_transition(ctx: Context, now: u64)
    requires
        next_filter_state(ctx, now) == ctx.state.filter_state,
    ensures
        tick_context(ctx, now) == ctx,
        tick_context(tick_context(ctx, now), now) == ctx,
{
}

} // verus!
