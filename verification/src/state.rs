//! The shared device context: what every periodic task reads and writes.

use vstd::prelude::*;

verus! {

/// Whether the device currently holds a registration with the server.
#[derive(Clone, Copy, Debug, PartialEq, Eq, Structural)]
pub enum NetworkState {
    Disconnected,
    Registered,
}

/// The phase of the clean / fill cycle, including overrides forced by the
/// server. The payload of a forced state is the configured length of the
/// override in milliseconds, counted from the last state change.
#[derive(Clone, Copy, Debug, PartialEq, Eq, Structural)]
pub enum FilterState {
    CleanBeforeFill,
    CleanAfterFill,
    Fill,
    Idle,
    ForcedFill(u64),
    ForcedClean(u64),
    ForcedIdle(u64),
}

/// Thresholds and durations of the cycle.
///
/// A water level is a distance measured from above the tank, so a larger
/// value means less water: a cycle starts when the level rises above
/// `waterlevel_fill_start` and filling ends when it falls below
/// `waterlevel_fill_end`.
#[derive(Clone, Copy, Debug, PartialEq, Eq, Structural)]
pub struct Config {
    pub waterlevel_fill_start: u64,
    pub waterlevel_fill_end: u64,
    pub clean_before_fill_duration: u64,
    pub clean_after_fill_duration: u64,
    pub leak_protection: bool,
}

/// What the sensors and the state machine last recorded.
#[derive(Clone, Copy, Debug, PartialEq, Eq, Structural)]
pub struct State {
    pub filter_state: FilterState,
    /// Local time, in milliseconds, of the last change of `filter_state`.
    pub last_state_change: u64,
    /// Last successful reading; `None` until the first one.
    pub waterlevel: Option<u64>,
    /// Local time of the last failed measurement.
    pub measurement_error: Option<u64>,
    /// Local time at which a leak was flagged.
    pub leak: Option<u64>,
}

/// The one shared device context.
#[derive(Clone, Copy, Debug, PartialEq, Eq, Structural)]
pub struct Context {
    pub state: State,
    pub config: Config,
    pub network_state: NetworkState,
    /// Signed offset, in milliseconds, from local time to server time.
    pub clock_skew: i64,
}

/// Threshold above which a fill cycle starts, before the server says otherwise.
pub const WATERLEVEL_FILL_START: u64 = 500;

/// Threshold below which filling ends, before the server says otherwise.
pub const WATERLEVEL_FILL_END: u64 = 50;

/// Length of either cleaning phase in milliseconds, before the server says otherwise.
pub const CLEAN_DURATION: u64 = 10000;

impl Config {
    /// The configuration a device boots with.
    pub open spec fn initial() -> Config {
        Config {
            waterlevel_fill_start: WATERLEVEL_FILL_START,
            waterlevel_fill_end: WATERLEVEL_FILL_END,
            clean_before_fill_duration: CLEAN_DURATION,
            clean_after_fill_duration: CLEAN_DURATION,
            leak_protection: true,
        }
    }
}

impl Context {
    /// The context a device boots with.
    pub open spec fn initial() -> Context {
        Context {
            state: State {
                filter_state: FilterState::Idle,
                last_state_change: 0,
                waterlevel: None,
                measurement_error: None,
                leak: None,
            },
            config: Config::initial(),
            network_state: NetworkState::Disconnected,
            clock_skew: 0,
        }
    }

    /// Builds the boot-time context: idle, nothing measured, no leak,
    /// compiled-in thresholds, not registered, no clock skew.
    pub fn new() -> (ctx: Context)
        ensures
            ctx == Context::initial(),
    {
        Context {
            state: State {
                filter_state: FilterState::Idle,
                last_state_change: 0,
                waterlevel: None,
                measurement_error: None,
                leak: None,
            },
            config: Config {
                waterlevel_fill_start: WATERLEVEL_FILL_START,
                waterlevel_fill_end: WATERLEVEL_FILL_END,
                clean_before_fill_duration: CLEAN_DURATION,
                clean_after_fill_duration: CLEAN_DURATION,
                leak_protection: true,
            },
            network_state: NetworkState::Disconnected,
            clock_skew: 0,
        }
    }

    /// Whether the status light of the network shows: it does while the
    /// device is registered.
    pub fn is_registered(&self) -> (on: bool)
        ensures
            on == (self.network_state == NetworkState::Registered),
    {
        match self.network_state {
            NetworkState::Registered => true,
            NetworkState::Disconnected => false,
        }
    }
}

} // verus!
