//! Control logic of a networked water-filtration tank controller.
//!
//! The crate holds the three pieces of the controller that decide anything:
//! the filter control state machine ([`filter`]), the binary wire codec
//! ([`messages`]) and the registration / heartbeat protocol ([`network`]).
//! Everything is written against the shared device context of [`state`] and
//! the valve model of [`valve`]; timers, sockets and pins stay with the caller.

pub mod clock;
pub mod filter;
pub mod messages;
pub mod network;
pub mod sensor;
pub mod state;
pub mod valve;
pub mod wire;
