//! The registration and heartbeat protocol, as far as it decides anything.
//!
//! A session is an unending run of cycles. Each cycle opens a connection,
//! sends one request, waits for one answer and applies it to the device
//! context: a registration request while the device is not registered, a
//! status report once it is. The caller owns the socket, the lock around the
//! context and the delays between cycles; what to send, how to read the
//! answer and what it does to the context is decided here.

use vstd::prelude::*;
use crate::clock::{clock_skew, now_millis, skew_between};
use crate::messages;
use crate::messages::{
    decode_message, encode_message, encoding, heartbeat_at, heartbeat_of, parse_message,
    transmit_buffer, Accepted, CommandType, Message, MessageError, MessagePayload,
    MessageView, PayloadView, Register, RegisterView,
};
use crate::state::{Config, Context, FilterState, NetworkState, State};

verus! {

/// Why a cycle failed.
#[derive(Clone, Copy, Debug, PartialEq, Eq, Structural)]
pub enum NetworkError {
    /// A message could not be encoded or decoded.
    MessageError(MessageError),
    /// The connection failed while sending or receiving.
    ReadError,
    /// The answer was of another kind than the request calls for.
    WrongMessageType,
}

/// The two exchanges of the protocol.
#[derive(Clone, Copy, Debug, PartialEq, Eq, Structural)]
pub enum Exchange {
    /// A registration request, answered by an acceptance.
    Register,
    /// A status report, answered by a command.
    Heartbeat,
}

/// What a device presents of itself when it registers.
#[derive(Clone, Copy, Debug, PartialEq, Eq)]
pub struct Identity {
    pub dev_id: [u8; 32],
    pub token: [u8; 32],
    pub firmware_version: u16,
}

/// The device type that every registration request declares.
pub const DEVICE_TYPE: u8 = 1;

/// Milliseconds to wait after a cycle, and after a failed attempt to join
/// the network or to connect, before the next attempt.
pub const RETRY_DELAY: u64 = 1000;

/// Milliseconds between two looks at whether the network is configured.
pub const CONFIG_POLL_DELAY: u64 = 100;

/// The configuration that a configuration block of the server stands for:
/// leak protection is on exactly when its flag is 1.
pub open spec fn config_of(sent: messages::Config) -> Config {
    Config {
        waterlevel_fill_start: sent.waterlevel_fill_start,
        waterlevel_fill_end: sent.waterlevel_fill_end,
        clean_before_fill_duration: sent.clean_before_fill_duration,
        clean_after_fill_duration: sent.clean_after_fill_duration,
        leak_protection: sent.leak_protection == 1,
    }
}

/// The registration request of a device: its identifiers, its type, its
/// firmware version, and the wish for a configuration.
pub open spec fn registration_of(dev_id: Seq<u8>, token: Seq<u8>, firmware_version: u16)
    -> RegisterView {
    RegisterView { dev_id, token, dev_type: DEVICE_TYPE, firmware_version, needs_config: 1 }
}

/// The exchange that a device in network state `state` runs next.
pub open spec fn exchange_for(state: NetworkState) -> Exchange {
    match state {
        NetworkState::Disconnected => Exchange::Register,
        NetworkState::Registered => Exchange::Heartbeat,
    }
}

/// The request that opens the next exchange of `ctx` at local time `now`.
pub open spec fn request_of(
    ctx: Context,
    dev_id: Seq<u8>,
    token: Seq<u8>,
    firmware_version: u16,
    now: u64,
) -> PayloadView {
    match ctx.network_state {
        NetworkState::Disconnected => PayloadView::Register(
            registration_of(dev_id, token, firmware_version),
        ),
        NetworkState::Registered => PayloadView::Heartbeat(heartbeat_of(ctx, dev_id, now)),
    }
}

/// The context after an acceptance that arrived at local time `now`: the
/// clock skew is taken from the server time, the configuration is replaced
/// if one came along, and the device is registered.
pub open spec fn context_after_accepted(ctx: Context, accepted: Accepted, now: u64) -> Context {
    Context {
        clock_skew: skew_between(accepted.time, now) as i64,
        config: match accepted.config {
            Some(sent) => config_of(sent),
            None => ctx.config,
        },
        network_state: NetworkState::Registered,
        ..ctx
    }
}

/// The context after a command that arrived at local time `now`.
///
/// A forced state replaces the filter state and leaves the time of the last
/// state change as it is; a state code other than 0, 1 or 2 forces nothing.
/// A firmware announcement and a reset request have no effect.
pub open spec fn context_after_command(ctx: Context, command: CommandType, now: u64) -> Context {
    match command {
        CommandType::NoCommand => ctx,
        CommandType::ForceState(force) => if force.state == 0 {
            Context {
                state: State { filter_state: FilterState::ForcedIdle(force.time), ..ctx.state },
                ..ctx
            }
        } else if force.state == 1 {
            Context {
                state: State { filter_state: FilterState::ForcedClean(force.time), ..ctx.state },
                ..ctx
            }
        } else if force.state == 2 {
            Context {
                state: State { filter_state: FilterState::ForcedFill(force.time), ..ctx.state },
                ..ctx
            }
        } else {
            ctx
        },
        CommandType::ResyncTime(resync) => Context {
            clock_skew: skew_between(resync.time, now) as i64,
            ..ctx
        },
        CommandType::UpdateConfig(sent) => Context { config: config_of(sent), ..ctx },
        CommandType::SetResetLeak(leak) => Context {
            state: State {
                leak: if leak.leak == 1 {
                    Some(now)
                } else {
                    None
                },
                ..ctx.state
            },
            ..ctx
        },
        CommandType::ResetMeasurementError => Context {
            state: State { measurement_error: None, ..ctx.state },
            ..ctx
        },
        CommandType::NewFirmware(_) => ctx,
        CommandType::ResetDevice => ctx,
    }
}

/// How an exchange ends, given what came back: well if the answer is of the
/// kind that the exchange calls for, with the failure that came back if one
/// did, and with a wrong message type otherwise.
pub open spec fn exchange_result(exchange: Exchange, outcome: Result<MessageView, NetworkError>)
    -> Result<(), NetworkError> {
    match outcome {
        Err(error) => Err(error),
        Ok(message) => match (exchange, message.payload) {
            (Exchange::Register, PayloadView::Accepted(_)) => Ok(()),
            (Exchange::Heartbeat, PayloadView::HeartbeatResponse(_)) => Ok(()),
            _ => Err(NetworkError::WrongMessageType),
        },
    }
}

/// The context after an exchange that ended at local time `now`.
///
/// An acceptance or a command is applied. A registration that failed leaves
/// the context as it is; a heartbeat that failed takes the registration away.
pub open spec fn context_after_exchange(
    ctx: Context,
    exchange: Exchange,
    outcome: Result<MessageView, NetworkError>,
    now: u64,
) -> Context {
    match exchange {
        Exchange::Register => match outcome {
            Ok(message) => match message.payload {
                PayloadView::Accepted(accepted) => context_after_accepted(ctx, accepted, now),
                _ => ctx,
            },
            Err(_) => ctx,
        },
        Exchange::Heartbeat => match outcome {
            Ok(message) => match message.payload {
                PayloadView::HeartbeatResponse(response) => context_after_command(
                    ctx,
                    response.command,
                    now,
                ),
                _ => Context { network_state: NetworkState::Disconnected, ..ctx },
            },
            Err(_) => Context { network_state: NetworkState::Disconnected, ..ctx },
        },
    }
}

/// What came back, over the view of the message.
pub open spec fn outcome_view(outcome: Result<Message, NetworkError>) -> Result<
    MessageView,
    NetworkError,
> {
    match outcome {
        Ok(message) => Ok(message@),
        Err(error) => Err(error),
    }
}

/// What a receive buffer says, as the outcome of an exchange.
pub open spec fn received_outcome(bytes: Seq<u8>) -> Result<MessageView, NetworkError> {
    match parse_message(bytes) {
        Ok(message) => Ok(message),
        Err(error) => Err(NetworkError::MessageError(error)),
    }
}

/// Takes a configuration block of the server over as a configuration.
pub fn config_from_wire(sent: &messages::Config) -> (config: Config)
    ensures
        config == config_of(*sent),
{
    Config {
        waterlevel_fill_start: sent.waterlevel_fill_start,
        waterlevel_fill_end: sent.waterlevel_fill_end,
        clean_before_fill_duration: sent.clean_before_fill_duration,
        clean_after_fill_duration: sent.clean_after_fill_duration,
        leak_protection: sent.leak_protection == 1,
    }
}

/// Builds the registration request of `identity`.
pub fn register_request(identity: &Identity) -> (register: Register)
    ensures
        register@ == registration_of(
            identity.dev_id@,
            identity.token@,
            identity.firmware_version,
        ),
{
    Register {
        dev_id: identity.dev_id,
        token: identity.token,
        dev_type: DEVICE_TYPE,
        firmware_version: identity.firmware_version,
        needs_config: 1,
    }
}

/// Takes the registration away after a connection could not be opened.
pub fn connect_failed(ctx: &mut Context)
    ensures
        *final(ctx) == (Context { network_state: NetworkState::Disconnected, ..*old(ctx) }),
{
    ctx.network_state = NetworkState::Disconnected;
}

/// Says which exchange a fresh connection is for: registration while the
/// device is not registered, a heartbeat once it is.
pub fn next_exchange(ctx: &Context) -> (exchange: Exchange)
    ensures
        exchange == exchange_for(ctx.network_state),
{
    match ctx.network_state {
        NetworkState::Disconnected => Exchange::Register,
        NetworkState::Registered => Exchange::Heartbeat,
    }
}

/// Builds the request that opens the next exchange at local time `now`: the
/// registration request of `identity`, or a status report of `ctx`.
pub fn request_at(ctx: &Context, identity: &Identity, now: u64) -> (request: MessagePayload)
    ensures
        request@ == request_of(
            *ctx,
            identity.dev_id@,
            identity.token@,
            identity.firmware_version,
            now,
        ),
{
    match ctx.network_state {
        NetworkState::Disconnected => MessagePayload::Register(register_request(identity)),
        NetworkState::Registered => MessagePayload::Heartbeat(
            heartbeat_at(ctx, identity.dev_id, now),
        ),
    }
}

/// Builds the request that opens the next exchange at the time the local
/// clock shows. A registration request does not depend on the clock; a
/// status report is that of some reading of it.
pub fn request(ctx: &Context, identity: &Identity) -> (request: MessagePayload)
    ensures
        exists|now: u64|
            request@ == #[trigger] request_of(
                *ctx,
                identity.dev_id@,
                identity.token@,
                identity.firmware_version,
                now,
            ),
        ctx.network_state == NetworkState::Disconnected ==> request@ == PayloadView::Register(
            registration_of(identity.dev_id@, identity.token@, identity.firmware_version),
        ),
        ctx.network_state == NetworkState::Registered ==> request@ is Heartbeat,
{
    let now: u64 = now_millis();
    request_at(ctx, identity, now)
}

/// Lays out the frame of `message` for sending. The buffer starts with the
/// frame and is zero after it; the length is that of the frame. A payload
/// that the device never sends is a message error.
pub fn outgoing(message: MessagePayload) -> (sent: Result<([u8; 4096], usize), NetworkError>)
    ensures
        match encoding(message@) {
            Some(frame) => sent is Ok && sent->Ok_0.0@ == transmit_buffer(frame) && sent->Ok_0.1
                == frame.len(),
            None => sent == Err::<([u8; 4096], usize), NetworkError>(
                NetworkError::MessageError(MessageError::WrongMessageType),
            ),
        },
{
    match encode_message(message) {
        Ok(sent) => Ok(sent),
        Err(error) => Err(NetworkError::MessageError(error)),
    }
}

/// Reads the answer out of a receive buffer. What the decoder refuses is a
/// message error.
pub fn received(buffer: &[u8]) -> (outcome: Result<Message, NetworkError>)
    ensures
        outcome_view(outcome) == received_outcome(buffer@),
{
    match decode_message(buffer) {
        Ok(message) => Ok(message),
        Err(error) => Err(NetworkError::MessageError(error)),
    }
}

/// Applies an acceptance that arrived at local time `now`.
pub fn apply_accepted_at(ctx: &mut Context, accepted: &Accepted, now: u64)
    ensures
        *final(ctx) == context_after_accepted(*old(ctx), *accepted, now),
{
    ctx.clock_skew = clock_skew(accepted.time, now);
    match accepted.config {
        Some(sent) => {
            ctx.config = config_from_wire(&sent);
        },
        None => {},
    }
    ctx.network_state = NetworkState::Registered;
}

/// Applies a command that arrived at local time `now`.
pub fn apply_command_at(ctx: &mut Context, command: &CommandType, now: u64)
    ensures
        *final(ctx) == context_after_command(*old(ctx), *command, now),
{
    match command {
        CommandType::NoCommand => {},
        CommandType::ForceState(force) => {
            if force.state == 0 {
                ctx.state.filter_state = FilterState::ForcedIdle(force.time);
            } else if force.state == 1 {
                ctx.state.filter_state = FilterState::ForcedClean(force.time);
            } else if force.state == 2 {
                ctx.state.filter_state = FilterState::ForcedFill(force.time);
            }
        },
        CommandType::ResyncTime(resync) => {
            ctx.clock_skew = clock_skew(resync.time, now);
        },
        CommandType::UpdateConfig(sent) => {
            ctx.config = config_from_wire(sent);
        },
        CommandType::SetResetLeak(leak) => {
            if leak.leak == 1 {
                ctx.state.leak = Some(now);
            } else {
                ctx.state.leak = None;
            }
        },
        CommandType::ResetMeasurementError => {
            ctx.state.measurement_error = None;
        },
        CommandType::NewFirmware(_) => {},
        CommandType::ResetDevice => {},
    }
}

/// Ends a registration at local time `now`: an acceptance is applied, and
/// any other answer is a wrong message type that changes nothing.
pub fn try_register_at(ctx: &mut Context, message: &Message, now: u64) -> (done: Result<
    (),
    NetworkError,
>)
    ensures
        done == exchange_result(Exchange::Register, Ok(message@)),
        done is Ok <==> message.payload is Accepted,
        *final(ctx) == match message.payload {
            MessagePayload::Accepted(accepted) => context_after_accepted(*old(ctx), accepted, now),
            _ => *old(ctx),
        },
{
    match &message.payload {
        MessagePayload::Accepted(accepted) => {
            apply_accepted_at(ctx, accepted, now);
            Ok(())
        },
        _ => Err(NetworkError::WrongMessageType),
    }
}

/// Ends a heartbeat at local time `now`: the command of the answer is
/// applied, and any other answer is a wrong message type that changes
/// nothing here.
pub fn try_heartbeat_at(ctx: &mut Context, message: &Message, now: u64) -> (done: Result<
    (),
    NetworkError,
>)
    ensures
        done == exchange_result(Exchange::Heartbeat, Ok(message@)),
        done is Ok <==> message.payload is HeartbeatResponse,
        *final(ctx) == match message.payload {
            MessagePayload::HeartbeatResponse(response) => context_after_command(
                *old(ctx),
                response.command,
                now,
            ),
            _ => *old(ctx),
        },
{
    match &message.payload {
        MessagePayload::HeartbeatResponse(response) => {
            apply_command_at(ctx, &response.command, now);
            Ok(())
        },
        _ => Err(NetworkError::WrongMessageType),
    }
}

/// Ends the exchange `exchange` at local time `now`, given what came back:
/// the decoded answer, or the failure of sending, receiving or decoding.
///
/// The exchange ends well exactly when the answer is of the kind it calls
/// for, and the answer is then applied. A registration that fails changes
/// nothing; a heartbeat that fails, in whatever way, takes the registration
/// away and changes nothing else.
pub fn conclude_at(
    ctx: &mut Context,
    exchange: Exchange,
    outcome: Result<Message, NetworkError>,
    now: u64,
) -> (done: Result<(), NetworkError>)
    ensures
        done == exchange_result(exchange, outcome_view(outcome)),
        *final(ctx) == context_after_exchange(*old(ctx), exchange, outcome_view(outcome), now),
        exchange == Exchange::Register && done is Err ==> *final(ctx) == *old(ctx),
        exchange == Exchange::Heartbeat && done is Err ==> *final(ctx) == (Context {
            network_state: NetworkState::Disconnected,
            ..*old(ctx)
        }),
{
    let done = match outcome {
        Ok(message) => match exchange {
            Exchange::Register => try_register_at(ctx, &message, now),
            Exchange::Heartbeat => try_heartbeat_at(ctx, &message, now),
        },
        Err(error) => Err(error),
    };
    match exchange {
        Exchange::Heartbeat => {
            if done.is_err() {
                ctx.network_state = NetworkState::Disconnected;
            }
        },
        Exchange::Register => {},
    }
    done
}

/// Ends the exchange `exchange` at the time the local clock shows. How the
/// exchange ends does not depend on the clock; the context is that of
/// [`conclude_at`] for some reading of it.
pub fn conclude(ctx: &mut Context, exchange: Exchange, outcome: Result<Message, NetworkError>) -> (done:
    Result<(), NetworkError>)
    ensures
        done == exchange_result(exchange, outcome_view(outcome)),
        exists|now: u64|
            *final(ctx) == #[trigger] context_after_exchange(
                *old(ctx),
                exchange,
                outcome_view(outcome),
                now,
            ),
        exchange == Exchange::Register && done is Err ==> *final(ctx) == *old(ctx),
        exchange == Exchange::Heartbeat && done is Err ==> *final(ctx) == (Context {
            network_state: NetworkState::Disconnected,
            ..*old(ctx)
        }),
{
    let now: u64 = now_millis();
    conclude_at(ctx, exchange, outcome, now)
}

} // verus!
