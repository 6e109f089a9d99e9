//! The messages of the device–server protocol and their fixed binary layout.
//!
//! A frame is a 9-byte header (magic number, type tag, frame length), a
//! payload whose layout the type tag decides, and one trailing byte that is
//! reserved: written as zero and never looked at. All numbers are big-endian.
//! The layout is stated once, over byte sequences, by the `*_bytes` and
//! `parse_*` functions; the encoders and decoders are proved against them.

use vstd::prelude::*;
use vstd::slice::slice_subrange;
use crate::clock::{apply_skew, elapsed, elapsed_since, now_millis, skewed};
use crate::state::{Context, FilterState};
use crate::wire::{
    be_u16, be_u32, be_u64, get_id, get_u16, get_u32, get_u64,
    lemma_u16_at, lemma_u32_at, lemma_u64_at, put_bytes, put_u16, put_u32, put_u64, put_u8,
    u16_at, u32_at, u64_at, zeros,
};

verus! {

/// The number every frame starts with.
pub const MAGIC: u32 = 0xfafafaff;

/// Type tag of a registration request.
pub const TYPE_REGISTER: u8 = 1;

/// Type tag of the answer to a registration request.
pub const TYPE_ACCEPTED: u8 = 2;

/// Type tag of a status report.
pub const TYPE_HEARTBEAT: u8 = 3;

/// Type tag of the answer to a status report.
pub const TYPE_HEARTBEAT_RESPONSE: u8 = 4;

/// Why a message could not be encoded or decoded.
#[derive(Clone, Copy, Debug, PartialEq, Eq, Structural)]
pub enum MessageError {
    /// The payload is of a kind that the device never sends.
    WrongMessageType,
    /// The frame does not start with the magic number.
    MagicMismatch,
    /// The type tag of the frame is none of the four known ones.
    TypeMismatch,
    /// The buffer ends before the field that was to be read.
    Truncated,
}

/// The header of a frame.
#[derive(Clone, Copy, Debug, PartialEq, Eq, Structural)]
pub struct MessageHeader {
    pub magic: u32,
    pub typ: u8,
    /// Length of the whole frame as the sender declared it. Decoding does
    /// not hold it against the bytes received.
    pub length: u32,
}

/// The reserved last byte of a frame.
#[derive(Clone, Copy, Debug, PartialEq, Eq, Structural)]
pub struct MessageEnd {
    pub xor: u8,
}

/// Registration request.
#[derive(Clone, Copy, Debug, PartialEq, Eq)]
pub struct Register {
    pub dev_id: [u8; 32],
    pub token: [u8; 32],
    pub dev_type: u8,
    pub firmware_version: u16,
    pub needs_config: u8,
}

/// Thresholds and durations as the server sends them.
#[derive(Clone, Copy, Debug, PartialEq, Eq, Structural)]
pub struct Config {
    pub waterlevel_fill_start: u64,
    pub waterlevel_fill_end: u64,
    pub clean_before_fill_duration: u64,
    pub clean_after_fill_duration: u64,
    pub leak_protection: u8,
}

/// Answer to a registration request.
#[derive(Clone, Copy, Debug, PartialEq, Eq, Structural)]
pub struct Accepted {
    pub time: u64,
    pub config_following: u8,
    /// Present exactly when `config_following` is 1.
    pub config: Option<Config>,
}

/// Status report.
#[derive(Clone, Copy, Debug, PartialEq, Eq)]
pub struct Heartbeat {
    pub dev_id: [u8; 32],
    pub dev_time: u64,
    pub filter_state: u8,
    pub forced_time_left: u64,
    pub last_state_change: u64,
    pub waterlevel: u64,
    pub measurement_error: u8,
    pub measurement_error_occured: u64,
    pub measurement_error_count: u32,
    pub leak: u8,
    pub leak_occured: u64,
}

/// Body of the command that forces a filter state for a time.
#[derive(Clone, Copy, Debug, PartialEq, Eq, Structural)]
pub struct ForceState {
    pub state: u8,
    pub time: u64,
}

/// Body of the command that sets the clock skew anew.
#[derive(Clone, Copy, Debug, PartialEq, Eq, Structural)]
pub struct ResyncTime {
    pub time: u64,
}

/// Body of the command that flags or clears a leak.
#[derive(Clone, Copy, Debug, PartialEq, Eq, Structural)]
pub struct SetResetLeak {
    pub leak: u8,
}

/// Body of the command that announces new firmware.
#[derive(Clone, Copy, Debug, PartialEq, Eq, Structural)]
pub struct NewFirmware {
    pub version: u16,
    pub size: u64,
}

/// A command of the server, carried by its answer to a status report.
#[derive(Clone, Copy, Debug, PartialEq, Eq, Structural)]
pub enum CommandType {
    /// Nothing to do.
    NoCommand,
    ForceState(ForceState),
    ResyncTime(ResyncTime),
    UpdateConfig(Config),
    SetResetLeak(SetResetLeak),
    ResetMeasurementError,
    NewFirmware(NewFirmware),
    ResetDevice,
}

/// Answer to a status report.
#[derive(Clone, Copy, Debug, PartialEq, Eq, Structural)]
pub struct HeartbeatResponse {
    /// The command tag as it stood on the wire, known or not.
    pub command_type: u8,
    pub command: CommandType,
}

/// What a frame carries.
#[derive(Clone, Copy, Debug, PartialEq, Eq)]
pub enum MessagePayload {
    Register(Register),
    Accepted(Accepted),
    Heartbeat(Heartbeat),
    HeartbeatResponse(HeartbeatResponse),
}

/// A decoded frame.
#[derive(Clone, Copy, Debug, PartialEq, Eq)]
pub struct Message {
    pub header: MessageHeader,
    pub payload: MessagePayload,
    pub end: MessageEnd,
}

/// A registration request with its identifiers as byte sequences.
pub struct RegisterView {
    pub dev_id: Seq<u8>,
    pub token: Seq<u8>,
    pub dev_type: u8,
    pub firmware_version: u16,
    pub needs_config: u8,
}

/// A status report with its identifier as a byte sequence.
pub struct HeartbeatView {
    pub dev_id: Seq<u8>,
    pub dev_time: u64,
    pub filter_state: u8,
    pub forced_time_left: u64,
    pub last_state_change: u64,
    pub waterlevel: u64,
    pub measurement_error: u8,
    pub measurement_error_occured: u64,
    pub measurement_error_count: u32,
    pub leak: u8,
    pub leak_occured: u64,
}

/// What a frame carries, over the views of the payloads.
pub enum PayloadView {
    Register(RegisterView),
    Accepted(Accepted),
    Heartbeat(HeartbeatView),
    HeartbeatResponse(HeartbeatResponse),
}

/// A decoded frame, over the view of its payload.
pub struct MessageView {
    pub header: MessageHeader,
    pub payload: PayloadView,
    pub end: MessageEnd,
}

impl View for Register {
    type V = RegisterView;

    open spec fn view(&self) -> RegisterView {
        RegisterView {
            dev_id: self.dev_id@,
            token: self.token@,
            dev_type: self.dev_type,
            firmware_version: self.firmware_version,
            needs_config: self.needs_config,
        }
    }
}

impl View for Heartbeat {
    type V = HeartbeatView;

    open spec fn view(&self) -> HeartbeatView {
        HeartbeatView {
            dev_id: self.dev_id@,
            dev_time: self.dev_time,
            filter_state: self.filter_state,
            forced_time_left: self.forced_time_left,
            last_state_change: self.last_state_change,
            waterlevel: self.waterlevel,
            measurement_error: self.measurement_error,
            measurement_error_occured: self.measurement_error_occured,
            measurement_error_count: self.measurement_error_count,
            leak: self.leak,
            leak_occured: self.leak_occured,
        }
    }
}

impl View for MessagePayload {
    type V = PayloadView;

    open spec fn view(&self) -> PayloadView {
        match *self {
            MessagePayload::Register(register) => PayloadView::Register(register@),
            MessagePayload::Accepted(accepted) => PayloadView::Accepted(accepted),
            MessagePayload::Heartbeat(heartbeat) => PayloadView::Heartbeat(heartbeat@),
            MessagePayload::HeartbeatResponse(response) => PayloadView::HeartbeatResponse(response),
        }
    }
}

impl View for Message {
    type V = MessageView;

    open spec fn view(&self) -> MessageView {
        MessageView { header: self.header, payload: self.payload@, end: self.end }
    }
}

/// The nine bytes of a header.
pub open spec fn header_bytes(header: MessageHeader) -> Seq<u8> {
    be_u32(header.magic) + seq![header.typ] + be_u32(header.length)
}

/// The 68 bytes of a registration request.
pub open spec fn register_bytes(register: RegisterView) -> Seq<u8> {
    register.dev_id + register.token + seq![register.dev_type] + be_u16(
        register.firmware_version,
    ) + seq![register.needs_config]
}

/// The 87 bytes of a status report.
pub open spec fn heartbeat_bytes(heartbeat: HeartbeatView) -> Seq<u8> {
    heartbeat.dev_id + be_u64(heartbeat.dev_time) + seq![heartbeat.filter_state] + be_u64(
        heartbeat.forced_time_left,
    ) + be_u64(heartbeat.last_state_change) + be_u64(heartbeat.waterlevel)
        + seq![heartbeat.measurement_error] + be_u64(heartbeat.measurement_error_occured)
        + be_u32(heartbeat.measurement_error_count) + seq![heartbeat.leak] + be_u64(
        heartbeat.leak_occured,
    )
}

/// The frame around `payload`: a header with the magic number, the type tag
/// and the length of the whole frame, the payload, and the reserved zero byte.
pub open spec fn frame(typ: u8, payload: Seq<u8>) -> Seq<u8> {
    header_bytes(MessageHeader { magic: MAGIC, typ, length: (payload.len() + 10) as u32 })
        + payload + seq![0u8]
}

/// The frame that carries `payload`, for the two kinds that the device sends.
pub open spec fn encoding(payload: PayloadView) -> Option<Seq<u8>> {
    match payload {
        PayloadView::Register(register) => Some(frame(TYPE_REGISTER, register_bytes(register))),
        PayloadView::Heartbeat(heartbeat) => Some(
            frame(TYPE_HEARTBEAT, heartbeat_bytes(heartbeat)),
        ),
        _ => None,
    }
}

/// A transmit buffer of 4096 bytes that starts with `frame` and is zero after it.
pub open spec fn transmit_buffer(frame: Seq<u8>) -> Seq<u8> {
    frame + zeros((4096 - frame.len()) as nat)
}

/// Encodes a header.
pub fn encode_header(header: &MessageHeader) -> (buffer: [u8; 9])
    ensures
        buffer@ == header_bytes(*header),
{
    let mut buffer: [u8; 9] = [0u8; 9];
    put_u32(&mut buffer, 0, header.magic);
    put_u8(&mut buffer, 4, header.typ);
    put_u32(&mut buffer, 5, header.length);
    assert(buffer@ =~= header_bytes(*header));
    buffer
}

/// Encodes the payload of a registration request.
pub fn encode_register(register: &Register) -> (buffer: [u8; 68])
    ensures
        buffer@ == register_bytes(register@),
{
    let mut buffer: [u8; 68] = [0u8; 68];
    put_bytes(&mut buffer, 0, &register.dev_id);
    put_bytes(&mut buffer, 32, &register.token);
    put_u8(&mut buffer, 64, register.dev_type);
    put_u16(&mut buffer, 65, register.firmware_version);
    put_u8(&mut buffer, 67, register.needs_config);
    assert(buffer@ =~= register_bytes(register@));
    buffer
}

/// Encodes the payload of a status report.
pub fn encode_heartbeat(heartbeat: &Heartbeat) -> (buffer: [u8; 87])
    ensures
        buffer@ == heartbeat_bytes(heartbeat@),
{
    let mut buffer: [u8; 87] = [0u8; 87];
    put_bytes(&mut buffer, 0, &heartbeat.dev_id);
    put_u64(&mut buffer, 32, heartbeat.dev_time);
    put_u8(&mut buffer, 40, heartbeat.filter_state);
    put_u64(&mut buffer, 41, heartbeat.forced_time_left);
    put_u64(&mut buffer, 49, heartbeat.last_state_change);
    put_u64(&mut buffer, 57, heartbeat.waterlevel);
    put_u8(&mut buffer, 65, heartbeat.measurement_error);
    put_u64(&mut buffer, 66, heartbeat.measurement_error_occured);
    put_u32(&mut buffer, 74, heartbeat.measurement_error_count);
    put_u8(&mut buffer, 78, heartbeat.leak);
    put_u64(&mut buffer, 79, heartbeat.leak_occured);
    assert(buffer@ =~= heartbeat_bytes(heartbeat@));
    buffer
}

/// Encodes the frame of a registration request into a transmit buffer and
/// returns the buffer with the length of the frame, 78.
pub fn encode_register_message(register: &Register) -> (sent: ([u8; 4096], usize))
    ensures
        sent.0@ == transmit_buffer(frame(TYPE_REGISTER, register_bytes(register@))),
        sent.1 == 78,
{
    let mut buffer: [u8; 4096] = [0u8; 4096];
    let header = encode_header(&MessageHeader { magic: MAGIC, typ: TYPE_REGISTER, length: 78 });
    let payload = encode_register(register);
    put_bytes(&mut buffer, 0, &header);
    put_bytes(&mut buffer, 9, &payload);
    put_u8(&mut buffer, 77, 0);
    assert(buffer@ =~= transmit_buffer(frame(TYPE_REGISTER, register_bytes(register@))));
    (buffer, 78)
}

/// Encodes the frame of a status report into a transmit buffer and returns
/// the buffer with the length of the frame, 97.
pub fn encode_heartbeat_message(heartbeat: &Heartbeat) -> (sent: ([u8; 4096], usize))
    ensures
        sent.0@ == transmit_buffer(frame(TYPE_HEARTBEAT, heartbeat_bytes(heartbeat@))),
        sent.1 == 97,
{
    let mut buffer: [u8; 4096] = [0u8; 4096];
    let header = encode_header(&MessageHeader { magic: MAGIC, typ: TYPE_HEARTBEAT, length: 97 });
    let payload = encode_heartbeat(heartbeat);
    put_bytes(&mut buffer, 0, &header);
    put_bytes(&mut buffer, 9, &payload);
    put_u8(&mut buffer, 96, 0);
    assert(buffer@ =~= transmit_buffer(frame(TYPE_HEARTBEAT, heartbeat_bytes(heartbeat@))));
    (buffer, 97)
}

/// Encodes a message that the device sends: a registration request or a
/// status report. The buffer starts with the frame and is zero after it; the
/// length returned is that of the frame. The two kinds of payload that only
/// the server sends are refused.
pub fn encode_message(message: MessagePayload) -> (sent: Result<([u8; 4096], usize), MessageError>)
    ensures
        match encoding(message@) {
            Some(frame) => sent is Ok && sent->Ok_0.0@ == transmit_buffer(frame) && sent->Ok_0.1
                == frame.len(),
            None => sent == Err::<([u8; 4096], usize), MessageError>(
                MessageError::WrongMessageType,
            ),
        },
{
    match message {
        MessagePayload::Register(register) => Ok(encode_register_message(&register)),
        MessagePayload::Heartbeat(heartbeat) => Ok(encode_heartbeat_message(&heartbeat)),
        _ => Err(MessageError::WrongMessageType),
    }
}

/// What the nine bytes at the start of `bytes` say as a header. The magic
/// number must be the known one and the type tag one of the four known ones;
/// the declared length is taken as it stands.
pub open spec fn parse_header(bytes: Seq<u8>) -> Result<MessageHeader, MessageError> {
    if bytes.len() < 9 {
        Err(MessageError::Truncated)
    } else if u32_at(bytes, 0) != MAGIC {
        Err(MessageError::MagicMismatch)
    } else if !(TYPE_REGISTER <= bytes[4] <= TYPE_HEARTBEAT_RESPONSE) {
        Err(MessageError::TypeMismatch)
    } else {
        Ok(MessageHeader { magic: u32_at(bytes, 0), typ: bytes[4], length: u32_at(bytes, 5) })
    }
}

/// What the 68 bytes at the start of `bytes` say as a registration request.
pub open spec fn parse_register(bytes: Seq<u8>) -> Result<RegisterView, MessageError> {
    if bytes.len() < 68 {
        Err(MessageError::Truncated)
    } else {
        Ok(
            RegisterView {
                dev_id: bytes.subrange(0, 32),
                token: bytes.subrange(32, 64),
                dev_type: bytes[64],
                firmware_version: u16_at(bytes, 65),
                needs_config: bytes[67],
            },
        )
    }
}

/// What the 33 bytes at the start of `bytes` say as a configuration block.
pub open spec fn parse_config(bytes: Seq<u8>) -> Result<Config, MessageError> {
    if bytes.len() < 33 {
        Err(MessageError::Truncated)
    } else {
        Ok(
            Config {
                waterlevel_fill_start: u64_at(bytes, 0),
                waterlevel_fill_end: u64_at(bytes, 8),
                clean_before_fill_duration: u64_at(bytes, 16),
                clean_after_fill_duration: u64_at(bytes, 24),
                leak_protection: bytes[32],
            },
        )
    }
}

/// What `bytes` say as the answer to a registration request: the server
/// time, the flag, and a configuration block exactly when the flag is 1.
pub open spec fn parse_accepted(bytes: Seq<u8>) -> Result<Accepted, MessageError> {
    if bytes.len() < 9 {
        Err(MessageError::Truncated)
    } else if bytes[8] == 1 {
        match parse_config(bytes.subrange(9, bytes.len() as int)) {
            Ok(config) => Ok(
                Accepted { time: u64_at(bytes, 0), config_following: 1, config: Some(config) },
            ),
            Err(error) => Err(error),
        }
    } else {
        Ok(Accepted { time: u64_at(bytes, 0), config_following: bytes[8], config: None })
    }
}

/// What the 87 bytes at the start of `bytes` say as a status report.
pub open spec fn parse_heartbeat(bytes: Seq<u8>) -> Result<HeartbeatView, MessageError> {
    if bytes.len() < 87 {
        Err(MessageError::Truncated)
    } else {
        Ok(
            HeartbeatView {
                dev_id: bytes.subrange(0, 32),
                dev_time: u64_at(bytes, 32),
                filter_state: bytes[40],
                forced_time_left: u64_at(bytes, 41),
                last_state_change: u64_at(bytes, 49),
                waterlevel: u64_at(bytes, 57),
                measurement_error: bytes[65],
                measurement_error_occured: u64_at(bytes, 66),
                measurement_error_count: u32_at(bytes, 74),
                leak: bytes[78],
                leak_occured: u64_at(bytes, 79),
            },
        )
    }
}

/// What the nine bytes at the start of `bytes` say as the body of a forced state.
pub open spec fn parse_force_state(bytes: Seq<u8>) -> Result<ForceState, MessageError> {
    if bytes.len() < 9 {
        Err(MessageError::Truncated)
    } else {
        Ok(ForceState { state: bytes[0], time: u64_at(bytes, 1) })
    }
}

/// What the eight bytes at the start of `bytes` say as the body of a resync.
pub open spec fn parse_resync_time(bytes: Seq<u8>) -> Result<ResyncTime, MessageError> {
    if bytes.len() < 8 {
        Err(MessageError::Truncated)
    } else {
        Ok(ResyncTime { time: u64_at(bytes, 0) })
    }
}

/// What the first byte of `bytes` says as the body of a leak command.
pub open spec fn parse_set_reset_leak(bytes: Seq<u8>) -> Result<SetResetLeak, MessageError> {
    if bytes.len() < 1 {
        Err(MessageError::Truncated)
    } else {
        Ok(SetResetLeak { leak: bytes[0] })
    }
}

/// What the ten bytes at the start of `bytes` say as the body of a firmware
/// announcement.
pub open spec fn parse_new_firmware(bytes: Seq<u8>) -> Result<NewFirmware, MessageError> {
    if bytes.len() < 10 {
        Err(MessageError::Truncated)
    } else {
        Ok(NewFirmware { version: u16_at(bytes, 0), size: u64_at(bytes, 2) })
    }
}

/// The command that the tag `command_type` and the body `body` spell. A tag
/// that is not known spells no command, and no error.
pub open spec fn parse_command(command_type: u8, body: Seq<u8>) -> Result<
    CommandType,
    MessageError,
> {
    if command_type == 1 {
        match parse_force_state(body) {
            Ok(force) => Ok(CommandType::ForceState(force)),
            Err(error) => Err(error),
        }
    } else if command_type == 2 {
        match parse_resync_time(body) {
            Ok(resync) => Ok(CommandType::ResyncTime(resync)),
            Err(error) => Err(error),
        }
    } else if command_type == 3 {
        match parse_config(body) {
            Ok(config) => Ok(CommandType::UpdateConfig(config)),
            Err(error) => Err(error),
        }
    } else if command_type == 4 {
        match parse_set_reset_leak(body) {
            Ok(leak) => Ok(CommandType::SetResetLeak(leak)),
            Err(error) => Err(error),
        }
    } else if command_type == 5 {
        Ok(CommandType::ResetMeasurementError)
    } else if command_type == 6 {
        match parse_new_firmware(body) {
            Ok(firmware) => Ok(CommandType::NewFirmware(firmware)),
            Err(error) => Err(error),
        }
    } else if command_type == 7 {
        Ok(CommandType::ResetDevice)
    } else {
        Ok(CommandType::NoCommand)
    }
}

/// What `bytes` say as the answer to a status report: a command tag and the
/// body of that command.
pub open spec fn parse_heartbeat_response(bytes: Seq<u8>) -> Result<
    HeartbeatResponse,
    MessageError,
> {
    if bytes.len() < 1 {
        Err(MessageError::Truncated)
    } else {
        match parse_command(bytes[0], bytes.subrange(1, bytes.len() as int)) {
            Ok(command) => Ok(HeartbeatResponse { command_type: bytes[0], command }),
            Err(error) => Err(error),
        }
    }
}

/// What the first byte of `bytes` says as the reserved end of a frame.
pub open spec fn parse_end(bytes: Seq<u8>) -> Result<MessageEnd, MessageError> {
    if bytes.len() < 1 {
        Err(MessageError::Truncated)
    } else {
        Ok(MessageEnd { xor: bytes[0] })
    }
}

/// What `bytes` say as the payload of a frame with type tag `typ`.
pub open spec fn parse_payload(bytes: Seq<u8>, typ: u8) -> Result<PayloadView, MessageError> {
    if typ == TYPE_REGISTER {
        match parse_register(bytes) {
            Ok(register) => Ok(PayloadView::Register(register)),
            Err(error) => Err(error),
        }
    } else if typ == TYPE_ACCEPTED {
        match parse_accepted(bytes) {
            Ok(accepted) => Ok(PayloadView::Accepted(accepted)),
            Err(error) => Err(error),
        }
    } else if typ == TYPE_HEARTBEAT {
        match parse_heartbeat(bytes) {
            Ok(heartbeat) => Ok(PayloadView::Heartbeat(heartbeat)),
            Err(error) => Err(error),
        }
    } else if typ == TYPE_HEARTBEAT_RESPONSE {
        match parse_heartbeat_response(bytes) {
            Ok(response) => Ok(PayloadView::HeartbeatResponse(response)),
            Err(error) => Err(error),
        }
    } else {
        Err(MessageError::TypeMismatch)
    }
}

/// What a receive buffer says as a frame: the header in its first nine
/// bytes, the reserved byte at its very end, and the payload in between,
/// read from its start as far as its kind needs.
pub open spec fn parse_message(bytes: Seq<u8>) -> Result<MessageView, MessageError> {
    if bytes.len() < 10 {
        Err(MessageError::Truncated)
    } else {
        match parse_header(bytes.subrange(0, 9)) {
            Err(error) => Err(error),
            Ok(header) => match parse_payload(bytes.subrange(9, bytes.len() - 1), header.typ) {
                Err(error) => Err(error),
                Ok(payload) => Ok(
                    MessageView { header, payload, end: MessageEnd { xor: bytes[bytes.len() - 1] } },
                ),
            },
        }
    }
}

/// The view of what a decoder of registration requests returned.
pub open spec fn register_result(decoded: Result<Register, MessageError>) -> Result<
    RegisterView,
    MessageError,
> {
    match decoded {
        Ok(register) => Ok(register@),
        Err(error) => Err(error),
    }
}

/// The view of what a decoder of status reports returned.
pub open spec fn heartbeat_result(decoded: Result<Heartbeat, MessageError>) -> Result<
    HeartbeatView,
    MessageError,
> {
    match decoded {
        Ok(heartbeat) => Ok(heartbeat@),
        Err(error) => Err(error),
    }
}

/// The view of what a decoder of payloads returned.
pub open spec fn payload_result(decoded: Result<MessagePayload, MessageError>) -> Result<
    PayloadView,
    MessageError,
> {
    match decoded {
        Ok(payload) => Ok(payload@),
        Err(error) => Err(error),
    }
}

/// The view of what a decoder of frames returned.
pub open spec fn message_result(decoded: Result<Message, MessageError>) -> Result<
    MessageView,
    MessageError,
> {
    match decoded {
        Ok(message) => Ok(message@),
        Err(error) => Err(error),
    }
}

/// Decodes the header at the start of `buffer`.
pub fn decode_header(buffer: &[u8]) -> (decoded: Result<MessageHeader, MessageError>)
    ensures
        decoded == parse_header(buffer@),
{
    if buffer.len() < 9 {
        return Err(MessageError::Truncated);
    }
    let magic: u32 = get_u32(buffer, 0);
    if magic != MAGIC {
        return Err(MessageError::MagicMismatch);
    }
    let typ: u8 = buffer[4];
    if typ < TYPE_REGISTER || typ > TYPE_HEARTBEAT_RESPONSE {
        return Err(MessageError::TypeMismatch);
    }
    let length: u32 = get_u32(buffer, 5);
    Ok(MessageHeader { magic, typ, length })
}

/// Decodes the reserved end of a frame from the first byte of `buffer`.
/// The byte is handed on and not judged.
pub fn decode_end(buffer: &[u8]) -> (decoded: Result<MessageEnd, MessageError>)
    ensures
        decoded == parse_end(buffer@),
{
    if buffer.len() < 1 {
        return Err(MessageError::Truncated);
    }
    Ok(MessageEnd { xor: buffer[0] })
}

/// Decodes the registration request at the start of `buffer`.
pub fn decode_register(buffer: &[u8]) -> (decoded: Result<Register, MessageError>)
    ensures
        register_result(decoded) == parse_register(buffer@),
{
    if buffer.len() < 68 {
        return Err(MessageError::Truncated);
    }
    let register = Register {
        dev_id: get_id(buffer, 0),
        token: get_id(buffer, 32),
        dev_type: buffer[64],
        firmware_version: get_u16(buffer, 65),
        needs_config: buffer[67],
    };
    Ok(register)
}

/// Decodes the configuration block at the start of `buffer`.
pub fn decode_config(buffer: &[u8]) -> (decoded: Result<Config, MessageError>)
    ensures
        decoded == parse_config(buffer@),
{
    if buffer.len() < 33 {
        return Err(MessageError::Truncated);
    }
    Ok(
        Config {
            waterlevel_fill_start: get_u64(buffer, 0),
            waterlevel_fill_end: get_u64(buffer, 8),
            clean_before_fill_duration: get_u64(buffer, 16),
            clean_after_fill_duration: get_u64(buffer, 24),
            leak_protection: buffer[32],
        },
    )
}

/// Decodes the answer to a registration request from `buffer`. A
/// configuration block is read, from the tenth byte on, exactly when the
/// flag in the ninth byte is 1.
pub fn decode_accepted(buffer: &[u8]) -> (decoded: Result<Accepted, MessageError>)
    ensures
        decoded == parse_accepted(buffer@),
{
    if buffer.len() < 9 {
        return Err(MessageError::Truncated);
    }
    let time: u64 = get_u64(buffer, 0);
    let config_following: u8 = buffer[8];
    if config_following == 1 {
        match decode_config(slice_subrange(buffer, 9, buffer.len())) {
            Ok(config) => Ok(Accepted { time, config_following, config: Some(config) }),
            Err(error) => Err(error),
        }
    } else {
        Ok(Accepted { time, config_following, config: None })
    }
}

/// Decodes the status report at the start of `buffer`.
pub fn decode_heartbeat(buffer: &[u8]) -> (decoded: Result<Heartbeat, MessageError>)
    ensures
        heartbeat_result(decoded) == parse_heartbeat(buffer@),
{
    if buffer.len() < 87 {
        return Err(MessageError::Truncated);
    }
    let heartbeat = Heartbeat {
        dev_id: get_id(buffer, 0),
        dev_time: get_u64(buffer, 32),
        filter_state: buffer[40],
        forced_time_left: get_u64(buffer, 41),
        last_state_change: get_u64(buffer, 49),
        waterlevel: get_u64(buffer, 57),
        measurement_error: buffer[65],
        measurement_error_occured: get_u64(buffer, 66),
        measurement_error_count: get_u32(buffer, 74),
        leak: buffer[78],
        leak_occured: get_u64(buffer, 79),
    };
    Ok(heartbeat)
}

/// Decodes the body of a forced state at the start of `buffer`.
pub fn decode_force_state(buffer: &[u8]) -> (decoded: Result<ForceState, MessageError>)
    ensures
        decoded == parse_force_state(buffer@),
{
    if buffer.len() < 9 {
        return Err(MessageError::Truncated);
    }
    Ok(ForceState { state: buffer[0], time: get_u64(buffer, 1) })
}

/// Decodes the body of a resync at the start of `buffer`.
pub fn decode_resync_time(buffer: &[u8]) -> (decoded: Result<ResyncTime, MessageError>)
    ensures
        decoded == parse_resync_time(buffer@),
{
    if buffer.len() < 8 {
        return Err(MessageError::Truncated);
    }
    Ok(ResyncTime { time: get_u64(buffer, 0) })
}

/// Decodes the body of a leak command from the first byte of `buffer`.
pub fn decode_set_reset_leak(buffer: &[u8]) -> (decoded: Result<SetResetLeak, MessageError>)
    ensures
        decoded == parse_set_reset_leak(buffer@),
{
    if buffer.len() < 1 {
        return Err(MessageError::Truncated);
    }
    Ok(SetResetLeak { leak: buffer[0] })
}

/// Decodes the body of a firmware announcement at the start of `buffer`.
pub fn decode_new_firmware(buffer: &[u8]) -> (decoded: Result<NewFirmware, MessageError>)
    ensures
        decoded == parse_new_firmware(buffer@),
{
    if buffer.len() < 10 {
        return Err(MessageError::Truncated);
    }
    Ok(NewFirmware { version: get_u16(buffer, 0), size: get_u64(buffer, 2) })
}

/// Decodes the answer to a status report from `buffer`: the command tag in
/// its first byte, then the body of that command. A tag that is not known
/// gives no command, and no error.
pub fn decode_heartbeat_response(buffer: &[u8]) -> (decoded: Result<
    HeartbeatResponse,
    MessageError,
>)
    ensures
        decoded == parse_heartbeat_response(buffer@),
{
    if buffer.len() < 1 {
        return Err(MessageError::Truncated);
    }
    let command_type: u8 = buffer[0];
    let body = slice_subrange(buffer, 1, buffer.len());
    let command = match command_type {
        1 => match decode_force_state(body) {
            Ok(force) => CommandType::ForceState(force),
            Err(error) => {
                return Err(error);
            },
        },
        2 => match decode_resync_time(body) {
            Ok(resync) => CommandType::ResyncTime(resync),
            Err(error) => {
                return Err(error);
            },
        },
        3 => match decode_config(body) {
            Ok(config) => CommandType::UpdateConfig(config),
            Err(error) => {
                return Err(error);
            },
        },
        4 => match decode_set_reset_leak(body) {
            Ok(leak) => CommandType::SetResetLeak(leak),
            Err(error) => {
                return Err(error);
            },
        },
        5 => CommandType::ResetMeasurementError,
        6 => match decode_new_firmware(body) {
            Ok(firmware) => CommandType::NewFirmware(firmware),
            Err(error) => {
                return Err(error);
            },
        },
        7 => CommandType::ResetDevice,
        _ => CommandType::NoCommand,
    };
    Ok(HeartbeatResponse { command_type, command })
}

/// Decodes the payload of a frame with type tag `typ` from `buffer`.
pub fn decode_payload(buffer: &[u8], typ: u8) -> (decoded: Result<MessagePayload, MessageError>)
    ensures
        payload_result(decoded) == parse_payload(buffer@, typ),
{
    match typ {
        1 => match decode_register(buffer) {
            Ok(register) => Ok(MessagePayload::Register(register)),
            Err(error) => Err(error),
        },
        2 => match decode_accepted(buffer) {
            Ok(accepted) => Ok(MessagePayload::Accepted(accepted)),
            Err(error) => Err(error),
        },
        3 => match decode_heartbeat(buffer) {
            Ok(heartbeat) => Ok(MessagePayload::Heartbeat(heartbeat)),
            Err(error) => Err(error),
        },
        4 => match decode_heartbeat_response(buffer) {
            Ok(response) => Ok(MessagePayload::HeartbeatResponse(response)),
            Err(error) => Err(error),
        },
        _ => Err(MessageError::TypeMismatch),
    }
}

/// Decodes a frame from a receive buffer.
///
/// The header is read from the first nine bytes, the reserved byte from the
/// very end of the buffer, and the payload from what lies between, as far as
/// its kind needs. The length that the header declares is not held against
/// the buffer, and the reserved byte is not judged. A buffer too short for
/// what is to be read, a wrong magic number and an unknown type tag are
/// refused, in that order.
pub fn decode_message(buffer: &[u8]) -> (decoded: Result<Message, MessageError>)
    ensures
        message_result(decoded) == parse_message(buffer@),
{
    if buffer.len() < 10 {
        return Err(MessageError::Truncated);
    }
    let header = match decode_header(slice_subrange(buffer, 0, 9)) {
        Ok(header) => header,
        Err(error) => {
            return Err(error);
        },
    };
    let payload = match decode_payload(slice_subrange(buffer, 9, buffer.len() - 1), header.typ) {
        Ok(payload) => payload,
        Err(error) => {
            return Err(error);
        },
    };
    let end = match decode_end(slice_subrange(buffer, buffer.len() - 1, buffer.len())) {
        Ok(end) => end,
        Err(error) => {
            return Err(error);
        },
    };
    Ok(Message { header, payload, end })
}

/// Whether the identifiers of `payload` have their 32 bytes each, as those
/// of every payload in memory do.
pub open spec fn well_formed(payload: PayloadView) -> bool {
    match payload {
        PayloadView::Register(register) => register.dev_id.len() == 32 && register.token.len()
            == 32,
        PayloadView::Heartbeat(heartbeat) => heartbeat.dev_id.len() == 32,
        _ => true,
    }
}

/// The type tag under which `payload` travels.
pub open spec fn type_of(payload: PayloadView) -> u8 {
    match payload {
        PayloadView::Register(_) => TYPE_REGISTER,
        PayloadView::Accepted(_) => TYPE_ACCEPTED,
        PayloadView::Heartbeat(_) => TYPE_HEARTBEAT,
        PayloadView::HeartbeatResponse(_) => TYPE_HEARTBEAT_RESPONSE,
    }
}

/// A registration request is read back from its bytes, whatever follows them.
pub proof fn lemma_register_round_trip(register: RegisterView, rest: Seq<u8>)
    requires
        register.dev_id.len() == 32,
        register.token.len() == 32,
    ensures
        register_bytes(register).len() == 68,
        parse_register(register_bytes(register) + rest) == Ok::<RegisterView, MessageError>(
            register,
        ),
{
    let bytes = register_bytes(register) + rest;
    assert(bytes.subrange(0, 32) =~= register.dev_id);
    assert(bytes.subrange(32, 64) =~= register.token);
    assert(bytes.subrange(65, 67) =~= be_u16(register.firmware_version));
    lemma_u16_at(bytes, 65, register.firmware_version);
}

/// A status report is read back from its bytes, whatever follows them.
pub proof fn lemma_heartbeat_round_trip(heartbeat: HeartbeatView, rest: Seq<u8>)
    requires
        heartbeat.dev_id.len() == 32,
    ensures
        heartbeat_bytes(heartbeat).len() == 87,
        parse_heartbeat(heartbeat_bytes(heartbeat) + rest) == Ok::<HeartbeatView, MessageError>(
            heartbeat,
        ),
{
    let bytes = heartbeat_bytes(heartbeat) + rest;
    assert(bytes.len() >= 87);
    assert(bytes.subrange(0, 32) =~= heartbeat.dev_id);
    assert(bytes[40] == heartbeat.filter_state);
    assert(bytes[65] == heartbeat.measurement_error);
    assert(bytes[78] == heartbeat.leak);
    assert(bytes.subrange(32, 40) =~= be_u64(heartbeat.dev_time));
    assert(bytes.subrange(41, 49) =~= be_u64(heartbeat.forced_time_left));
    assert(bytes.subrange(49, 57) =~= be_u64(heartbeat.last_state_change));
    assert(bytes.subrange(57, 65) =~= be_u64(heartbeat.waterlevel));
    assert(bytes.subrange(66, 74) =~= be_u64(heartbeat.measurement_error_occured));
    assert(bytes.subrange(74, 78) =~= be_u32(heartbeat.measurement_error_count));
    assert(bytes.subrange(79, 87) =~= be_u64(heartbeat.leak_occured));
    lemma_u64_at(bytes, 32, heartbeat.dev_time);
    lemma_u64_at(bytes, 41, heartbeat.forced_time_left);
    lemma_u64_at(bytes, 49, heartbeat.last_state_change);
    lemma_u64_at(bytes, 57, heartbeat.waterlevel);
    lemma_u64_at(bytes, 66, heartbeat.measurement_error_occured);
    lemma_u32_at(bytes, 74, heartbeat.measurement_error_count);
    lemma_u64_at(bytes, 79, heartbeat.leak_occured);
}

/// A header with the magic number and a known type tag is read back from
/// its bytes.
pub proof fn lemma_header_round_trip(header: MessageHeader)
    requires
        header.magic == MAGIC,
        TYPE_REGISTER <= header.typ <= TYPE_HEARTBEAT_RESPONSE,
    ensures
        header_bytes(header).len() == 9,
        parse_header(header_bytes(header)) == Ok::<MessageHeader, MessageError>(header),
{
    let bytes = header_bytes(header);
    assert(bytes.subrange(0, 4) =~= be_u32(header.magic));
    assert(bytes.subrange(5, 9) =~= be_u32(header.length));
    lemma_u32_at(bytes, 0, header.magic);
    lemma_u32_at(bytes, 5, header.length);
}

/// Decoding what was encoded gives the message back, field for field: for
/// every registration request and every status report, the frame that the
/// encoder lays out, alone or in its zero-padded transmit buffer, parses to
/// the header that was written, the same payload, and a zero end byte.
pub proof fn lemma_round_trip(payload: PayloadView)
    requires
        well_formed(payload),
        encoding(payload) is Some,
    ensures
        parse_message(encoding(payload)->0) == Ok::<MessageView, MessageError>(
            MessageView {
                header: MessageHeader {
                    magic: MAGIC,
                    typ: type_of(payload),
                    length: encoding(payload)->0.len() as u32,
                },
                payload,
                end: MessageEnd { xor: 0 },
            },
        ),
        parse_message(transmit_buffer(encoding(payload)->0)) == parse_message(
            encoding(payload)->0,
        ),
{
    let framed = encoding(payload)->0;
    let sent = transmit_buffer(framed);
    let body = match payload {
        PayloadView::Register(register) => register_bytes(register),
        PayloadView::Heartbeat(heartbeat) => heartbeat_bytes(heartbeat),
        _ => Seq::<u8>::empty(),
    };
    let header = MessageHeader {
        magic: MAGIC,
        typ: type_of(payload),
        length: (body.len() + 10) as u32,
    };
    match payload {
        PayloadView::Register(register) => {
            lemma_register_round_trip(register, Seq::<u8>::empty());
            lemma_register_round_trip(register, sent.subrange(77, 4095));
        },
        PayloadView::Heartbeat(heartbeat) => {
            lemma_heartbeat_round_trip(heartbeat, Seq::<u8>::empty());
            lemma_heartbeat_round_trip(heartbeat, sent.subrange(96, 4095));
        },
        _ => {},
    }
    lemma_header_round_trip(header);
    assert(framed == header_bytes(header) + body + seq![0u8]);
    assert(framed.subrange(0, 9) =~= header_bytes(header));
    assert(sent.subrange(0, 9) =~= header_bytes(header));
    assert(framed.subrange(9, framed.len() - 1) =~= body + Seq::<u8>::empty());
    assert(sent.subrange(9, 4095) =~= body + sent.subrange(9 + body.len() as int, 4095));
}

/// The code under which a filter state is reported.
pub open spec fn filter_state_code(state: FilterState) -> u8 {
    match state {
        FilterState::Idle => 0,
        FilterState::CleanBeforeFill => 1,
        FilterState::CleanAfterFill => 2,
        FilterState::Fill => 3,
        FilterState::ForcedFill(_) => 4,
        FilterState::ForcedClean(_) => 5,
        FilterState::ForcedIdle(_) => 6,
    }
}

/// What is left at `now` of a forced state entered at `since`: its length
/// less the time gone by, and never less than nothing. A state that is not
/// forced has nothing left.
pub open spec fn forced_time_left(state: FilterState, since: u64, now: u64) -> int {
    let length: int = match state {
        FilterState::ForcedFill(duration) => duration as int,
        FilterState::ForcedClean(duration) => duration as int,
        FilterState::ForcedIdle(duration) => duration as int,
        _ => 0,
    };
    if length >= elapsed(since, now) {
        length - elapsed(since, now)
    } else {
        0
    }
}

/// The number reported in the field that counts measurement errors. It is
/// the time of the last failed measurement where that fits in 32 bits, and
/// zero otherwise: the field has the shape of a counter but carries no count.
pub open spec fn measurement_error_count(failed: Option<u64>) -> u32 {
    match failed {
        Some(time) => if time <= u32::MAX {
            time as u32
        } else {
            0
        },
        None => 0,
    }
}

/// The status report that a device with identifier `dev_id` makes of `ctx`
/// at local time `now`. Times go out carried over to server time; the time
/// of the last failed measurement does not go out at all.
pub open spec fn heartbeat_of(ctx: Context, dev_id: Seq<u8>, now: u64) -> HeartbeatView {
    HeartbeatView {
        dev_id,
        dev_time: skewed(now, ctx.clock_skew) as u64,
        filter_state: filter_state_code(ctx.state.filter_state),
        forced_time_left: forced_time_left(
            ctx.state.filter_state,
            ctx.state.last_state_change,
            now,
        ) as u64,
        last_state_change: skewed(ctx.state.last_state_change, ctx.clock_skew) as u64,
        waterlevel: match ctx.state.waterlevel {
            Some(level) => level,
            None => 0,
        },
        measurement_error: if ctx.state.measurement_error is Some && ctx.state.measurement_error
            != Some(0u64) {
            1
        } else {
            0
        },
        measurement_error_occured: 0,
        measurement_error_count: measurement_error_count(ctx.state.measurement_error),
        leak: if ctx.state.leak is Some {
            1
        } else {
            0
        },
        leak_occured: match ctx.state.leak {
            Some(time) => skewed(time, ctx.clock_skew) as u64,
            None => 0,
        },
    }
}

/// The code under which a filter state is reported.
pub fn encode_filter_state(state: FilterState) -> (code: u8)
    ensures
        code == filter_state_code(state),
{
    match state {
        FilterState::Idle => 0,
        FilterState::CleanBeforeFill => 1,
        FilterState::CleanAfterFill => 2,
        FilterState::Fill => 3,
        FilterState::ForcedFill(_) => 4,
        FilterState::ForcedClean(_) => 5,
        FilterState::ForcedIdle(_) => 6,
    }
}

/// What is left at `now` of a forced state entered at `since`.
pub fn remaining_forced_time(state: FilterState, since: u64, now: u64) -> (left: u64)
    ensures
        left == forced_time_left(state, since, now),
{
    let gone: u64 = elapsed_since(since, now);
    match state {
        FilterState::ForcedFill(duration) => duration.saturating_sub(gone),
        FilterState::ForcedClean(duration) => duration.saturating_sub(gone),
        FilterState::ForcedIdle(duration) => duration.saturating_sub(gone),
        _ => 0,
    }
}

/// Builds the status report of `state` at local time `now`, for the device
/// with identifier `dev_id`.
pub fn heartbeat_at(state: &Context, dev_id: [u8; 32], now: u64) -> (heartbeat: Heartbeat)
    ensures
        heartbeat@ == heartbeat_of(*state, dev_id@, now),
{
    let failed: u64 = match state.state.measurement_error {
        Some(time) => time,
        None => 0,
    };
    Heartbeat {
        dev_id,
        dev_time: apply_skew(now, state.clock_skew),
        filter_state: encode_filter_state(state.state.filter_state),
        forced_time_left: remaining_forced_time(
            state.state.filter_state,
            state.state.last_state_change,
            now,
        ),
        last_state_change: apply_skew(state.state.last_state_change, state.clock_skew),
        waterlevel: match state.state.waterlevel {
            Some(level) => level,
            None => 0,
        },
        measurement_error: if failed != 0 {
            1
        } else {
            0
        },
        measurement_error_occured: 0,
        measurement_error_count: if failed <= 0xffff_ffff {
            failed as u32
        } else {
            0
        },
        leak: if state.state.leak.is_some() {
            1
        } else {
            0
        },
        leak_occured: match state.state.leak {
            Some(time) => apply_skew(time, state.clock_skew),
            None => 0,
        },
    }
}

/// Builds the status report of `state` at the time the local clock shows,
/// for the device with identifier `dev_id`. Whatever the clock shows, the
/// report is that of [`heartbeat_at`] for some reading of it.
pub fn create_heartbeat(state: &Context, dev_id: [u8; 32]) -> (heartbeat: Heartbeat)
    ensures
        exists|now: u64| heartbeat@ == #[trigger] heartbeat_of(*state, dev_id@, now),
        heartbeat.dev_id@ == dev_id@,
        heartbeat.filter_state == filter_state_code(state.state.filter_state),
        heartbeat.measurement_error_count == measurement_error_count(state.state.measurement_error),
        heartbeat.measurement_error_occured == 0,
{
    let now: u64 = now_millis();
    heartbeat_at(state, dev_id, now)
}

} // verus!
