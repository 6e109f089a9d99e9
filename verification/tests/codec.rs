use water_filter::messages::{
    create_heartbeat, decode_accepted, decode_config, decode_end, decode_force_state,
    decode_header, decode_heartbeat, decode_heartbeat_response, decode_message,
    decode_new_firmware, decode_payload, decode_register, decode_resync_time,
    decode_set_reset_leak, encode_filter_state, encode_header, encode_heartbeat,
    encode_heartbeat_message, encode_message, encode_register, encode_register_message,
    heartbeat_at, remaining_forced_time, Accepted, CommandType, Config, ForceState, Heartbeat,
    HeartbeatResponse, Message, MessageEnd, MessageError, MessageHeader, MessagePayload,
    NewFirmware, Register, ResyncTime, SetResetLeak, MAGIC,
};
use water_filter::state::{Context, FilterState};

fn token() -> [u8; 32] {
    let mut token = [0u8; 32];
    for (i, byte) in token.iter_mut().enumerate() {
        *byte = 0x30 + (i as u8 % 10);
    }
    token
}

fn register() -> Register {
    Register {
        dev_id: [0x01; 32],
        token: token(),
        dev_type: 1,
        firmware_version: 1,
        needs_config: 1,
    }
}

fn heartbeat() -> Heartbeat {
    Heartbeat {
        dev_id: [0x31; 32],
        dev_time: 0x0102_0304_0506_0708,
        filter_state: 5,
        forced_time_left: 0x1112_1314_1516_1718,
        last_state_change: 0x2122_2324_2526_2728,
        waterlevel: 0x3132_3334_3536_3738,
        measurement_error: 1,
        measurement_error_occured: 0x4142_4344_4546_4748,
        measurement_error_count: 0x5152_5354,
        leak: 1,
        leak_occured: 0x6162_6364_6566_6768,
    }
}

fn config_block() -> Vec<u8> {
    let mut bytes = Vec::new();
    bytes.extend_from_slice(&500u64.to_be_bytes());
    bytes.extend_from_slice(&50u64.to_be_bytes());
    bytes.extend_from_slice(&10000u64.to_be_bytes());
    bytes.extend_from_slice(&20000u64.to_be_bytes());
    bytes.push(1);
    bytes
}

fn config() -> Config {
    Config {
        waterlevel_fill_start: 500,
        waterlevel_fill_end: 50,
        clean_before_fill_duration: 10000,
        clean_after_fill_duration: 20000,
        leak_protection: 1,
    }
}

fn frame(typ: u8, payload: &[u8]) -> Vec<u8> {
    let mut bytes = vec![0xfa, 0xfa, 0xfa, 0xff, typ];
    bytes.extend_from_slice(&((payload.len() + 10) as u32).to_be_bytes());
    bytes.extend_from_slice(payload);
    bytes.push(0);
    bytes
}

fn receive_buffer(frame: &[u8]) -> [u8; 4096] {
    let mut buffer = [0u8; 4096];
    buffer[..frame.len()].copy_from_slice(frame);
    buffer
}

#[test]
fn header_layout() {
    let header = MessageHeader { magic: 0xfafafaff, typ: 3, length: 0x0102_0361 };
    assert_eq!(encode_header(&header), [0xfa, 0xfa, 0xfa, 0xff, 3, 1, 2, 3, 0x61]);
    assert_eq!(MAGIC, 0xfafafaff);
}

#[test]
fn register_payload_layout() {
    let mut reg = register();
    reg.dev_type = 7;
    reg.firmware_version = 0x0a0b;
    reg.needs_config = 9;
    let bytes = encode_register(&reg);
    assert_eq!(&bytes[0..32], &[0x01; 32]);
    assert_eq!(&bytes[32..64], &token());
    assert_eq!(&bytes[64..68], &[7, 0x0a, 0x0b, 9]);
}

#[test]
fn heartbeat_payload_layout() {
    let bytes = encode_heartbeat(&heartbeat());
    let mut expected = vec![0x31u8; 32];
    expected.extend_from_slice(&[1, 2, 3, 4, 5, 6, 7, 8]);
    expected.push(5);
    expected.extend_from_slice(&[0x11, 0x12, 0x13, 0x14, 0x15, 0x16, 0x17, 0x18]);
    expected.extend_from_slice(&[0x21, 0x22, 0x23, 0x24, 0x25, 0x26, 0x27, 0x28]);
    expected.extend_from_slice(&[0x31, 0x32, 0x33, 0x34, 0x35, 0x36, 0x37, 0x38]);
    expected.push(1);
    expected.extend_from_slice(&[0x41, 0x42, 0x43, 0x44, 0x45, 0x46, 0x47, 0x48]);
    expected.extend_from_slice(&[0x51, 0x52, 0x53, 0x54]);
    expected.push(1);
    expected.extend_from_slice(&[0x61, 0x62, 0x63, 0x64, 0x65, 0x66, 0x67, 0x68]);
    assert_eq!(expected.len(), 87);
    assert_eq!(&bytes[..], &expected[..]);
}

#[test]
fn register_frame_has_78_bytes() {
    let (buffer, len) = encode_register_message(&register());
    assert_eq!(len, 78);
    assert_eq!(&buffer[0..9], &[0xfa, 0xfa, 0xfa, 0xff, 1, 0, 0, 0, 78]);
    assert_eq!(&buffer[9..41], &[0x01; 32]);
    assert_eq!(&buffer[41..73], &token());
    assert_eq!(&buffer[73..77], &[1, 0, 1, 1]);
    assert_eq!(buffer[77], 0);
    assert!(buffer[78..].iter().all(|byte| *byte == 0));
}

#[test]
fn register_frame_decodes_to_the_original() {
    let (buffer, len) = encode_register_message(&register());
    let whole = decode_message(&buffer).unwrap();
    assert_eq!(whole.header, MessageHeader { magic: 0xfafafaff, typ: 1, length: 78 });
    assert_eq!(whole.payload, MessagePayload::Register(register()));
    assert_eq!(whole.end, MessageEnd { xor: 0 });
    let exact = decode_message(&buffer[..len]).unwrap();
    assert_eq!(exact, whole);
}

#[test]
fn heartbeat_frame_has_97_bytes() {
    let (buffer, len) = encode_heartbeat_message(&heartbeat());
    assert_eq!(len, 97);
    assert_eq!(&buffer[0..9], &[0xfa, 0xfa, 0xfa, 0xff, 3, 0, 0, 0, 97]);
    assert_eq!(&buffer[9..96], &encode_heartbeat(&heartbeat())[..]);
    assert_eq!(buffer[96], 0);
    assert!(buffer[97..].iter().all(|byte| *byte == 0));
}

#[test]
fn heartbeat_frame_decodes_to_the_original() {
    let (buffer, len) = encode_heartbeat_message(&heartbeat());
    let whole = decode_message(&buffer).unwrap();
    assert_eq!(
        whole,
        Message {
            header: MessageHeader { magic: 0xfafafaff, typ: 3, length: 97 },
            payload: MessagePayload::Heartbeat(heartbeat()),
            end: MessageEnd { xor: 0 },
        }
    );
    assert_eq!(decode_message(&buffer[..len]).unwrap(), whole);
}

#[test]
fn round_trip_of_extreme_values() {
    let reg = Register {
        dev_id: [0xff; 32],
        token: [0x00; 32],
        dev_type: 0xff,
        firmware_version: 0xffff,
        needs_config: 0,
    };
    let (buffer, _) = encode_message(MessagePayload::Register(reg)).unwrap();
    assert_eq!(decode_message(&buffer).unwrap().payload, MessagePayload::Register(reg));
    let beat = Heartbeat {
        dev_id: [0xff; 32],
        dev_time: u64::MAX,
        filter_state: 0xff,
        forced_time_left: u64::MAX,
        last_state_change: 0,
        waterlevel: 1 << 63,
        measurement_error: 0xff,
        measurement_error_occured: u64::MAX - 1,
        measurement_error_count: u32::MAX,
        leak: 0xff,
        leak_occured: 0x8000_0000_0000_0001,
    };
    let (buffer, _) = encode_message(MessagePayload::Heartbeat(beat)).unwrap();
    assert_eq!(decode_message(&buffer).unwrap().payload, MessagePayload::Heartbeat(beat));
}

#[test]
fn encode_message_picks_the_frame_by_payload() {
    assert_eq!(
        encode_message(MessagePayload::Register(register())),
        Ok(encode_register_message(&register()))
    );
    assert_eq!(
        encode_message(MessagePayload::Heartbeat(heartbeat())),
        Ok(encode_heartbeat_message(&heartbeat()))
    );
}

#[test]
fn encode_message_refuses_what_only_the_server_sends() {
    let accepted = Accepted { time: 1, config_following: 0, config: None };
    assert_eq!(
        encode_message(MessagePayload::Accepted(accepted)),
        Err(MessageError::WrongMessageType)
    );
    let response = HeartbeatResponse { command_type: 0, command: CommandType::NoCommand };
    assert_eq!(
        encode_message(MessagePayload::HeartbeatResponse(response)),
        Err(MessageError::WrongMessageType)
    );
}

#[test]
fn header_with_wrong_magic_is_refused() {
    assert_eq!(
        decode_header(&[0xfa, 0xfa, 0xfa, 0xfe, 2, 0, 0, 0, 19]),
        Err(MessageError::MagicMismatch)
    );
    let mut buffer = receive_buffer(&frame(2, &[0; 9]));
    buffer[0] = 0;
    assert_eq!(decode_message(&buffer), Err(MessageError::MagicMismatch));
}

#[test]
fn header_with_unknown_type_is_refused() {
    for typ in [0u8, 5, 6, 0xff] {
        assert_eq!(
            decode_header(&[0xfa, 0xfa, 0xfa, 0xff, typ, 0, 0, 0, 19]),
            Err(MessageError::TypeMismatch)
        );
        assert_eq!(
            decode_message(&receive_buffer(&frame(typ, &[0; 9]))),
            Err(MessageError::TypeMismatch)
        );
    }
}

#[test]
fn wrong_magic_is_reported_before_an_unknown_type() {
    assert_eq!(
        decode_header(&[0, 0, 0, 0, 9, 0, 0, 0, 19]),
        Err(MessageError::MagicMismatch)
    );
}

#[test]
fn header_is_read_with_its_declared_length() {
    assert_eq!(
        decode_header(&[0xfa, 0xfa, 0xfa, 0xff, 4, 0x01, 0x02, 0x03, 0x04, 0x99]),
        Ok(MessageHeader { magic: 0xfafafaff, typ: 4, length: 0x0102_0304 })
    );
}

#[test]
fn declared_length_is_not_held_against_the_buffer() {
    let mut bytes = frame(2, &[0, 0, 0, 0, 0, 0, 0, 7, 0]);
    bytes[5..9].copy_from_slice(&[0xff, 0xff, 0xff, 0xff]);
    let message = decode_message(&receive_buffer(&bytes)).unwrap();
    assert_eq!(message.header.length, u32::MAX);
    assert_eq!(
        message.payload,
        MessagePayload::Accepted(Accepted { time: 7, config_following: 0, config: None })
    );
}

#[test]
fn end_byte_is_taken_from_the_end_of_the_buffer_and_not_judged() {
    let mut buffer = receive_buffer(&frame(4, &[0]));
    buffer[4095] = 0xab;
    let message = decode_message(&buffer).unwrap();
    assert_eq!(message.end, MessageEnd { xor: 0xab });
    assert_eq!(decode_end(&[0x5a, 1]), Ok(MessageEnd { xor: 0x5a }));
    assert_eq!(decode_end(&[]), Err(MessageError::Truncated));
}

#[test]
fn short_buffers_are_refused() {
    assert_eq!(decode_message(&[]), Err(MessageError::Truncated));
    assert_eq!(decode_message(&[0xfa, 0xfa, 0xfa, 0xff, 4, 0, 0, 0, 11]), Err(MessageError::Truncated));
    assert_eq!(decode_message(&[0, 0, 0, 0, 4, 0, 0, 0, 11]), Err(MessageError::Truncated));
    assert_eq!(decode_header(&[0xfa, 0xfa, 0xfa, 0xff, 4, 0, 0, 0]), Err(MessageError::Truncated));
    assert_eq!(decode_message(&frame(2, &[0; 8])), Err(MessageError::Truncated));
    assert_eq!(decode_message(&frame(1, &[0; 67])), Err(MessageError::Truncated));
    assert_eq!(decode_message(&frame(3, &[0; 86])), Err(MessageError::Truncated));
    assert_eq!(decode_message(&frame(4, &[])), Err(MessageError::Truncated));
    assert_eq!(decode_message(&frame(4, &[1, 0, 0, 0, 0, 0, 0, 0, 0])), Err(MessageError::Truncated));
    assert_eq!(decode_register(&[0; 67]), Err(MessageError::Truncated));
    assert_eq!(decode_heartbeat(&[0; 86]), Err(MessageError::Truncated));
    assert_eq!(decode_config(&[0; 32]), Err(MessageError::Truncated));
    assert_eq!(decode_accepted(&[0; 8]), Err(MessageError::Truncated));
    assert_eq!(decode_force_state(&[0; 8]), Err(MessageError::Truncated));
    assert_eq!(decode_resync_time(&[0; 7]), Err(MessageError::Truncated));
    assert_eq!(decode_set_reset_leak(&[]), Err(MessageError::Truncated));
    assert_eq!(decode_new_firmware(&[0; 9]), Err(MessageError::Truncated));
    assert_eq!(decode_heartbeat_response(&[]), Err(MessageError::Truncated));
}

#[test]
fn shortest_frames_are_accepted() {
    assert_eq!(
        decode_message(&frame(4, &[0])).unwrap().payload,
        MessagePayload::HeartbeatResponse(HeartbeatResponse {
            command_type: 0,
            command: CommandType::NoCommand
        })
    );
    assert_eq!(
        decode_message(&frame(2, &[0, 0, 0, 0, 0, 0, 0, 9, 0])).unwrap().payload,
        MessagePayload::Accepted(Accepted { time: 9, config_following: 0, config: None })
    );
}

#[test]
fn config_block_layout() {
    assert_eq!(decode_config(&config_block()), Ok(config()));
    let mut block = config_block();
    block[32] = 0;
    block.push(0xee);
    assert_eq!(decode_config(&block), Ok(Config { leak_protection: 0, ..config() }));
}

#[test]
fn accepted_without_config() {
    let mut payload = 0x0000_018b_cfe5_6800u64.to_be_bytes().to_vec();
    payload.push(0);
    payload.extend_from_slice(&config_block());
    assert_eq!(
        decode_accepted(&payload),
        Ok(Accepted { time: 0x0000_018b_cfe5_6800, config_following: 0, config: None })
    );
    payload[8] = 2;
    assert_eq!(
        decode_accepted(&payload),
        Ok(Accepted { time: 0x0000_018b_cfe5_6800, config_following: 2, config: None })
    );
}

#[test]
fn accepted_with_config() {
    let mut payload = 1_700_000_000_000u64.to_be_bytes().to_vec();
    payload.push(1);
    payload.extend_from_slice(&config_block());
    let expected = Accepted { time: 1_700_000_000_000, config_following: 1, config: Some(config()) };
    assert_eq!(decode_accepted(&payload), Ok(expected));
    let message = decode_message(&receive_buffer(&frame(2, &payload))).unwrap();
    assert_eq!(message.header, MessageHeader { magic: 0xfafafaff, typ: 2, length: 52 });
    assert_eq!(message.payload, MessagePayload::Accepted(expected));
}

#[test]
fn accepted_with_flag_but_short_config_is_refused() {
    let mut payload = 5u64.to_be_bytes().to_vec();
    payload.push(1);
    payload.extend_from_slice(&config_block()[..32]);
    assert_eq!(decode_accepted(&payload), Err(MessageError::Truncated));
}

#[test]
fn command_bodies() {
    assert_eq!(
        decode_force_state(&[2, 0, 0, 0, 0, 0, 0, 0x75, 0x30]),
        Ok(ForceState { state: 2, time: 30000 })
    );
    assert_eq!(
        decode_resync_time(&[0, 0, 1, 0x8b, 0xcf, 0xe5, 0x68, 0]),
        Ok(ResyncTime { time: 0x0000_018b_cfe5_6800 })
    );
    assert_eq!(decode_set_reset_leak(&[1]), Ok(SetResetLeak { leak: 1 }));
    assert_eq!(decode_set_reset_leak(&[0, 1]), Ok(SetResetLeak { leak: 0 }));
    assert_eq!(
        decode_new_firmware(&[0x01, 0x02, 0, 0, 0, 0, 0, 0x10, 0, 0]),
        Ok(NewFirmware { version: 0x0102, size: 0x10_0000 })
    );
}

fn response(command_type: u8, body: &[u8]) -> Result<HeartbeatResponse, MessageError> {
    let mut payload = vec![command_type];
    payload.extend_from_slice(body);
    decode_heartbeat_response(&payload)
}

#[test]
fn heartbeat_response_commands() {
    assert_eq!(
        response(0, &[]),
        Ok(HeartbeatResponse { command_type: 0, command: CommandType::NoCommand })
    );
    assert_eq!(
        response(1, &[1, 0, 0, 0, 0, 0, 0, 0, 60]),
        Ok(HeartbeatResponse {
            command_type: 1,
            command: CommandType::ForceState(ForceState { state: 1, time: 60 })
        })
    );
    assert_eq!(
        response(2, &[0, 0, 0, 0, 0, 0, 1, 0]),
        Ok(HeartbeatResponse {
            command_type: 2,
            command: CommandType::ResyncTime(ResyncTime { time: 256 })
        })
    );
    assert_eq!(
        response(3, &config_block()),
        Ok(HeartbeatResponse { command_type: 3, command: CommandType::UpdateConfig(config()) })
    );
    assert_eq!(
        response(4, &[1]),
        Ok(HeartbeatResponse {
            command_type: 4,
            command: CommandType::SetResetLeak(SetResetLeak { leak: 1 })
        })
    );
    assert_eq!(
        response(5, &[]),
        Ok(HeartbeatResponse { command_type: 5, command: CommandType::ResetMeasurementError })
    );
    assert_eq!(
        response(6, &[0, 2, 0, 0, 0, 0, 0, 0, 4, 0]),
        Ok(HeartbeatResponse {
            command_type: 6,
            command: CommandType::NewFirmware(NewFirmware { version: 2, size: 1024 })
        })
    );
    assert_eq!(
        response(7, &[]),
        Ok(HeartbeatResponse { command_type: 7, command: CommandType::ResetDevice })
    );
}

#[test]
fn unknown_command_decodes_to_no_command() {
    for command_type in [8u8, 9, 100, 0xff] {
        assert_eq!(
            response(command_type, &[1, 2, 3]),
            Ok(HeartbeatResponse { command_type, command: CommandType::NoCommand })
        );
    }
}

#[test]
fn command_with_short_body_is_refused() {
    assert_eq!(response(1, &[0; 8]), Err(MessageError::Truncated));
    assert_eq!(response(2, &[0; 7]), Err(MessageError::Truncated));
    assert_eq!(response(3, &[0; 32]), Err(MessageError::Truncated));
    assert_eq!(response(4, &[]), Err(MessageError::Truncated));
    assert_eq!(response(6, &[0; 9]), Err(MessageError::Truncated));
}

#[test]
fn payload_is_decoded_by_type() {
    assert_eq!(
        decode_payload(&encode_register(&register()), 1),
        Ok(MessagePayload::Register(register()))
    );
    assert_eq!(
        decode_payload(&encode_heartbeat(&heartbeat()), 3),
        Ok(MessagePayload::Heartbeat(heartbeat()))
    );
    assert_eq!(
        decode_payload(&[0, 0, 0, 0, 0, 0, 0, 3, 0], 2),
        Ok(MessagePayload::Accepted(Accepted { time: 3, config_following: 0, config: None }))
    );
    assert_eq!(
        decode_payload(&[7], 4),
        Ok(MessagePayload::HeartbeatResponse(HeartbeatResponse {
            command_type: 7,
            command: CommandType::ResetDevice
        }))
    );
    assert_eq!(decode_payload(&[0; 100], 0), Err(MessageError::TypeMismatch));
    assert_eq!(decode_payload(&[0; 100], 5), Err(MessageError::TypeMismatch));
}

#[test]
fn filter_state_codes() {
    assert_eq!(encode_filter_state(FilterState::Idle), 0);
    assert_eq!(encode_filter_state(FilterState::CleanBeforeFill), 1);
    assert_eq!(encode_filter_state(FilterState::CleanAfterFill), 2);
    assert_eq!(encode_filter_state(FilterState::Fill), 3);
    assert_eq!(encode_filter_state(FilterState::ForcedFill(9)), 4);
    assert_eq!(encode_filter_state(FilterState::ForcedClean(9)), 5);
    assert_eq!(encode_filter_state(FilterState::ForcedIdle(9)), 6);
}

#[test]
fn forced_time_left_saturates() {
    assert_eq!(remaining_forced_time(FilterState::ForcedFill(1000), 200, 500), 700);
    assert_eq!(remaining_forced_time(FilterState::ForcedClean(1000), 200, 1200), 0);
    assert_eq!(remaining_forced_time(FilterState::ForcedIdle(1000), 200, 5000), 0);
    assert_eq!(remaining_forced_time(FilterState::ForcedIdle(1000), 200, 100), 1000);
    assert_eq!(remaining_forced_time(FilterState::Fill, 200, 500), 0);
    assert_eq!(remaining_forced_time(FilterState::Idle, 0, 0), 0);
}

#[test]
fn heartbeat_of_a_fresh_context() {
    let beat = heartbeat_at(&Context::new(), [0x31; 32], 4000);
    assert_eq!(
        beat,
        Heartbeat {
            dev_id: [0x31; 32],
            dev_time: 4000,
            filter_state: 0,
            forced_time_left: 0,
            last_state_change: 0,
            waterlevel: 0,
            measurement_error: 0,
            measurement_error_occured: 0,
            measurement_error_count: 0,
            leak: 0,
            leak_occured: 0,
        }
    );
}

#[test]
fn heartbeat_reports_times_in_server_time() {
    let mut ctx = Context::new();
    ctx.clock_skew = 1_000_000;
    ctx.state.filter_state = FilterState::ForcedClean(60_000);
    ctx.state.last_state_change = 10_000;
    ctx.state.waterlevel = Some(321);
    ctx.state.measurement_error = Some(7_000);
    ctx.state.leak = Some(9_000);
    let beat = heartbeat_at(&ctx, [0x31; 32], 25_000);
    assert_eq!(
        beat,
        Heartbeat {
            dev_id: [0x31; 32],
            dev_time: 1_025_000,
            filter_state: 5,
            forced_time_left: 45_000,
            last_state_change: 1_010_000,
            waterlevel: 321,
            measurement_error: 1,
            measurement_error_occured: 0,
            measurement_error_count: 7_000,
            leak: 1,
            leak_occured: 1_009_000,
        }
    );
}

#[test]
fn heartbeat_with_negative_skew() {
    let mut ctx = Context::new();
    ctx.clock_skew = -500;
    ctx.state.last_state_change = 600;
    ctx.state.leak = Some(500);
    let beat = heartbeat_at(&ctx, [0; 32], 2_000);
    assert_eq!(beat.dev_time, 1_500);
    assert_eq!(beat.last_state_change, 100);
    assert_eq!(beat.leak, 1);
    assert_eq!(beat.leak_occured, 0);
}

#[test]
fn heartbeat_error_fields_follow_the_time_of_the_failure() {
    let mut ctx = Context::new();
    ctx.state.measurement_error = Some(0);
    let beat = heartbeat_at(&ctx, [0; 32], 1);
    assert_eq!((beat.measurement_error, beat.measurement_error_count), (0, 0));
    ctx.state.measurement_error = Some(u32::MAX as u64);
    let beat = heartbeat_at(&ctx, [0; 32], 1);
    assert_eq!((beat.measurement_error, beat.measurement_error_count), (1, u32::MAX));
    ctx.state.measurement_error = Some(u32::MAX as u64 + 1);
    let beat = heartbeat_at(&ctx, [0; 32], 1);
    assert_eq!((beat.measurement_error, beat.measurement_error_count), (1, 0));
    assert_eq!(beat.measurement_error_occured, 0);
}

#[test]
fn heartbeat_on_the_local_clock() {
    let mut ctx = Context::new();
    ctx.clock_skew = 1 << 40;
    ctx.state.filter_state = FilterState::Fill;
    ctx.state.waterlevel = Some(77);
    ctx.state.measurement_error = Some(12);
    let beat = create_heartbeat(&ctx, [0x31; 32]);
    assert_eq!(beat.dev_id, [0x31; 32]);
    assert!(beat.dev_time >= 1 << 40);
    assert!(beat.dev_time < (1 << 40) + 3_600_000);
    assert_eq!(beat.filter_state, 3);
    assert_eq!(beat.forced_time_left, 0);
    assert_eq!(beat.last_state_change, 1 << 40);
    assert_eq!(beat.waterlevel, 77);
    assert_eq!(beat.measurement_error, 1);
    assert_eq!(beat.measurement_error_occured, 0);
    assert_eq!(beat.measurement_error_count, 12);
    assert_eq!(beat.leak, 0);
    assert_eq!(beat.leak_occured, 0);
}
