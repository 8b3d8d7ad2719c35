use pico_soundboard::board::Board;
use pico_soundboard::serial_protocol::{
    button_state_from_byte, handle_frame, NackType, ParseError, SerialCommand, SerialMessage,
};
use pico_soundboard::transitions::{fade_in, transition_function_try_from_bytes};
use pico_soundboard::{ButtonState, Colour};

fn frame(command: u8, data: [u8; 8]) -> Vec<u8> {
    let mut f = vec![command];
    f.extend_from_slice(&data);
    f.push(0x80);
    f
}

fn led_record(packet: &[u8], led: usize) -> [u8; 4] {
    [packet[4 + 4 * led], packet[5 + 4 * led], packet[6 + 4 * led], packet[7 + 4 * led]]
}

// AddState for LED 3, idle, slot 2: fade in to 0x1f in (10, 20, 30) over
// 500 ticks, then slot 5.
fn add_state_payload() -> [u8; 8] {
    [0x20 | 0x03, (2 << 4) | 5, 0x1f, 10, 20, 30, 0x01, 0xf4]
}

#[test]
fn add_state_frame_round_trip() {
    let bytes = frame(0xb0, add_state_payload());
    let message = SerialMessage::try_from(&bytes).unwrap();
    assert_eq!(*message.get_command(), SerialCommand::AddState);
    assert_eq!(*message.get_end_byte(), SerialCommand::EndOfStream);
    let data = message.get_data();
    assert_eq!(data[0] & 0x0f, 3);
    assert_eq!(button_state_from_byte(data[0]), ButtonState::Idle);
    assert_eq!(data[1] >> 4, 2);
    let decoded = transition_function_try_from_bytes(data).unwrap();
    let sent = fade_in(0x1f, Colour::rgb(10, 20, 30), 500, 5);
    assert_eq!(decoded, sent);
    for tick in 0..=500usize {
        assert_eq!(decoded.at(tick), sent.at(tick));
    }
}

#[test]
fn add_state_frame_applied_to_board() {
    let mut board = Board::new();
    let reply = handle_frame(&mut board, &frame(0xb0, add_state_payload()));
    assert!(!reply.reset);
    assert_eq!(
        reply.message.to_bytes(),
        [0xff, 0xb0, 0x23, 0x25, 0x1f, 10, 20, 30, 0x01, 0x80]
    );
    // slots 0 and 1 forward, slot 2 fades in
    board.refresh_leds();
    board.refresh_leds();
    assert_eq!(led_record(&board.refresh_leds(), 3), [0xe0, 30, 20, 10]);
    assert_eq!(led_record(&board.refresh_leds(), 3), [0xe0, 30, 20, 10]);
    board.refresh_leds();
    board.refresh_leds();
    assert_eq!(led_record(&board.refresh_leds(), 3), [0xe0, 30, 20, 10]);
    for _ in 0..12 {
        board.refresh_leds();
    }
    // tick 17 of 500: 17 * 31 / 500 = 1
    assert_eq!(led_record(&board.refresh_leds(), 3), [0xe1, 30, 20, 10]);
}

#[test]
fn short_frame_rejected_as_invalid_length() {
    let bytes = [0xfe, 0, 0, 0, 0, 0, 0, 0, 0x80];
    assert_eq!(SerialMessage::try_from(&bytes).err(), Some(ParseError::InvalidMessageLength));
    let mut board = Board::new();
    let reply = handle_frame(&mut board, &bytes);
    assert!(!reply.reset);
    assert_eq!(reply.message.to_bytes(), [0xf2, 3, 0xfe, 0, 0, 0, 0, 0, 0, 0x80]);
    let reply = handle_frame(&mut board, &[]);
    assert_eq!(reply.message.to_bytes(), [0xf2, 3, 0, 0, 0, 0, 0, 0, 0, 0x80]);
}

#[test]
fn wrong_terminator_rejected_as_invalid_end_byte() {
    let mut bytes = frame(0xa2, [0; 8]);
    bytes[9] = 0x81;
    assert_eq!(SerialMessage::try_from(&bytes).err(), Some(ParseError::InvalidEndByte));
    let mut board = Board::new();
    let reply = handle_frame(&mut board, &bytes);
    assert_eq!(reply.message.to_bytes(), [0xf2, 2, 0xa2, 0, 0, 0, 0, 0, 0, 0x80]);
    assert!(!board.is_keyboard_input_enabled());
    // the terminator is checked before the command
    let mut bytes = frame(0x42, [0; 8]);
    bytes[9] = 0x00;
    assert_eq!(SerialMessage::try_from(&bytes).err(), Some(ParseError::InvalidEndByte));
}

#[test]
fn unknown_command_rejected() {
    let bytes = frame(0x42, [1; 8]);
    assert_eq!(SerialMessage::try_from(&bytes).err(), Some(ParseError::InvalidCommand));
    let mut board = Board::new();
    let reply = handle_frame(&mut board, &bytes);
    assert_eq!(reply.message.to_bytes(), [0xf2, 0, 0x42, 0, 0, 0, 0, 0, 0, 0x80]);
}

#[test]
fn non_request_commands_nacked_as_invalid() {
    let mut board = Board::new();
    for command in [0x80u8, 0x81, 0x90, 0xf0, 0xf4, 0xf9, 0xff] {
        let reply = handle_frame(&mut board, &frame(command, [9, 8, 7, 6, 5, 4, 3, 2]));
        assert!(!reply.reset);
        assert_eq!(reply.message.to_bytes(), [0xf1, command, 9, 8, 7, 6, 5, 4, 3, 0x80]);
    }
}

#[test]
fn malformed_transition_nacked() {
    let mut board = Board::new();
    let reply = handle_frame(&mut board, &frame(0xb0, [0x33, 0, 0x1f, 1, 1, 1, 0, 0]));
    assert_eq!(reply.message.to_bytes(), [0xf2, 1, 0xb0, 0, 0, 0, 0, 0, 0, 0x80]);
    board.refresh_leds();
    assert_eq!(led_record(&board.refresh_leds(), 3), [0xe0, 0, 0, 0]);
}

#[test]
fn keyboard_and_ping_and_reset() {
    let mut board = Board::new();
    let reply = handle_frame(&mut board, &frame(0xa2, [0; 8]));
    assert_eq!(reply.message.to_bytes(), [0xff, 0xa2, 0, 0, 0, 0, 0, 0, 0, 0x80]);
    assert!(board.is_keyboard_input_enabled());
    handle_frame(&mut board, &frame(0xa1, [0; 8]));
    assert!(!board.is_keyboard_input_enabled());
    let reply = handle_frame(&mut board, &frame(0xfe, [1, 2, 3, 4, 5, 6, 7, 8]));
    assert!(!reply.reset);
    assert_eq!(reply.message.to_bytes(), [0xff, 0xfe, 1, 2, 3, 4, 5, 6, 7, 0x80]);
    let reply = handle_frame(&mut board, &frame(0xa0, [0; 8]));
    assert!(reply.reset);
    assert_eq!(reply.message.to_bytes(), [0xff, 0xa0, 0, 0, 0, 0, 0, 0, 0, 0x80]);
}

#[test]
fn lock_commands_over_the_wire() {
    let mut board = Board::new();
    // LED 8 (button 0): idle shows 1, pressed shows 2
    handle_frame(&mut board, &frame(0xb0, [0x08, 0x00, 1, 1, 1, 1, 0, 0]));
    handle_frame(&mut board, &frame(0xb0, [0x88, 0x00, 2, 2, 2, 2, 0, 0]));
    let reply = handle_frame(&mut board, &frame(0xb3, [0x08, 0, 0, 0, 0, 0, 0, 0]));
    assert_eq!(reply.message.to_bytes()[0], 0xff);
    board.update_status([0xfe, 0xff]);
    assert_eq!(led_record(&board.refresh_leds(), 8), [0xe1, 1, 1, 1]);
    handle_frame(&mut board, &frame(0xb5, [0x08, 0, 0, 0, 0, 0, 0, 0]));
    board.update_status([0xff, 0xff]);
    board.update_status([0xfe, 0xff]);
    assert_eq!(led_record(&board.refresh_leds(), 8), [0xe2, 2, 2, 2]);
    handle_frame(&mut board, &frame(0xb4, [0x00, 0, 0, 0, 0, 0, 0, 0]));
    assert_eq!(led_record(&board.refresh_leds(), 8), [0xe1, 1, 1, 1]);
    handle_frame(&mut board, &frame(0xb6, [0; 8]));
    assert_eq!(led_record(&board.refresh_leds(), 8), [0xe2, 2, 2, 2]);
}

#[test]
fn remove_and_clear_commands() {
    let mut board = Board::new();
    handle_frame(&mut board, &frame(0xb0, [0x04, 0x00, 5, 5, 5, 5, 0, 0]));
    handle_frame(&mut board, &frame(0xb1, [0x04, 0x00, 0, 0, 0, 0, 0, 0]));
    assert_eq!(led_record(&board.refresh_leds(), 4), [0xe0, 0, 0, 0]);
    handle_frame(&mut board, &frame(0xb0, [0x05, 0x00, 6, 6, 6, 6, 0, 0]));
    let reply = handle_frame(&mut board, &frame(0xb2, [0x05, 0, 0, 0, 0, 0, 0, 0]));
    assert_eq!(reply.message.to_bytes(), [0xff, 0xb2, 0x05, 0, 0, 0, 0, 0, 0, 0x80]);
    board.refresh_leds();
    assert_eq!(led_record(&board.refresh_leds(), 5), [0xe0, 0, 0, 0]);
}

#[test]
fn message_builders() {
    let m = SerialMessage::new(SerialCommand::Ping, [1, 2, 3, 4, 5, 6, 7, 8], SerialCommand::EndOfStream);
    assert_eq!(m.to_bytes(), [0xfe, 1, 2, 3, 4, 5, 6, 7, 8, 0x80]);
    assert_eq!(SerialMessage::ack_to(&m).to_bytes(), [0xff, 0xfe, 1, 2, 3, 4, 5, 6, 7, 0x80]);
    assert_eq!(
        SerialMessage::nack_to_message(&m, NackType::DeviceBusy).to_bytes(),
        [0xf4, 0xfe, 1, 2, 3, 4, 5, 6, 7, 0x80]
    );
    assert_eq!(
        SerialMessage::nack_to_message(&m, NackType::General).to_bytes()[0],
        0xf0
    );
    assert_eq!(
        SerialMessage::nack_from_error(ParseError::InvalidData, 0xb0).to_bytes(),
        [0xf2, 1, 0xb0, 0, 0, 0, 0, 0, 0, 0x80]
    );
    assert_eq!(ParseError::InvalidMessageLength.code(), 3);
    assert_eq!(SerialCommand::try_from(0xb6), Ok(SerialCommand::UnlockAllButtonStates));
    assert_eq!(SerialCommand::try_from(0x99), Err(0x99));
    assert_eq!(SerialCommand::LockButtonState.to_u8(), 0xb3);
    assert_eq!(button_state_from_byte(0x80), ButtonState::Pressed);
}

#[test]
fn add_state_encoder_builds_the_frame() {
    let t = fade_in(0x1f, Colour::rgb(10, 20, 30), 500, 5);
    let m = SerialMessage::add_state(3, ButtonState::Idle, 2, &t).unwrap();
    let bytes = m.to_bytes();
    assert_eq!(bytes.to_vec(), frame(0xb0, add_state_payload()));
    let back = SerialMessage::try_from(&bytes).unwrap();
    let decoded = transition_function_try_from_bytes(back.get_data()).unwrap();
    for tick in 0..=500usize {
        assert_eq!(decoded.at(tick), t.at(tick));
    }
    let pressed = SerialMessage::add_state(15, ButtonState::Pressed, 15, &t).unwrap();
    assert_eq!(pressed.get_data()[0], 0x80 | 0x20 | 0x0f);
    assert_eq!(pressed.get_data()[1], 0xf5);
}

#[test]
fn add_state_encoder_refuses_what_no_frame_carries() {
    let c = Colour::rgb(1, 2, 3);
    let t = fade_in(0x1f, c, 500, 5);
    assert!(SerialMessage::add_state(16, ButtonState::Idle, 0, &t).is_none());
    assert!(SerialMessage::add_state(0, ButtonState::Idle, 16, &t).is_none());
    assert!(SerialMessage::add_state(0, ButtonState::Held, 0, &t).is_none());
    assert!(SerialMessage::add_state(0, ButtonState::Released, 0, &t).is_none());
    assert!(SerialMessage::add_state(0, ButtonState::Idle, 0, &fade_in(1, c, 65536, 0)).is_none());
    assert!(SerialMessage::add_state(0, ButtonState::Idle, 0, &fade_in(1, c, 10, 16)).is_none());
    assert!(SerialMessage::add_state(
        0,
        ButtonState::Idle,
        0,
        &pico_soundboard::transitions::Transition::Forward { next: 1 }
    )
    .is_none());
    assert!(SerialMessage::add_state(0, ButtonState::Idle, 0, &fade_in(1, c, 65535, 15)).is_some());
}
