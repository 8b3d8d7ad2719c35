use pico_soundboard::rgbleds::{LedState, LedStateQueue, RGBLed, RGBLeds};
use pico_soundboard::transitions::{
    fade_in, fade_out, solid, transition_function_try_from_bytes, Transition, TransitionResult,
};
use pico_soundboard::{ButtonState, Colour};

fn frame(brightness: u8, c: Colour) -> LedState {
    LedState::new(brightness, &c)
}

#[test]
fn solid_without_duration_never_finishes() {
    let c = Colour::rgb(1, 2, 3);
    let t = solid(0x11, c, 0, 4);
    for tick in 0..200_000usize {
        assert!(matches!(t.at(tick), TransitionResult::InProgress(_)));
    }
    assert_eq!(t.at(usize::MAX), TransitionResult::InProgress(frame(0x11, c)));
}

#[test]
fn solid_with_duration_finishes() {
    let c = Colour::rgb(1, 2, 3);
    let t = solid(0x11, c, 3, 7);
    assert_eq!(t.at(0), TransitionResult::InProgress(frame(0x11, c)));
    assert_eq!(t.at(2), TransitionResult::InProgress(frame(0x11, c)));
    assert_eq!(t.at(3), TransitionResult::Finished(7));
}

#[test]
fn fade_out_formula() {
    let c = Colour::rgb(9, 8, 7);
    let t = fade_out(31, c, 10, 6);
    assert_eq!(t.at(0), TransitionResult::InProgress(frame(31, c)));
    // 31 - floor(9 * 31 / 10) = 31 - 27
    assert_eq!(t.at(9), TransitionResult::InProgress(frame(4, c)));
    assert_eq!(t.at(5), TransitionResult::InProgress(frame(31 - 15, c)));
    assert_eq!(t.at(10), TransitionResult::Finished(6));
    assert_eq!(t.at(11), TransitionResult::Finished(6));
    match t.at(9) {
        TransitionResult::InProgress(f) => assert_eq!(f.brightness, 0xe0 | 4),
        _ => panic!("fade out finished early"),
    }
}

#[test]
fn fade_in_formula() {
    let c = Colour::rgb(9, 8, 7);
    let t = fade_in(31, c, 10, 6);
    assert_eq!(t.at(0), TransitionResult::InProgress(frame(0, c)));
    assert_eq!(t.at(9), TransitionResult::InProgress(frame(27, c)));
    assert_eq!(t.at(10), TransitionResult::Finished(6));
    assert_eq!(t.at(1000), TransitionResult::Finished(6));
}

#[test]
fn fades_use_five_brightness_bits() {
    let c = Colour::rgb(0, 0, 0);
    let t = fade_out(0b1111_0000, c, 4, 0);
    assert_eq!(t.at(0), TransitionResult::InProgress(frame(0x10, c)));
    assert_eq!(t.at(1), TransitionResult::InProgress(frame(0x0c, c)));
}

#[test]
fn fade_survives_huge_tick_counts() {
    let c = Colour::rgb(0, 0, 0);
    let t = fade_in(31, c, usize::MAX, 0);
    assert_eq!(t.at(usize::MAX - 1), TransitionResult::InProgress(frame(30, c)));
}

#[test]
fn led_state_sets_header_bits() {
    let f = LedState::new(0x05, &Colour::rgb(1, 2, 3));
    assert_eq!(f, LedState { brightness: 0xe5, b: 3, g: 2, r: 1 });
}

#[test]
fn colour_helpers() {
    let w = Colour::white();
    assert_eq!(w, Colour::rgb(0xff, 0xff, 0xff));
    assert_eq!(Colour::rgb(0x0f, 0xf0, 0x00).invert(), Colour::rgb(0xf0, 0x0f, 0xff));
}

#[test]
fn decode_each_kind() {
    let solid_bytes = [0x00, 0x03, 0x1f, 1, 2, 3, 0x01, 0x02];
    assert_eq!(
        transition_function_try_from_bytes(&solid_bytes),
        Ok(Transition::Solid { brightness: 0x1f, colour: Colour::rgb(1, 2, 3), duration_ticks: 0x0102, next: 3 })
    );
    let out_bytes = [0x1a, 0xf4, 0x10, 4, 5, 6, 0x00, 0x0a];
    assert_eq!(
        transition_function_try_from_bytes(&out_bytes),
        Ok(fade_out(0x10, Colour::rgb(4, 5, 6), 10, 4))
    );
    let in_bytes = [0xa0, 0x05, 0x08, 7, 8, 9, 0xff, 0xff];
    assert_eq!(
        transition_function_try_from_bytes(&in_bytes),
        Ok(fade_in(0x08, Colour::rgb(7, 8, 9), 65535, 5))
    );
}

#[test]
fn decode_rejects_unknown_kinds() {
    for kind in 3u8..8 {
        let bytes = [kind << 4, 0, 0, 0, 0, 0, 0, 0];
        assert_eq!(
            transition_function_try_from_bytes(&bytes),
            Err(pico_soundboard::serial_protocol::ParseError::InvalidData)
        );
    }
}

#[test]
fn untouched_queue_cycles_through_all_slots() {
    let mut q = LedStateQueue::new();
    for round in 0..2 {
        for slot in 0..16usize {
            assert_eq!(q.current(), Transition::Forward { next: (slot + 1) % 16 }, "round {round}");
            assert_eq!(q.tick(), None);
        }
    }
    assert_eq!(q.current(), Transition::Forward { next: 1 });
}

#[test]
fn inserted_slot_waits_for_cursor() {
    let c = Colour::rgb(10, 20, 30);
    let mut q = LedStateQueue::new();
    q.insert(4, solid(9, c, 2, 0));
    for _ in 0..4 {
        assert_eq!(q.tick(), None);
    }
    assert_eq!(q.tick(), Some(frame(9, c)));
    assert_eq!(q.tick(), Some(frame(9, c)));
    assert_eq!(q.tick(), None);
    assert_eq!(q.current(), Transition::Forward { next: 1 });
}

#[test]
fn queue_indices_wrap_and_remove_restores_forwarder() {
    let c = Colour::rgb(1, 1, 1);
    let mut q = LedStateQueue::new();
    q.insert(16, solid(1, c, 0, 0));
    assert_eq!(q.current(), solid(1, c, 0, 0));
    q.remove(32);
    assert_eq!(q.current(), Transition::Forward { next: 1 });
    q.advance(18);
    assert_eq!(q.current(), Transition::Forward { next: 3 });
    q.restart();
    assert_eq!(q.current(), Transition::Forward { next: 1 });
    q.insert(0, solid(1, c, 0, 0));
    q.clear();
    assert_eq!(q.current(), Transition::Forward { next: 1 });
}

#[test]
fn finished_transition_moves_on_next_tick() {
    let c = Colour::rgb(3, 3, 3);
    let mut q = LedStateQueue::new();
    q.insert(0, solid(1, c, 1, 5));
    q.insert(5, solid(2, c, 0, 0));
    assert_eq!(q.tick(), Some(frame(1, c)));
    assert_eq!(q.tick(), None);
    assert_eq!(q.tick(), Some(frame(2, c)));
}

#[test]
fn lock_overrides_button_state() {
    let red = Colour::rgb(0xff, 0, 0);
    let blue = Colour::rgb(0, 0, 0xff);
    let mut led = RGBLed::new();
    led.add_state(0, solid(31, red, 0, 0), ButtonState::Idle);
    led.add_state(0, solid(31, blue, 0, 0), ButtonState::Pressed);
    led.lock_state(ButtonState::Idle);
    led.set_button_state(ButtonState::Pressed);
    assert_eq!(led.run(), frame(31, red));
    assert_eq!(led.run(), frame(31, red));
    led.unlock_state();
    assert_eq!(led.run(), frame(31, red));
    led.set_button_state(ButtonState::Pressed);
    assert_eq!(led.run(), frame(31, blue));
}

#[test]
fn led_keeps_last_frame_while_forwarding() {
    let c = Colour::rgb(5, 6, 7);
    let mut led = RGBLed::new();
    assert_eq!(led.run(), LedState { brightness: 0, b: 0, g: 0, r: 0 });
    led.add_state(1, solid(2, c, 1, 3), ButtonState::Idle);
    assert_eq!(led.run(), frame(2, c));
    assert_eq!(led.run(), frame(2, c));
    assert_eq!(led.run(), frame(2, c));
}

#[test]
fn clearing_a_state_empties_its_queue() {
    let c = Colour::rgb(5, 6, 7);
    let mut led = RGBLed::new();
    led.add_state(0, solid(2, c, 0, 0), ButtonState::Idle);
    led.add_state(0, solid(3, c, 0, 0), ButtonState::Held);
    led.clear(&[ButtonState::Idle]);
    assert_eq!(led.run(), LedState { brightness: 0, b: 0, g: 0, r: 0 });
    led.set_button_state(ButtonState::Held);
    assert_eq!(led.run(), frame(3, c));
    led.remove_state(16, ButtonState::Held);
    led.set_button_state(ButtonState::Idle);
    led.set_button_state(ButtonState::Held);
    assert_eq!(led.run(), frame(3, c));
}

#[test]
fn strip_packet_layout() {
    let mut strip = RGBLeds::new();
    strip.add_state(17, 0, solid(0x1f, Colour::rgb(1, 2, 3), 0, 0), ButtonState::Idle);
    let packet = strip.refresh();
    assert_eq!(packet.len(), 72);
    assert_eq!(&packet[0..4], &[0, 0, 0, 0]);
    assert_eq!(&packet[4..8], &[0xe0, 0, 0, 0]);
    assert_eq!(&packet[8..12], &[0xff, 3, 2, 1]);
    assert_eq!(&packet[68..72], &[0, 0, 0, 0]);
}

#[test]
fn strip_full_and_clear_all() {
    let mut strip = RGBLeds::new();
    strip.full(0x1f, Colour::white());
    let packet = strip.refresh();
    for k in 0..16 {
        assert_eq!(&packet[4 + 4 * k..8 + 4 * k], &[0xff, 0xff, 0xff, 0xff]);
    }
    strip.clear_all();
    let packet = strip.refresh();
    assert_eq!(&packet[4..8], &[0xff, 0xff, 0xff, 0xff]);
    strip.lock_led_state(3, ButtonState::Pressed);
    strip.unlock_led_state(3);
    strip.set_button_state(3, ButtonState::Pressed);
    strip.remove_state(3, 0, ButtonState::Pressed);
    strip.clear(3, &[ButtonState::Pressed]);
    assert_eq!(strip.refresh().len(), 72);
}
