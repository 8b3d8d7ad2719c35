use pico_soundboard::animations::{breathing, loading_circle, random_fade, random_fades};
use pico_soundboard::board::{
    map_idx_from_button_to_led, map_led_idx_to_key_code, pressed_mask, Board, BoardAction,
    ButtonCallback, ButtonCallbackResult,
};
use pico_soundboard::transitions::solid;
use pico_soundboard::{Button, ButtonCode, ButtonState, Colour};
use rand::rngs::SmallRng;
use rand::SeedableRng;

const NONE_DOWN: [u8; 2] = [0xff, 0xff];
const BUTTON_0_DOWN: [u8; 2] = [0xfe, 0xff];

fn led_record(packet: &[u8], led: usize) -> [u8; 4] {
    [packet[4 + 4 * led], packet[5 + 4 * led], packet[6 + 4 * led], packet[7 + 4 * led]]
}

#[test]
fn button_to_led_mapping() {
    assert_eq!(map_idx_from_button_to_led(0), 8);
    assert_eq!(map_idx_from_button_to_led(8), 0);
    assert_eq!(map_idx_from_button_to_led(15), 7);
    assert_eq!(map_idx_from_button_to_led(usize::MAX), 7);
    assert_eq!(map_led_idx_to_key_code(8), 12);
}

#[test]
fn button_codes() {
    assert_eq!(ButtonCode::try_from(0x1), Ok(ButtonCode::_8));
    assert_eq!(ButtonCode::try_from(0x100), Ok(ButtonCode::_0));
    assert_eq!(ButtonCode::try_from(0x8000), Ok(ButtonCode::_7));
    assert_eq!(ButtonCode::try_from(0x3), Err(()));
    assert_eq!(ButtonCode::try_from(0x10000), Err(()));
    assert_eq!(ButtonCode::_A.to_index(), 10);
    let b = Button::new(ButtonCode::_3);
    assert_eq!(b.rgb_led_index, 3);
    assert!(!b.pressed());
}

#[test]
fn pressed_mask_inverts_active_low_reading() {
    assert_eq!(pressed_mask([0xff, 0xff]), 0);
    assert_eq!(pressed_mask([0xfe, 0x7f]), 0x8001);
}

#[test]
fn keys_reported_only_when_enabled() {
    let mut board = Board::new();
    assert!(board.update_status(BUTTON_0_DOWN).is_empty());
    board.enable_keyboard_input();
    assert_eq!(board.update_status(BUTTON_0_DOWN), vec![12]);
    assert_eq!(board.update_status(NONE_DOWN), Vec::<u8>::new());
    board.disable_keyboard_input();
    assert!(!board.is_keyboard_input_enabled());
}

#[test]
fn key_report_capped_at_six() {
    let mut board = Board::new();
    board.enable_keyboard_input();
    // buttons 0..=7 down
    let keys = board.update_status([0x00, 0xff]);
    assert_eq!(keys, vec![12, 13, 14, 15, 16, 17]);
    // buttons 8..=15 down
    let keys = board.update_status([0xff, 0x00]);
    assert_eq!(keys, vec![4, 5, 6, 7, 8, 9]);
}

#[test]
fn press_hold_release_fires_each_callback_once() {
    let mut board = Board::new();
    board.enable_keyboard_input();
    let disable = ButtonCallback { action: BoardAction::DisableKeyboardInput, after: ButtonCallbackResult::Keep };
    // button 0 is addressed by the LED over it, 8
    board.add_callback_pressed(8, Some(disable));
    board.add_callback_released(8, Some(disable));
    for _cycle in 0..2 {
        board.update_status(BUTTON_0_DOWN);
        assert!(!board.is_keyboard_input_enabled());
        board.enable_keyboard_input();
        for _ in 0..3 {
            board.update_status(BUTTON_0_DOWN);
            assert!(board.is_keyboard_input_enabled());
        }
        board.update_status(NONE_DOWN);
        assert!(!board.is_keyboard_input_enabled());
        board.enable_keyboard_input();
        board.update_status(NONE_DOWN);
        assert!(board.is_keyboard_input_enabled());
    }
}

#[test]
fn callback_removed_after_firing() {
    let mut board = Board::new();
    board.enable_keyboard_input();
    let once = ButtonCallback { action: BoardAction::DisableKeyboardInput, after: ButtonCallbackResult::Remove };
    board.add_callback_pressed(8, Some(once));
    board.update_status(BUTTON_0_DOWN);
    assert!(!board.is_keyboard_input_enabled());
    board.enable_keyboard_input();
    board.update_status(NONE_DOWN);
    board.update_status(BUTTON_0_DOWN);
    assert!(board.is_keyboard_input_enabled());
}

#[test]
fn callback_disarmed_by_remove() {
    let mut board = Board::new();
    let lock = ButtonCallback {
        action: BoardAction::DisableKeyboardInput,
        after: ButtonCallbackResult::Keep,
    };
    board.enable_keyboard_input();
    board.add_callback_pressed(8, Some(lock));
    board.remove_callback_pressed(8);
    board.add_callback_released(8, Some(lock));
    board.remove_callback_released(8);
    board.update_status(BUTTON_0_DOWN);
    board.update_status(NONE_DOWN);
    assert!(board.is_keyboard_input_enabled());
}

#[test]
fn button_edges_drive_led_queues() {
    let mut board = Board::new();
    let idle = Colour::rgb(1, 1, 1);
    let pressed = Colour::rgb(2, 2, 2);
    let held = Colour::rgb(3, 3, 3);
    let released = Colour::rgb(4, 4, 4);
    board.add_led_state(8, 0, solid(1, idle, 0, 0), ButtonState::Idle);
    board.add_led_state(8, 0, solid(2, pressed, 0, 0), ButtonState::Pressed);
    board.add_led_state(8, 0, solid(3, held, 0, 0), ButtonState::Held);
    board.add_led_state(8, 0, solid(4, released, 0, 0), ButtonState::Released);
    assert_eq!(led_record(&board.refresh_leds(), 8), [0xe1, 1, 1, 1]);
    board.update_status(BUTTON_0_DOWN);
    assert_eq!(led_record(&board.refresh_leds(), 8), [0xe2, 2, 2, 2]);
    board.update_status(BUTTON_0_DOWN);
    assert_eq!(led_record(&board.refresh_leds(), 8), [0xe3, 3, 3, 3]);
    board.update_status(NONE_DOWN);
    assert_eq!(led_record(&board.refresh_leds(), 8), [0xe4, 4, 4, 4]);
    board.update_status(NONE_DOWN);
    assert_eq!(led_record(&board.refresh_leds(), 8), [0xe1, 1, 1, 1]);
}

#[test]
fn locked_leds_ignore_buttons() {
    let mut board = Board::new();
    board.add_led_state(8, 0, solid(1, Colour::rgb(1, 1, 1), 0, 0), ButtonState::Idle);
    board.add_led_state(8, 0, solid(2, Colour::rgb(2, 2, 2), 0, 0), ButtonState::Pressed);
    board.lock_led_states(ButtonState::Idle);
    board.update_status(BUTTON_0_DOWN);
    assert_eq!(led_record(&board.refresh_leds(), 8), [0xe1, 1, 1, 1]);
    board.unlock_led_states();
    board.update_status(NONE_DOWN);
    board.update_status(BUTTON_0_DOWN);
    assert_eq!(led_record(&board.refresh_leds(), 8), [0xe2, 2, 2, 2]);
    board.lock_led_state(8, ButtonState::Idle);
    assert_eq!(led_record(&board.refresh_leds(), 8), [0xe1, 1, 1, 1]);
    board.unlock_led_state(8);
    assert_eq!(led_record(&board.refresh_leds(), 8), [0xe2, 2, 2, 2]);
}

#[test]
fn clearing_led_queues_through_board() {
    let mut board = Board::new();
    board.add_led_state(2, 0, solid(1, Colour::rgb(1, 1, 1), 0, 0), ButtonState::Idle);
    board.clear_led_queues(2);
    board.add_led_state(3, 0, solid(5, Colour::rgb(5, 5, 5), 0, 0), ButtonState::Idle);
    board.clear_led_queue(3, &[ButtonState::Idle]);
    board.add_led_state(4, 1, solid(6, Colour::rgb(6, 6, 6), 0, 0), ButtonState::Idle);
    board.remove_led_state(4, 1, ButtonState::Idle);
    board.refresh_leds();
    let packet = board.refresh_leds();
    assert_eq!(led_record(&packet, 2), [0xe0, 0, 0, 0]);
    assert_eq!(led_record(&packet, 3), [0xe0, 0, 0, 0]);
    assert_eq!(led_record(&packet, 4), [0xe0, 0, 0, 0]);
}

#[test]
fn fill_and_clear_all_leds() {
    let mut board = Board::new();
    board.fill_leds(0xff, Colour::white());
    let packet = board.refresh_leds();
    for k in 0..16 {
        assert_eq!(led_record(&packet, k), [0xff, 0xff, 0xff, 0xff]);
    }
    board.fill_leds(0xff, Colour::rgb(0, 0, 0));
    board.refresh_leds();
    board.clear_all_leds();
    let packet = board.refresh_leds();
    assert_eq!(led_record(&packet, 0), [0xff, 0, 0, 0]);
}

#[test]
fn apply_action_adds_state() {
    let mut board = Board::new();
    board.apply_action(BoardAction::AddLedState {
        led: 21,
        slot: 0,
        transition: solid(7, Colour::rgb(7, 8, 9), 0, 0),
        state: ButtonState::Idle,
    });
    assert_eq!(led_record(&board.refresh_leds(), 5), [0xe7, 9, 8, 7]);
}

#[test]
fn breathing_loop_runs() {
    let mut board = Board::new();
    let c = Colour::rgb(10, 20, 30);
    breathing(&mut board, 6, ButtonState::Idle, c, 4);
    // fade out from 0x10 over 4 ticks
    assert_eq!(led_record(&board.refresh_leds(), 6), [0xf0, 30, 20, 10]);
    assert_eq!(led_record(&board.refresh_leds(), 6), [0xec, 30, 20, 10]);
}

#[test]
fn loading_circle_staggers_ring() {
    let mut board = Board::new();
    let c = Colour::rgb(1, 2, 3);
    loading_circle(&mut board, c, 2);
    // every ring LED starts dark, the centre ones show nothing yet
    let packet = board.refresh_leds();
    assert_eq!(led_record(&packet, 0), [0xe0, 3, 2, 1]);
    assert_eq!(led_record(&packet, 5), [0xe0, 0, 0, 0]);
    // LED 0 waits 2 ticks, then fades in
    board.refresh_leds();
    board.refresh_leds();
    let packet = board.refresh_leds();
    assert_eq!(led_record(&packet, 0), [0xe0, 3, 2, 1]);
    let packet = board.refresh_leds();
    assert_eq!(led_record(&packet, 0), [0xe8, 3, 2, 1]);
}

#[test]
fn random_fade_sets_both_queues() {
    let mut board = Board::new();
    let c = Colour::rgb(0x10, 0x20, 0x30);
    random_fade(&mut board, 1, c, 3);
    assert_eq!(led_record(&board.refresh_leds(), 1), [0xf0, 0x30, 0x20, 0x10]);
    board.update_status([0xff, 0xfd]);
    // LED 1 sits under button 9: pressed shows the inverted colour
    assert_eq!(led_record(&board.refresh_leds(), 1), [0xff, 0xcf, 0xdf, 0xef]);
}

#[test]
fn random_fades_start_every_led() {
    let mut board = Board::new();
    let mut rng = SmallRng::seed_from_u64(7);
    random_fades(&mut board, &mut rng);
    let packet = board.refresh_leds();
    for k in 0..16 {
        assert_eq!(packet[4 + 4 * k], 0xf0);
    }
}

#[test]
fn random_colours_vary() {
    let mut rng = SmallRng::seed_from_u64(1);
    let colours: Vec<Colour> = (0..8).map(|_| Colour::random(&mut rng)).collect();
    assert!(colours.iter().any(|c| *c != colours[0]));
}
