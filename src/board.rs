//! The keypad: buttons with edge detection, per-button callbacks, the LED
//! strip and the keyboard report.
use vstd::prelude::*;

use crate::rgbleds::{RGBLed, RGBLeds};
use crate::transitions::Transition;
use crate::{Button, ButtonCode, ButtonState, Colour};

verus! {

/// Whether a callback stays armed after it fired.
#[derive(Clone, Copy, Debug, PartialEq, Eq, Structural)]
pub enum ButtonCallbackResult {
    Remove,
    Keep,
}

/// What a callback does to the board when it fires.
#[derive(Clone, Copy, Debug, PartialEq, Eq, Structural)]
pub enum BoardAction {
    EnableKeyboardInput,
    DisableKeyboardInput,
    LockLedStates(ButtonState),
    UnlockLedStates,
    LockLedState(usize, ButtonState),
    UnlockLedState(usize),
    ClearLedQueues(usize),
    ClearLedQueue(usize, ButtonState),
    AddLedState { led: usize, slot: usize, transition: Transition, state: ButtonState },
    RemoveLedState { led: usize, slot: usize, state: ButtonState },
}

/// An action run on an edge of a button, and whether it stays armed.
#[derive(Clone, Copy, Debug, PartialEq, Eq, Structural)]
pub struct ButtonCallback {
    pub action: BoardAction,
    pub after: ButtonCallbackResult,
}

/// The most keys that one keyboard report carries.
pub const KEYBOARD_REPORT_KEYS: usize = 6;

/// What a vector of callback slots holds, in order.
pub uninterp spec fn callbacks_of(v: heapless::Vec<Option<ButtonCallback>, 16>) -> Seq<Option<ButtonCallback>>;

/// Relies on heapless::Vec::new: the vector starts empty.
#[verifier::external_body]
fn callbacks_new() -> (r: heapless::Vec<Option<ButtonCallback>, 16>)
    ensures
        callbacks_of(r) == Seq::<Option<ButtonCallback>>::empty(),
{
    heapless::Vec::new()
}

/// Relies on heapless::Vec::push: appends the item while under capacity.
#[verifier::external_body]
fn callbacks_push(v: &mut heapless::Vec<Option<ButtonCallback>, 16>, x: Option<ButtonCallback>)
    requires
        callbacks_of(*old(v)).len() < 16,
    ensures
        callbacks_of(*final(v)) == callbacks_of(*old(v)).push(x),
{
    let _ = v.push(x);
}

/// Relies on heapless::Vec's Deref to a slice, indexed in bounds.
#[verifier::external_body]
fn callbacks_get(v: &heapless::Vec<Option<ButtonCallback>, 16>, i: usize) -> (r: Option<ButtonCallback>)
    requires
        i < callbacks_of(*v).len(),
    ensures
        r == callbacks_of(*v)[i as int],
{
    v[i]
}

/// Relies on heapless::Vec's DerefMut to a slice, assigned in bounds.
#[verifier::external_body]
fn callbacks_set(v: &mut heapless::Vec<Option<ButtonCallback>, 16>, i: usize, x: Option<ButtonCallback>)
    requires
        i < callbacks_of(*old(v)).len(),
    ensures
        callbacks_of(*final(v)) == callbacks_of(*old(v)).update(i as int, x),
{
    v[i] = x;
}

/// The LED under button `button_idx`: the board places LED `k` under
/// button `k + 8` modulo 16.
pub open spec fn led_of(button_idx: int) -> int {
    (button_idx + 8) % 16
}

pub fn map_idx_from_button_to_led(button_idx: usize) -> (r: usize)
    ensures
        r == led_of(button_idx as int),
{
    (button_idx % 16 + 8) % 16
}

/// The scancode of the key over LED `led_idx`.
pub fn map_led_idx_to_key_code(led_idx: u8) -> (r: u8)
    requires
        led_idx <= 251,
    ensures
        r == led_idx + 4,
{
    led_idx + 4
}

/// Which buttons are down in a reading of the active-low input register.
pub open spec fn spec_pressed_mask(raw: [u8; 2]) -> u16 {
    !((raw[0] as u16) | ((raw[1] as u16) << 8u16))
}

pub fn pressed_mask(raw: [u8; 2]) -> (r: u16)
    ensures
        r == spec_pressed_mask(raw),
{
    !((raw[0] as u16) | ((raw[1] as u16) << 8))
}

/// Whether button `i` is down in `mask`.
pub open spec fn is_down(mask: u16, i: int) -> bool {
    (mask >> (i as u16)) & 1u16 == 1u16
}

/// The state a button enters from whether it is down now and was before.
pub open spec fn edge(now: bool, was: bool) -> ButtonState {
    if now && was {
        ButtonState::Held
    } else if now {
        ButtonState::Pressed
    } else if was {
        ButtonState::Released
    } else {
        ButtonState::Idle
    }
}

/// The scancode of button `i`.
pub open spec fn key_code(i: int) -> u8 {
    (led_of(i) + 4) as u8
}

/// The keys reported for buttons `0..n`: each that is down, in button
/// order, while fewer than six are listed, and none when keyboard input is
/// off.
pub open spec fn report_keys(mask: u16, enabled: bool, n: int) -> Seq<u8>
    decreases n,
{
    if n <= 0 {
        Seq::empty()
    } else {
        let prev = report_keys(mask, enabled, n - 1);
        if enabled && is_down(mask, n - 1) && prev.len() < KEYBOARD_REPORT_KEYS {
            prev.push(key_code(n - 1))
        } else {
            prev
        }
    }
}

/// The keypad.
pub struct Board {
    buttons: [Button; 16],
    callbacks_pressed: heapless::Vec<Option<ButtonCallback>, 16>,
    callbacks_released: heapless::Vec<Option<ButtonCallback>, 16>,
    rgb_leds: RGBLeds,
    keyboard_input_enabled: bool,
}

impl Board {
    pub closed spec fn buttons(&self) -> Seq<Button> {
        self.buttons@
    }

    pub closed spec fn pressed_callbacks(&self) -> Seq<Option<ButtonCallback>> {
        callbacks_of(self.callbacks_pressed)
    }

    pub closed spec fn released_callbacks(&self) -> Seq<Option<ButtonCallback>> {
        callbacks_of(self.callbacks_released)
    }

    pub closed spec fn strip(&self) -> RGBLeds {
        self.rgb_leds
    }

    pub closed spec fn keyboard_enabled(&self) -> bool {
        self.keyboard_input_enabled
    }

    pub open spec fn leds(&self) -> Seq<RGBLed> {
        self.strip().leds()
    }

    pub open spec fn wf(&self) -> bool {
        &&& self.strip().wf()
        &&& self.buttons().len() == 16
        &&& self.pressed_callbacks().len() == 16
        &&& self.released_callbacks().len() == 16
        &&& forall|i: int| 0 <= i < 16 ==> (#[trigger] self.buttons()[i]).led_index() == led_of(i)
    }

    /// Buttons and callbacks as in `self`.
    pub open spec fn same_inputs(&self, post: &Board) -> bool {
        &&& post.buttons() == self.buttons()
        &&& post.pressed_callbacks() == self.pressed_callbacks()
        &&& post.released_callbacks() == self.released_callbacks()
    }

    /// Only LED `k` of the strip changed.
    pub open spec fn same_but_led(&self, post: &Board, k: int) -> bool {
        &&& self.same_inputs(post)
        &&& post.keyboard_enabled() == self.keyboard_enabled()
        &&& self.strip().same_but(&post.strip(), k)
    }

    /// Every LED changed as `f` relates its old and new value.
    pub open spec fn every_led(&self, post: &Board, f: spec_fn(RGBLed, RGBLed) -> bool) -> bool {
        &&& self.same_inputs(post)
        &&& post.keyboard_enabled() == self.keyboard_enabled()
        &&& post.strip().wf()
        &&& forall|k: int| 0 <= k < 16 ==> f(self.leds()[k], #[trigger] post.leds()[k])
    }

    /// What action `a` does to the board.
    pub open spec fn effect(&self, post: &Board, a: BoardAction) -> bool {
        match a {
            BoardAction::EnableKeyboardInput => {
                &&& self.same_inputs(post)
                &&& post.strip() == self.strip()
                &&& post.keyboard_enabled()
            },
            BoardAction::DisableKeyboardInput => {
                &&& self.same_inputs(post)
                &&& post.strip() == self.strip()
                &&& !post.keyboard_enabled()
            },
            BoardAction::LockLedStates(s) => self.every_led(
                post,
                |l: RGBLed, m: RGBLed| l.lock_post(&m, Some(s)),
            ),
            BoardAction::UnlockLedStates => self.every_led(
                post,
                |l: RGBLed, m: RGBLed| l.lock_post(&m, None),
            ),
            BoardAction::LockLedState(i, s) => {
                &&& self.same_but_led(post, i as int % 16)
                &&& self.leds()[i as int % 16].lock_post(&post.leds()[i as int % 16], Some(s))
            },
            BoardAction::UnlockLedState(i) => {
                &&& self.same_but_led(post, i as int % 16)
                &&& self.leds()[i as int % 16].lock_post(&post.leds()[i as int % 16], None)
            },
            BoardAction::ClearLedQueues(i) => {
                &&& self.same_but_led(post, i as int % 16)
                &&& self.leds()[i as int % 16].all_cleared(&post.leds()[i as int % 16])
            },
            BoardAction::ClearLedQueue(i, s) => {
                &&& self.same_but_led(post, i as int % 16)
                &&& self.leds()[i as int % 16].clear_post(&post.leds()[i as int % 16], seq![s])
            },
            BoardAction::AddLedState { led, slot, transition, state } => {
                &&& self.same_but_led(post, led as int % 16)
                &&& self.leds()[led as int % 16].add_post(
                    &post.leds()[led as int % 16],
                    slot as int,
                    transition,
                    state,
                )
            },
            BoardAction::RemoveLedState { led, slot, state } => {
                &&& self.same_but_led(post, led as int % 16)
                &&& self.leds()[led as int % 16].remove_post(&post.leds()[led as int % 16], slot as int, state)
            },
        }
    }

    /// A board with every LED dark and idle, no animation, no callback, no
    /// button down, and keyboard input off.
    pub fn new() -> (r: Self)
        ensures
            r.wf(),
            !r.keyboard_enabled(),
            forall|i: int| 0 <= i < 16 ==> !(#[trigger] r.buttons()[i]).is_pressed(),
            forall|i: int| 0 <= i < 16 ==> (#[trigger] r.pressed_callbacks()[i]) is None,
            forall|i: int| 0 <= i < 16 ==> (#[trigger] r.released_callbacks()[i]) is None,
            forall|k: int| 0 <= k < 16 ==> {
                let l = #[trigger] r.leds()[k];
                &&& l.frame() == crate::rgbleds::LedState::dark()
                &&& l.button() == ButtonState::Idle
                &&& l.lock() is None
                &&& forall|s: ButtonState| (#[trigger] l.queue(s)).is_fresh()
            },
    {
        let buttons = [
            Button::new(ButtonCode::_8),
            Button::new(ButtonCode::_9),
            Button::new(ButtonCode::_A),
            Button::new(ButtonCode::_B),
            Button::new(ButtonCode::_C),
            Button::new(ButtonCode::_D),
            Button::new(ButtonCode::_E),
            Button::new(ButtonCode::_F),
            Button::new(ButtonCode::_0),
            Button::new(ButtonCode::_1),
            Button::new(ButtonCode::_2),
            Button::new(ButtonCode::_3),
            Button::new(ButtonCode::_4),
            Button::new(ButtonCode::_5),
            Button::new(ButtonCode::_6),
            Button::new(ButtonCode::_7),
        ];
        let mut callbacks_pressed = callbacks_new();
        let mut callbacks_released = callbacks_new();
        let mut i: usize = 0;
        while i < 16
            invariant
                i <= 16,
                callbacks_of(callbacks_pressed).len() == i,
                callbacks_of(callbacks_released).len() == i,
                forall|j: int| 0 <= j < i ==> (#[trigger] callbacks_of(callbacks_pressed)[j]) is None,
                forall|j: int| 0 <= j < i ==> (#[trigger] callbacks_of(callbacks_released)[j]) is None,
            decreases 16 - i,
        {
            callbacks_push(&mut callbacks_pressed, None);
            callbacks_push(&mut callbacks_released, None);
            i += 1;
        }
        Board {
            buttons,
            callbacks_pressed,
            callbacks_released,
            rgb_leds: RGBLeds::new(),
            keyboard_input_enabled: false,
        }
    }
}

impl Board {
    /// Arms `callback` for presses of the button over LED `button_idx`
    /// (taken modulo 16), that is button `(button_idx + 8) % 16`; `None`
    /// disarms it.
    pub fn add_callback_pressed(&mut self, button_idx: usize, callback: Option<ButtonCallback>)
        requires
            old(self).wf(),
        ensures
            final(self).wf(),
            final(self).pressed_callbacks() == old(self).pressed_callbacks().update(
                led_of(button_idx as int % 16),
                callback,
            ),
            final(self).released_callbacks() == old(self).released_callbacks(),
            final(self).buttons() == old(self).buttons(),
            final(self).strip() == old(self).strip(),
            final(self).keyboard_enabled() == old(self).keyboard_enabled(),
    {
        let slot = map_idx_from_button_to_led(button_idx % 16);
        callbacks_set(&mut self.callbacks_pressed, slot, callback);
    }

    pub fn remove_callback_pressed(&mut self, button_idx: usize)
        requires
            old(self).wf(),
        ensures
            final(self).wf(),
            final(self).pressed_callbacks() == old(self).pressed_callbacks().update(
                led_of(button_idx as int % 16),
                None,
            ),
            final(self).released_callbacks() == old(self).released_callbacks(),
            final(self).buttons() == old(self).buttons(),
            final(self).strip() == old(self).strip(),
            final(self).keyboard_enabled() == old(self).keyboard_enabled(),
    {
        self.add_callback_pressed(button_idx, None);
    }

    /// Arms `callback` for releases of the button over LED `button_idx`
    /// (taken modulo 16), that is button `(button_idx + 8) % 16`; `None`
    /// disarms it.
    pub fn add_callback_released(&mut self, button_idx: usize, callback: Option<ButtonCallback>)
        requires
            old(self).wf(),
        ensures
            final(self).wf(),
            final(self).released_callbacks() == old(self).released_callbacks().update(
                led_of(button_idx as int % 16),
                callback,
            ),
            final(self).pressed_callbacks() == old(self).pressed_callbacks(),
            final(self).buttons() == old(self).buttons(),
            final(self).strip() == old(self).strip(),
            final(self).keyboard_enabled() == old(self).keyboard_enabled(),
    {
        let slot = map_idx_from_button_to_led(button_idx % 16);
        callbacks_set(&mut self.callbacks_released, slot, callback);
    }

    pub fn remove_callback_released(&mut self, button_idx: usize)
        requires
            old(self).wf(),
        ensures
            final(self).wf(),
            final(self).released_callbacks() == old(self).released_callbacks().update(
                led_of(button_idx as int % 16),
                None,
            ),
            final(self).pressed_callbacks() == old(self).pressed_callbacks(),
            final(self).buttons() == old(self).buttons(),
            final(self).strip() == old(self).strip(),
            final(self).keyboard_enabled() == old(self).keyboard_enabled(),
    {
        self.add_callback_released(button_idx, None);
    }

    pub fn disable_keyboard_input(&mut self)
        requires
            old(self).wf(),
        ensures
            final(self).wf(),
            old(self).effect(final(self), BoardAction::DisableKeyboardInput),
    {
        self.keyboard_input_enabled = false;
    }

    pub fn enable_keyboard_input(&mut self)
        requires
            old(self).wf(),
        ensures
            final(self).wf(),
            old(self).effect(final(self), BoardAction::EnableKeyboardInput),
    {
        self.keyboard_input_enabled = true;
    }

    pub fn is_keyboard_input_enabled(&self) -> (r: bool)
        ensures
            r == self.keyboard_enabled(),
    {
        self.keyboard_input_enabled
    }

    pub fn add_led_state(&mut self, led_idx: usize, state_idx: usize, transition: Transition, for_state: ButtonState)
        requires
            old(self).wf(),
        ensures
            final(self).wf(),
            old(self).effect(
                final(self),
                BoardAction::AddLedState { led: led_idx, slot: state_idx, transition, state: for_state },
            ),
    {
        self.rgb_leds.add_state(led_idx, state_idx, transition, for_state);
    }

    pub fn remove_led_state(&mut self, led_idx: usize, state_idx: usize, for_state: ButtonState)
        requires
            old(self).wf(),
        ensures
            final(self).wf(),
            old(self).effect(
                final(self),
                BoardAction::RemoveLedState { led: led_idx, slot: state_idx, state: for_state },
            ),
    {
        self.rgb_leds.remove_state(led_idx, state_idx, for_state);
    }

    /// Renders every LED once and returns the packet for the strip.
    pub fn refresh_leds(&mut self) -> (r: Vec<u8>)
        requires
            old(self).wf(),
        ensures
            final(self).wf(),
            old(self).every_led(final(self), |l: RGBLed, m: RGBLed| l.run_post(&m)),
            r@ == final(self).strip().packet(),
    {
        self.rgb_leds.refresh()
    }

    /// Sets every LED to show `colour` at `brightness` while idle, with
    /// every other animation emptied.
    pub fn fill_leds(&mut self, brightness: u8, colour: Colour)
        requires
            old(self).wf(),
        ensures
            final(self).wf(),
            old(self).every_led(
                final(self),
                |l: RGBLed, m: RGBLed|
                    l.filled(&m, Transition::Solid { brightness, colour, duration_ticks: 0, next: 0 }),
            ),
    {
        self.rgb_leds.full(brightness, colour);
    }

    /// Empties every queue of every LED.
    pub fn clear_all_leds(&mut self)
        requires
            old(self).wf(),
        ensures
            final(self).wf(),
            old(self).every_led(final(self), |l: RGBLed, m: RGBLed| l.all_cleared(&m)),
    {
        self.rgb_leds.clear_all();
    }

    pub fn lock_led_states(&mut self, state: ButtonState)
        requires
            old(self).wf(),
        ensures
            final(self).wf(),
            old(self).effect(final(self), BoardAction::LockLedStates(state)),
    {
        let ghost start = *self;
        let mut i: usize = 0;
        while i < 16
            invariant
                i <= 16,
                self.wf(),
                start.same_inputs(self),
                self.keyboard_enabled() == start.keyboard_enabled(),
                forall|k: int| 0 <= k < i ==> start.leds()[k].lock_post(&#[trigger] self.leds()[k], Some(state)),
                forall|k: int| i <= k < 16 ==> #[trigger] self.leds()[k] == start.leds()[k],
            decreases 16 - i,
        {
            let ghost before = *self;
            self.rgb_leds.lock_led_state(i, state);
            proof {
                assert forall|k: int| 0 <= k < i + 1 implies start.leds()[k].lock_post(&#[trigger] self.leds()[k], Some(state)) by {
                    if k < i {
                        assert(self.leds()[k] == before.leds()[k]);
                    }
                }
                assert forall|k: int| i + 1 <= k < 16 implies #[trigger] self.leds()[k] == start.leds()[k] by {
                    assert(self.leds()[k] == before.leds()[k]);
                }
            }
            i += 1;
        }
    }

    pub fn lock_led_state(&mut self, led_idx: usize, state: ButtonState)
        requires
            old(self).wf(),
        ensures
            final(self).wf(),
            old(self).effect(final(self), BoardAction::LockLedState(led_idx, state)),
    {
        self.rgb_leds.lock_led_state(led_idx, state);
    }

    pub fn unlock_led_states(&mut self)
        requires
            old(self).wf(),
        ensures
            final(self).wf(),
            old(self).effect(final(self), BoardAction::UnlockLedStates),
    {
        let ghost start = *self;
        let mut i: usize = 0;
        while i < 16
            invariant
                i <= 16,
                self.wf(),
                start.same_inputs(self),
                self.keyboard_enabled() == start.keyboard_enabled(),
                forall|k: int| 0 <= k < i ==> start.leds()[k].lock_post(&#[trigger] self.leds()[k], None),
                forall|k: int| i <= k < 16 ==> #[trigger] self.leds()[k] == start.leds()[k],
            decreases 16 - i,
        {
            let ghost before = *self;
            self.rgb_leds.unlock_led_state(i);
            proof {
                assert forall|k: int| 0 <= k < i + 1 implies start.leds()[k].lock_post(&#[trigger] self.leds()[k], None) by {
                    if k < i {
                        assert(self.leds()[k] == before.leds()[k]);
                    }
                }
                assert forall|k: int| i + 1 <= k < 16 implies #[trigger] self.leds()[k] == start.leds()[k] by {
                    assert(self.leds()[k] == before.leds()[k]);
                }
            }
            i += 1;
        }
    }

    pub fn unlock_led_state(&mut self, led_idx: usize)
        requires
            old(self).wf(),
        ensures
            final(self).wf(),
            old(self).effect(final(self), BoardAction::UnlockLedState(led_idx)),
    {
        self.rgb_leds.unlock_led_state(led_idx);
    }

    /// Empties every queue of LED `index`.
    pub fn clear_led_queues(&mut self, index: usize)
        requires
            old(self).wf(),
        ensures
            final(self).wf(),
            old(self).effect(final(self), BoardAction::ClearLedQueues(index)),
    {
        let states = [ButtonState::Pressed, ButtonState::Held, ButtonState::Released, ButtonState::Idle];
        let ghost k = index as int % 16;
        self.rgb_leds.clear(index, states.as_slice());
        proof {
            let l = old(self).leds()[k];
            let m = self.leds()[k];
            assert forall|s: ButtonState| (#[trigger] m.queue(s)).is_fresh() by {
                assert(states@[0] == ButtonState::Pressed);
                assert(states@[1] == ButtonState::Held);
                assert(states@[2] == ButtonState::Released);
                assert(states@[3] == ButtonState::Idle);
                assert(states@.contains(s));
            }
        }
    }

    /// Empties the queues of the listed states of LED `index`.
    pub fn clear_led_queue(&mut self, index: usize, states: &[ButtonState])
        requires
            old(self).wf(),
        ensures
            final(self).wf(),
            old(self).same_but_led(final(self), index as int % 16),
            old(self).leds()[index as int % 16].clear_post(&final(self).leds()[index as int % 16], states@),
    {
        self.rgb_leds.clear(index, states);
    }

    /// Applies the action of a callback.
    pub fn apply_action(&mut self, action: BoardAction)
        requires
            old(self).wf(),
        ensures
            final(self).wf(),
            old(self).effect(final(self), action),
    {
        match action {
            BoardAction::EnableKeyboardInput => self.enable_keyboard_input(),
            BoardAction::DisableKeyboardInput => self.disable_keyboard_input(),
            BoardAction::LockLedStates(s) => self.lock_led_states(s),
            BoardAction::UnlockLedStates => self.unlock_led_states(),
            BoardAction::LockLedState(i, s) => self.lock_led_state(i, s),
            BoardAction::UnlockLedState(i) => self.unlock_led_state(i),
            BoardAction::ClearLedQueues(i) => self.clear_led_queues(i),
            BoardAction::ClearLedQueue(i, s) => {
                let states = [s];
                assert(states@ =~= seq![s]);
                self.clear_led_queue(i, states.as_slice());
            },
            BoardAction::AddLedState { led, slot, transition, state } => self.add_led_state(
                led,
                slot,
                transition,
                state,
            ),
            BoardAction::RemoveLedState { led, slot, state } => self.remove_led_state(led, slot, state),
        }
    }
}

/// A callback after a poll: one that fired and asked to be removed is gone.
pub open spec fn rearmed(cb: Option<ButtonCallback>, fires: bool) -> Option<ButtonCallback> {
    match cb {
        Some(c) => if fires && c.after == ButtonCallbackResult::Remove {
            None
        } else {
            cb
        },
        None => None,
    }
}

/// The edge of button `i` in a poll of `mask` on `pre`.
pub open spec fn edge_at(pre: Board, mask: u16, i: int) -> ButtonState {
    edge(is_down(mask, i), pre.buttons()[i].is_pressed())
}

/// The actions of the callbacks that fire when buttons `0..n` are polled:
/// a press fires the press callback, a release the release callback.
pub open spec fn fired(pre: Board, mask: u16, n: int) -> Seq<BoardAction>
    decreases n,
{
    if n <= 0 {
        Seq::empty()
    } else {
        let prev = fired(pre, mask, n - 1);
        match (edge_at(pre, mask, n - 1), pre.pressed_callbacks()[n - 1], pre.released_callbacks()[n - 1]) {
            (ButtonState::Pressed, Some(c), _) => prev.push(c.action),
            (ButtonState::Released, _, Some(c)) => prev.push(c.action),
            _ => prev,
        }
    }
}

/// What the scan of a poll does, before any callback runs: each button
/// records whether it is down, each LED is told the edge of the button over
/// it, and each callback that fired and asked to be removed is disarmed.
pub open spec fn scanned(pre: Board, mid: Board, mask: u16) -> bool {
    &&& mid.wf()
    &&& mid.keyboard_enabled() == pre.keyboard_enabled()
    &&& forall|i: int| 0 <= i < 16 ==> (#[trigger] mid.buttons()[i]).is_pressed() == is_down(mask, i)
    &&& forall|i: int|
        0 <= i < 16 ==> #[trigger] mid.pressed_callbacks()[i] == rearmed(
            pre.pressed_callbacks()[i],
            edge_at(pre, mask, i) == ButtonState::Pressed,
        )
    &&& forall|i: int|
        0 <= i < 16 ==> #[trigger] mid.released_callbacks()[i] == rearmed(
            pre.released_callbacks()[i],
            edge_at(pre, mask, i) == ButtonState::Released,
        )
    &&& forall|k: int|
        0 <= k < 16 ==> pre.leds()[k].set_button_post(&#[trigger] mid.leds()[k], edge_at(pre, mask, led_of(k)))
}

/// `post` is `pre` after the actions `acts`, applied in order.
pub open spec fn applied(pre: Board, acts: Seq<BoardAction>, post: Board) -> bool
    decreases acts.len(),
{
    if acts.len() == 0 {
        post == pre
    } else {
        exists|m: Board| applied(pre, acts.drop_last(), m) && #[trigger] m.effect(&post, acts.last())
    }
}

impl Board {
    /// Polls the buttons from a reading of the active-low input register
    /// (low byte first). Each button's edge drives the LED over it, the
    /// callbacks of presses and releases fire, in button order, once the
    /// scan is done, and the keys that are down are returned as scancodes,
    /// at most six, when keyboard input is on.
    pub fn update_status(&mut self, raw: [u8; 2]) -> (r: Vec<u8>)
        requires
            old(self).wf(),
        ensures
            final(self).wf(),
            r@ == report_keys(spec_pressed_mask(raw), old(self).keyboard_enabled(), 16),
            exists|mid: Board|
                scanned(*old(self), mid, spec_pressed_mask(raw))
                && mid.same_inputs(final(self))
                && applied(mid, fired(*old(self), spec_pressed_mask(raw), 16), *final(self)),
    {
        let ghost start = *self;
        let mask = pressed_mask(raw);
        let mut keys: Vec<u8> = Vec::new();
        let mut acts: Vec<BoardAction> = Vec::new();
        let mut i: usize = 0;
        while i < 16
            invariant
                i <= 16,
                start.wf(),
                self.wf(),
                mask == spec_pressed_mask(raw),
                self.keyboard_enabled() == start.keyboard_enabled(),
                keys@ == report_keys(mask, start.keyboard_enabled(), i as int),
                acts@ == fired(start, mask, i as int),
                forall|j: int|
                    0 <= j < 16 ==> (#[trigger] self.buttons()[j]).is_pressed() == if j < i {
                        is_down(mask, j)
                    } else {
                        start.buttons()[j].is_pressed()
                    },
                forall|j: int|
                    0 <= j < 16 ==> #[trigger] self.pressed_callbacks()[j] == if j < i {
                        rearmed(start.pressed_callbacks()[j], edge_at(start, mask, j) == ButtonState::Pressed)
                    } else {
                        start.pressed_callbacks()[j]
                    },
                forall|j: int|
                    0 <= j < 16 ==> #[trigger] self.released_callbacks()[j] == if j < i {
                        rearmed(start.released_callbacks()[j], edge_at(start, mask, j) == ButtonState::Released)
                    } else {
                        start.released_callbacks()[j]
                    },
                forall|k: int|
                    0 <= k < 16 ==> if led_of(k) < i {
                        start.leds()[k].set_button_post(&#[trigger] self.leds()[k], edge_at(start, mask, led_of(k)))
                    } else {
                        self.leds()[k] == start.leds()[k]
                    },
            decreases 16 - i,
        {
            let ghost before = *self;
            let now = (mask >> (i as u16)) & 1 == 1;
            let was = self.buttons[i].pressed();
            let state = if now && was {
                ButtonState::Held
            } else if now {
                ButtonState::Pressed
            } else if was {
                ButtonState::Released
            } else {
                ButtonState::Idle
            };
            assert(state == edge_at(start, mask, i as int));
            let led = map_idx_from_button_to_led(i);
            self.rgb_leds.set_button_state(led, state);
            if self.keyboard_input_enabled && now && keys.len() < KEYBOARD_REPORT_KEYS {
                keys.push(map_led_idx_to_key_code(self.buttons[i].rgb_led_index));
            }
            let mut button = self.buttons[i];
            button.set_pressed(now);
            self.buttons[i] = button;
            if now && !was {
                match callbacks_get(&self.callbacks_pressed, i) {
                    Some(c) => {
                        acts.push(c.action);
                        match c.after {
                            ButtonCallbackResult::Remove => callbacks_set(&mut self.callbacks_pressed, i, None),
                            ButtonCallbackResult::Keep => {},
                        }
                    },
                    None => {},
                }
            } else if !now && was {
                match callbacks_get(&self.callbacks_released, i) {
                    Some(c) => {
                        acts.push(c.action);
                        match c.after {
                            ButtonCallbackResult::Remove => callbacks_set(&mut self.callbacks_released, i, None),
                            ButtonCallbackResult::Keep => {},
                        }
                    },
                    None => {},
                }
            }
            proof {
                assert forall|k: int| 0 <= k < 16 implies (led_of(k) == i) == (k == led_of(i as int)) by {}
                assert forall|k: int| 0 <= k < 16 && k != led_of(i as int) implies #[trigger] self.leds()[k] == before.leds()[k] by {}
            }
            i += 1;
        }
        let ghost mid = *self;
        let mut j: usize = 0;
        while j < acts.len()
            invariant
                j <= acts@.len(),
                self.wf(),
                mid.same_inputs(self),
                applied(mid, acts@.subrange(0, j as int), *self),
            decreases acts@.len() - j,
        {
            let ghost before = *self;
            let action = acts[j];
            self.apply_action(action);
            proof {
                assert(acts@.subrange(0, j + 1).drop_last() =~= acts@.subrange(0, j as int));
                assert(acts@.subrange(0, j + 1).last() == action);
                assert(before.effect(self, action));
            }
            j += 1;
        }
        proof {
            assert(acts@.subrange(0, acts@.len() as int) =~= acts@);
            assert(scanned(start, mid, mask));
        }
        keys
    }
}

/// How many of the polls `polls` (whether the button is down at each),
/// made after one that found it `was`, see the button enter `target`. Each
/// poll sees the button as the previous one left it, as `update_status`
/// records, so for `Pressed` this counts the firings of an armed press
/// callback, and for `Released` those of a release callback.
pub open spec fn edges_seen(was: bool, polls: Seq<bool>, target: ButtonState) -> nat
    decreases polls.len(),
{
    if polls.len() == 0 {
        0
    } else {
        let prev = if polls.len() == 1 {
            was
        } else {
            polls[polls.len() - 2]
        };
        edges_seen(was, polls.drop_last(), target) + if edge(polls.last(), prev) == target {
            1nat
        } else {
            0nat
        }
    }
}

/// A press, held down through `holds` more polls.
pub open spec fn press_then_holds(holds: nat) -> Seq<bool> {
    seq![true] + Seq::new(holds, |n: int| true)
}

proof fn lemma_holding_adds_no_edge(holds: nat)
    ensures
        edges_seen(false, press_then_holds(holds), ButtonState::Pressed) == 1,
        edges_seen(false, press_then_holds(holds), ButtonState::Released) == 0,
    decreases holds,
{
    if holds > 0 {
        let h = (holds - 1) as nat;
        let polls = press_then_holds(holds);
        assert(polls.drop_last() =~= press_then_holds(h));
        assert(polls[polls.len() - 2] == true);
        assert(polls.last() == true);
        lemma_holding_adds_no_edge(h);
    } else {
        let polls = press_then_holds(0);
        assert(polls.drop_last() =~= Seq::<bool>::empty());
        assert(polls.last() == true);
        assert(edges_seen(false, polls.drop_last(), ButtonState::Pressed) == 0);
        assert(edges_seen(false, polls.drop_last(), ButtonState::Released) == 0);
    }
}

/// Pressing a button, holding it through any number of polls and releasing
/// it fires its press callback once and its release callback once.
pub proof fn lemma_press_hold_release_fires_once(holds: nat)
    ensures
        edges_seen(false, press_then_holds(holds).push(false), ButtonState::Pressed) == 1,
        edges_seen(false, press_then_holds(holds).push(false), ButtonState::Released) == 1,
{
    lemma_holding_adds_no_edge(holds);
    let polls = press_then_holds(holds).push(false);
    assert(polls.drop_last() =~= press_then_holds(holds));
    assert(polls[polls.len() - 2] == true);
    assert(polls.last() == false);
}

} // verus!
