//! Animation queues, the controller of one LED, and the strip of sixteen.
use vstd::prelude::*;

use crate::transitions::{solid, Transition, TransitionResult};
use crate::{ButtonState, Colour};

verus! {

#[verifier::external_type_specification]
#[verifier::external_body]
#[verifier::reject_recursive_types(T)]
pub struct ExHeaplessVec<T, const N: usize>(heapless::Vec<T, N>);

/// The number of slots of an animation queue, and of LEDs on the strip.
pub const LED_STATE_QUEUE_SIZE: usize = 16;

// ---- the slots of a queue ----

/// What a vector of transition slots holds, in order.
pub uninterp spec fn slots_of(v: heapless::Vec<Transition, 16>) -> Seq<Transition>;

/// Relies on heapless::Vec::new: the vector starts empty.
#[verifier::external_body]
fn slots_new() -> (r: heapless::Vec<Transition, 16>)
    ensures
        slots_of(r) == Seq::<Transition>::empty(),
{
    heapless::Vec::new()
}

/// Relies on heapless::Vec::push: appends the item while under capacity.
#[verifier::external_body]
fn slots_push(v: &mut heapless::Vec<Transition, 16>, x: Transition)
    requires
        slots_of(*old(v)).len() < 16,
    ensures
        slots_of(*final(v)) == slots_of(*old(v)).push(x),
{
    let _ = v.push(x);
}

/// Relies on heapless::Vec's Deref to a slice, indexed in bounds.
#[verifier::external_body]
fn slots_get(v: &heapless::Vec<Transition, 16>, i: usize) -> (r: Transition)
    requires
        i < slots_of(*v).len(),
    ensures
        r == slots_of(*v)[i as int],
{
    v[i]
}

/// Relies on heapless::Vec's DerefMut to a slice, assigned in bounds.
#[verifier::external_body]
fn slots_set(v: &mut heapless::Vec<Transition, 16>, i: usize, x: Transition)
    requires
        i < slots_of(*old(v)).len(),
    ensures
        slots_of(*final(v)) == slots_of(*old(v)).update(i as int, x),
{
    v[i] = x;
}

// ---- the LEDs of a strip ----

/// What a vector of LED controllers holds, in order.
pub uninterp spec fn leds_of(v: heapless::Vec<RGBLed, 16>) -> Seq<RGBLed>;

/// Relies on heapless::Vec::new: the vector starts empty.
#[verifier::external_body]
fn leds_new() -> (r: heapless::Vec<RGBLed, 16>)
    ensures
        leds_of(r) == Seq::<RGBLed>::empty(),
{
    heapless::Vec::new()
}

/// Relies on heapless::Vec::push: appends the item while under capacity.
#[verifier::external_body]
fn leds_push(v: &mut heapless::Vec<RGBLed, 16>, x: RGBLed)
    requires
        leds_of(*old(v)).len() < 16,
    ensures
        leds_of(*final(v)) == leds_of(*old(v)).push(x),
{
    let _ = v.push(x);
}

/// Relies on heapless::Vec's DerefMut to a slice, borrowed in bounds.
#[verifier::external_body]
fn leds_at_mut(v: &mut heapless::Vec<RGBLed, 16>, i: usize) -> (r: &mut RGBLed)
    requires
        i < leds_of(*old(v)).len(),
    ensures
        *r == leds_of(*old(v))[i as int],
        leds_of(*final(v)) == leds_of(*old(v)).update(i as int, *final(r)),
{
    &mut v[i]
}

/// One LED's transmit-ready state: a brightness byte whose three top bits
/// are set, then blue, green and red.
#[derive(Clone, Copy, Debug, PartialEq, Eq, Structural)]
pub struct LedState {
    pub brightness: u8,
    pub b: u8,
    pub g: u8,
    pub r: u8,
}

impl LedState {
    pub open spec fn frame(brightness: u8, colour: Colour) -> LedState {
        LedState { brightness: brightness | 0xe0u8, b: colour.blue, g: colour.green, r: colour.red }
    }

    pub open spec fn dark() -> LedState {
        LedState { brightness: 0, b: 0, g: 0, r: 0 }
    }

    pub fn new(brightness: u8, colour: &Colour) -> (r: LedState)
        ensures
            r == Self::frame(brightness, *colour),
    {
        LedState { brightness: brightness | 0xe0, b: colour.blue, g: colour.green, r: colour.red }
    }
}

/// The slot that an empty queue holds at `slot`: it moves straight on to
/// the slot after it.
pub open spec fn forwarder(slot: int) -> Transition {
    Transition::Forward { next: ((slot + 1) % 16) as usize }
}

/// The slots of a queue that holds no animation.
pub open spec fn default_slots() -> Seq<Transition> {
    Seq::new(16, |i: int| forwarder(i))
}

/// Sixteen transition slots, the slot being played and the ticks spent in it.
pub struct LedStateQueue {
    queue: heapless::Vec<Transition, 16>,
    current_element: usize,
    counter: usize,
}

impl LedStateQueue {
    pub closed spec fn slots(&self) -> Seq<Transition> {
        slots_of(self.queue)
    }

    pub closed spec fn cursor(&self) -> int {
        self.current_element as int
    }

    pub closed spec fn ticks(&self) -> int {
        self.counter as int
    }

    pub open spec fn wf(&self) -> bool {
        &&& self.slots().len() == 16
        &&& 0 <= self.cursor() < 16
        &&& 0 <= self.ticks() <= usize::MAX
    }

    /// Holds no animation and stands at the start.
    pub open spec fn is_fresh(&self) -> bool {
        &&& self.wf()
        &&& self.slots() == default_slots()
        &&& self.cursor() == 0
        &&& self.ticks() == 0
    }

    /// What one tick gives: the frame shown, if any, then the new cursor and
    /// tick count.
    pub open spec fn step(&self) -> (Option<LedState>, int, int) {
        match self.slots()[self.cursor()].spec_at(self.ticks()) {
            TransitionResult::InProgress(f) => (
                Some(f),
                self.cursor(),
                if self.ticks() < usize::MAX { self.ticks() + 1 } else { self.ticks() },
            ),
            TransitionResult::Finished(next) => (None, next as int % 16, 0),
        }
    }

    pub fn new() -> (r: Self)
        ensures
            r.is_fresh(),
    {
        let mut queue = slots_new();
        let mut i: usize = 0;
        while i < LED_STATE_QUEUE_SIZE
            invariant
                i <= 16,
                slots_of(queue) =~= default_slots().subrange(0, i as int),
            decreases 16 - i,
        {
            slots_push(&mut queue, Transition::Forward { next: (i + 1) % LED_STATE_QUEUE_SIZE });
            i += 1;
        }
        assert(default_slots().subrange(0, 16) =~= default_slots());
        LedStateQueue { queue, current_element: 0, counter: 0 }
    }

    /// Moves the cursor to `to_element`, taken modulo 16.
    pub fn advance(&mut self, to_element: usize)
        requires
            old(self).wf(),
        ensures
            final(self).wf(),
            final(self).cursor() == to_element as int % 16,
            final(self).slots() == old(self).slots(),
            final(self).ticks() == old(self).ticks(),
    {
        self.current_element = to_element % LED_STATE_QUEUE_SIZE;
    }

    /// The transition in the slot being played.
    pub fn current(&self) -> (r: Transition)
        requires
            self.wf(),
        ensures
            r == self.slots()[self.cursor()],
    {
        slots_get(&self.queue, self.current_element)
    }

    /// Overwrites slot `position`, taken modulo 16.
    pub fn insert(&mut self, position: usize, f: Transition)
        requires
            old(self).wf(),
        ensures
            final(self).wf(),
            final(self).slots() == old(self).slots().update(position as int % 16, f),
            final(self).cursor() == old(self).cursor(),
            final(self).ticks() == old(self).ticks(),
    {
        slots_set(&mut self.queue, position % LED_STATE_QUEUE_SIZE, f);
    }

    /// Puts the default forwarder back in slot `position`, taken modulo 16.
    pub fn remove(&mut self, position: usize)
        requires
            old(self).wf(),
        ensures
            final(self).wf(),
            final(self).slots() == old(self).slots().update(
                position as int % 16,
                forwarder(position as int % 16),
            ),
            final(self).cursor() == old(self).cursor(),
            final(self).ticks() == old(self).ticks(),
    {
        let p = position % LED_STATE_QUEUE_SIZE;
        slots_set(&mut self.queue, p, Transition::Forward { next: (p + 1) % LED_STATE_QUEUE_SIZE });
    }

    /// Back to slot 0, tick 0.
    pub fn restart(&mut self)
        requires
            old(self).wf(),
        ensures
            final(self).wf(),
            final(self).slots() == old(self).slots(),
            final(self).cursor() == 0,
            final(self).ticks() == 0,
    {
        self.current_element = 0;
        self.counter = 0;
    }

    /// Every slot back to the default forwarder, and back to the start.
    pub fn clear(&mut self)
        requires
            old(self).wf(),
        ensures
            final(self).is_fresh(),
    {
        *self = LedStateQueue::new();
    }

    /// Plays one tick: a transition in progress gives its frame and counts
    /// the tick; a finished one moves the cursor to its successor, which is
    /// played from the next tick on.
    pub fn tick(&mut self) -> (r: Option<LedState>)
        requires
            old(self).wf(),
        ensures
            final(self).wf(),
            final(self).slots() == old(self).slots(),
            (r, final(self).cursor(), final(self).ticks()) == old(self).step(),
    {
        let transition = self.current();
        match transition.at(self.counter) {
            TransitionResult::InProgress(frame) => {
                if self.counter < usize::MAX {
                    self.counter = self.counter + 1;
                }
                Some(frame)
            },
            TransitionResult::Finished(next) => {
                self.advance(next);
                self.counter = 0;
                None
            },
        }
    }
}

/// The controller of one LED: a queue for each button state, the state the
/// button is in, an optional lock on the state whose queue is played, and
/// the last frame rendered.
pub struct RGBLed {
    current_state: LedState,
    button_state: ButtonState,
    on_pressed: LedStateQueue,
    on_held: LedStateQueue,
    on_released: LedStateQueue,
    on_idle: LedStateQueue,
    lock_state: Option<ButtonState>,
}

impl RGBLed {
    pub closed spec fn frame(&self) -> LedState {
        self.current_state
    }

    pub closed spec fn button(&self) -> ButtonState {
        self.button_state
    }

    pub closed spec fn lock(&self) -> Option<ButtonState> {
        self.lock_state
    }

    pub closed spec fn queue(&self, s: ButtonState) -> LedStateQueue {
        match s {
            ButtonState::Pressed => self.on_pressed,
            ButtonState::Held => self.on_held,
            ButtonState::Released => self.on_released,
            ButtonState::Idle => self.on_idle,
        }
    }

    /// The state whose queue is played: the lock's if locked, else the button's.
    pub open spec fn governing(&self) -> ButtonState {
        match self.lock() {
            Some(s) => s,
            None => self.button(),
        }
    }

    pub open spec fn wf(&self) -> bool {
        &&& self.queue(ButtonState::Pressed).wf()
        &&& self.queue(ButtonState::Held).wf()
        &&& self.queue(ButtonState::Released).wf()
        &&& self.queue(ButtonState::Idle).wf()
    }

    /// `self` and `other` agree but for the queue of `s`.
    pub open spec fn same_but_queue(&self, other: &RGBLed, s: ButtonState) -> bool {
        &&& other.frame() == self.frame()
        &&& other.button() == self.button()
        &&& other.lock() == self.lock()
        &&& forall|t: ButtonState| t != s ==> #[trigger] other.queue(t) == self.queue(t)
    }

    pub fn new() -> (r: Self)
        ensures
            r.wf(),
            r.frame() == LedState::dark(),
            r.button() == ButtonState::Idle,
            r.lock() is None,
            forall|s: ButtonState| (#[trigger] r.queue(s)).is_fresh(),
    {
        RGBLed {
            current_state: LedState { brightness: 0, b: 0, g: 0, r: 0 },
            button_state: ButtonState::Idle,
            on_pressed: LedStateQueue::new(),
            on_held: LedStateQueue::new(),
            on_released: LedStateQueue::new(),
            on_idle: LedStateQueue::new(),
            lock_state: None,
        }
    }

    /// What `run` does: ticks the governing queue and keeps its frame, or
    /// the previous one when the tick shows none.
    pub open spec fn run_post(&self, post: &RGBLed) -> bool {
        let g = self.governing();
        let (shown, cursor, ticks) = self.queue(g).step();
        &&& post.button() == self.button()
        &&& post.lock() == self.lock()
        &&& forall|t: ButtonState| t != g ==> #[trigger] post.queue(t) == self.queue(t)
        &&& post.queue(g).wf()
        &&& post.queue(g).slots() == self.queue(g).slots()
        &&& post.queue(g).cursor() == cursor
        &&& post.queue(g).ticks() == ticks
        &&& post.frame() == match shown {
            Some(f) => f,
            None => self.frame(),
        }
    }

    /// Renders one tick and returns the frame to transmit.
    pub fn run(&mut self) -> (r: LedState)
        requires
            old(self).wf(),
        ensures
            final(self).wf(),
            old(self).run_post(final(self)),
            r == final(self).frame(),
    {
        let governing = match self.lock_state {
            Some(s) => s,
            None => self.button_state,
        };
        let shown = match governing {
            ButtonState::Pressed => self.on_pressed.tick(),
            ButtonState::Held => self.on_held.tick(),
            ButtonState::Released => self.on_released.tick(),
            ButtonState::Idle => self.on_idle.tick(),
        };
        if let Some(frame) = shown {
            self.current_state = frame;
        }
        self.current_state
    }

    fn clear_one(&mut self, state: ButtonState)
        requires
            old(self).wf(),
        ensures
            final(self).wf(),
            old(self).same_but_queue(final(self), state),
            final(self).queue(state).is_fresh(),
    {
        match state {
            ButtonState::Pressed => self.on_pressed.clear(),
            ButtonState::Held => self.on_held.clear(),
            ButtonState::Released => self.on_released.clear(),
            ButtonState::Idle => self.on_idle.clear(),
        }
    }

    /// What `clear` does: the queues of the listed states are emptied.
    pub open spec fn clear_post(&self, post: &RGBLed, states: Seq<ButtonState>) -> bool {
        &&& post.frame() == self.frame()
        &&& post.button() == self.button()
        &&& post.lock() == self.lock()
        &&& forall|s: ButtonState|
            if states.contains(s) {
                (#[trigger] post.queue(s)).is_fresh()
            } else {
                post.queue(s) == self.queue(s)
            }
    }

    /// Empties the queues of the states listed.
    pub fn clear(&mut self, from_states: &[ButtonState])
        requires
            old(self).wf(),
        ensures
            final(self).wf(),
            old(self).clear_post(final(self), from_states@),
    {
        let ghost start = *self;
        let mut i: usize = 0;
        while i < from_states.len()
            invariant
                i <= from_states@.len(),
                self.wf(),
                start.clear_post(self, from_states@.subrange(0, i as int)),
            decreases from_states@.len() - i,
        {
            let state = from_states[i];
            self.clear_one(state);
            let ghost done = from_states@.subrange(0, i as int);
            assert(from_states@.subrange(0, i + 1) =~= done.push(state));
            assert forall|s: ButtonState| #[trigger] done.push(state).contains(s) <==> (done.contains(s) || s == state) by {
                if done.push(state).contains(s) {
                    let k = choose|k: int| 0 <= k < done.push(state).len() && done.push(state)[k] == s;
                    if k < done.len() {
                        assert(done[k] == s);
                    }
                }
                if s == state {
                    assert(done.push(state)[done.len() as int] == s);
                }
                if done.contains(s) {
                    let k = choose|k: int| 0 <= k < done.len() && done[k] == s;
                    assert(done.push(state)[k] == s);
                }
            }
            i += 1;
        }
        assert(from_states@.subrange(0, i as int) =~= from_states@);
    }

    /// What `add_state` does: slot `state_idx` (modulo 16) of the queue of
    /// `for_state` now holds `transition`.
    pub open spec fn add_post(&self, post: &RGBLed, state_idx: int, transition: Transition, for_state: ButtonState) -> bool {
        &&& self.same_but_queue(post, for_state)
        &&& post.queue(for_state).wf()
        &&& post.queue(for_state).slots() == self.queue(for_state).slots().update(state_idx % 16, transition)
        &&& post.queue(for_state).cursor() == self.queue(for_state).cursor()
        &&& post.queue(for_state).ticks() == self.queue(for_state).ticks()
    }

    pub fn add_state(&mut self, state_idx: usize, transition: Transition, for_state: ButtonState)
        requires
            old(self).wf(),
        ensures
            final(self).wf(),
            old(self).add_post(final(self), state_idx as int, transition, for_state),
    {
        match for_state {
            ButtonState::Pressed => self.on_pressed.insert(state_idx, transition),
            ButtonState::Held => self.on_held.insert(state_idx, transition),
            ButtonState::Released => self.on_released.insert(state_idx, transition),
            ButtonState::Idle => self.on_idle.insert(state_idx, transition),
        }
    }

    /// What `remove_state` does: slot `state_idx` (modulo 16) of the queue
    /// of `from_state` holds its forwarder again.
    pub open spec fn remove_post(&self, post: &RGBLed, state_idx: int, from_state: ButtonState) -> bool {
        self.add_post(post, state_idx, forwarder(state_idx % 16), from_state)
    }

    pub fn remove_state(&mut self, state_idx: usize, from_state: ButtonState)
        requires
            old(self).wf(),
        ensures
            final(self).wf(),
            old(self).remove_post(final(self), state_idx as int, from_state),
    {
        match from_state {
            ButtonState::Pressed => self.on_pressed.remove(state_idx),
            ButtonState::Held => self.on_held.remove(state_idx),
            ButtonState::Released => self.on_released.remove(state_idx),
            ButtonState::Idle => self.on_idle.remove(state_idx),
        }
    }

    /// What locking does: the lock is set, nothing else changes.
    pub open spec fn lock_post(&self, post: &RGBLed, lock: Option<ButtonState>) -> bool {
        &&& post.frame() == self.frame()
        &&& post.button() == self.button()
        &&& post.lock() == lock
        &&& forall|t: ButtonState| #[trigger] post.queue(t) == self.queue(t)
    }

    pub fn lock_state(&mut self, state: ButtonState)
        requires
            old(self).wf(),
        ensures
            final(self).wf(),
            old(self).lock_post(final(self), Some(state)),
    {
        self.lock_state = Some(state);
    }

    pub fn unlock_state(&mut self)
        requires
            old(self).wf(),
        ensures
            final(self).wf(),
            old(self).lock_post(final(self), None),
    {
        self.lock_state = None;
    }

    /// What `set_button_state` does: when unlocked and the state changes,
    /// the new state is recorded and its queue restarts; otherwise nothing.
    pub open spec fn set_button_post(&self, post: &RGBLed, new_state: ButtonState) -> bool {
        if self.lock() is None && new_state != self.button() {
            &&& post.frame() == self.frame()
            &&& post.button() == new_state
            &&& post.lock() == self.lock()
            &&& forall|t: ButtonState| t != new_state ==> #[trigger] post.queue(t) == self.queue(t)
            &&& post.queue(new_state).wf()
            &&& post.queue(new_state).slots() == self.queue(new_state).slots()
            &&& post.queue(new_state).cursor() == 0
            &&& post.queue(new_state).ticks() == 0
        } else {
            *post == *self
        }
    }

    pub fn set_button_state(&mut self, new_state: ButtonState)
        requires
            old(self).wf(),
        ensures
            final(self).wf(),
            old(self).set_button_post(final(self), new_state),
    {
        if self.lock_state.is_none() && new_state != self.button_state {
            self.button_state = new_state;
            match new_state {
                ButtonState::Pressed => self.on_pressed.restart(),
                ButtonState::Held => self.on_held.restart(),
                ButtonState::Released => self.on_released.restart(),
                ButtonState::Idle => self.on_idle.restart(),
            }
        }
    }
}

impl RGBLed {
    /// Every queue emptied, nothing else changed.
    pub open spec fn all_cleared(&self, post: &RGBLed) -> bool {
        &&& post.frame() == self.frame()
        &&& post.button() == self.button()
        &&& post.lock() == self.lock()
        &&& forall|s: ButtonState| (#[trigger] post.queue(s)).is_fresh()
    }

    /// Empties the queues of all four states.
    pub fn clear_all_states(&mut self)
        requires
            old(self).wf(),
        ensures
            final(self).wf(),
            old(self).all_cleared(final(self)),
    {
        self.clear_one(ButtonState::Pressed);
        self.clear_one(ButtonState::Held);
        self.clear_one(ButtonState::Released);
        self.clear_one(ButtonState::Idle);
    }

    /// Every queue emptied, then `t` put in slot 0 of the idle queue.
    pub open spec fn filled(&self, post: &RGBLed, t: Transition) -> bool {
        &&& post.frame() == self.frame()
        &&& post.button() == self.button()
        &&& post.lock() == self.lock()
        &&& forall|s: ButtonState| s != ButtonState::Idle ==> (#[trigger] post.queue(s)).is_fresh()
        &&& post.queue(ButtonState::Idle).wf()
        &&& post.queue(ButtonState::Idle).slots() == default_slots().update(0, t)
        &&& post.queue(ButtonState::Idle).cursor() == 0
        &&& post.queue(ButtonState::Idle).ticks() == 0
    }
}

/// The bytes that carry one LED's frame on the strip's bus.
pub open spec fn record(f: LedState) -> Seq<u8> {
    seq![f.brightness | 0xe0u8, f.b, f.g, f.r]
}

/// The strip of sixteen LEDs, rendered and transmitted together.
pub struct RGBLeds {
    start_frame: [u8; 4],
    leds: heapless::Vec<RGBLed, 16>,
    end_frame: [u8; 4],
}

impl RGBLeds {
    pub closed spec fn leds(&self) -> Seq<RGBLed> {
        leds_of(self.leds)
    }

    pub closed spec fn markers_zero(&self) -> bool {
        self.start_frame@ == seq![0u8, 0u8, 0u8, 0u8] && self.end_frame@ == seq![0u8, 0u8, 0u8, 0u8]
    }

    pub open spec fn wf(&self) -> bool {
        &&& self.markers_zero()
        &&& self.leds().len() == 16
        &&& forall|k: int| 0 <= k < 16 ==> (#[trigger] self.leds()[k]).wf()
    }

    /// `self` and `post` hold the same LEDs but the one at `k`.
    pub open spec fn same_but(&self, post: &RGBLeds, k: int) -> bool {
        &&& post.wf()
        &&& forall|j: int| 0 <= j < 16 && j != k ==> #[trigger] post.leds()[j] == self.leds()[j]
    }

    pub fn new() -> (r: Self)
        ensures
            r.wf(),
            forall|k: int| 0 <= k < 16 ==> {
                let l = #[trigger] r.leds()[k];
                &&& l.frame() == LedState::dark()
                &&& l.button() == ButtonState::Idle
                &&& l.lock() is None
                &&& forall|s: ButtonState| (#[trigger] l.queue(s)).is_fresh()
            },
    {
        let mut leds = leds_new();
        let mut i: usize = 0;
        while i < LED_STATE_QUEUE_SIZE
            invariant
                i <= 16,
                leds_of(leds).len() == i,
                forall|k: int| 0 <= k < i ==> {
                    let l = #[trigger] leds_of(leds)[k];
                    &&& l.wf()
                    &&& l.frame() == LedState::dark()
                    &&& l.button() == ButtonState::Idle
                    &&& l.lock() is None
                    &&& forall|s: ButtonState| (#[trigger] l.queue(s)).is_fresh()
                },
            decreases 16 - i,
        {
            leds_push(&mut leds, RGBLed::new());
            i += 1;
        }
        let r = RGBLeds { start_frame: [0; 4], leds, end_frame: [0; 4] };
        assert(r.start_frame@ =~= seq![0u8, 0u8, 0u8, 0u8]);
        assert(r.end_frame@ =~= seq![0u8, 0u8, 0u8, 0u8]);
        r
    }

    /// Sets every LED to show `colour` at `brightness` while idle: each
    /// queue is emptied and slot 0 of the idle queue holds a solid that
    /// never ends.
    pub fn full(&mut self, brightness: u8, colour: Colour)
        requires
            old(self).wf(),
        ensures
            final(self).wf(),
            forall|k: int| 0 <= k < 16 ==> old(self).leds()[k].filled(
                &#[trigger] final(self).leds()[k],
                Transition::Solid { brightness, colour, duration_ticks: 0, next: 0 },
            ),
    {
        let ghost start = *self;
        let ghost t = Transition::Solid { brightness, colour, duration_ticks: 0, next: 0 };
        let mut i: usize = 0;
        while i < LED_STATE_QUEUE_SIZE
            invariant
                i <= 16,
                self.wf(),
                t == (Transition::Solid { brightness, colour, duration_ticks: 0, next: 0 }),
                forall|k: int| 0 <= k < i ==> start.leds()[k].filled(&#[trigger] self.leds()[k], t),
                forall|k: int| i <= k < 16 ==> #[trigger] self.leds()[k] == start.leds()[k],
            decreases 16 - i,
        {
            let led = leds_at_mut(&mut self.leds, i);
            led.clear_all_states();
            let ghost mid = *led;
            led.add_state(0, solid(brightness, colour, 0, 0), ButtonState::Idle);
            let ghost post = *led;
            proof {
                assert forall|s: ButtonState| s != ButtonState::Idle implies (#[trigger] post.queue(s)).is_fresh() by {
                    assert(post.queue(s) == mid.queue(s));
                }
                assert(mid.queue(ButtonState::Idle).is_fresh());
                assert(post.queue(ButtonState::Idle).slots() == mid.queue(ButtonState::Idle).slots().update(0int % 16, t));
                assert(start.leds()[i as int].filled(&post, t));
            }
            i += 1;
        }
    }

    /// Empties every queue of every LED.
    pub fn clear_all(&mut self)
        requires
            old(self).wf(),
        ensures
            final(self).wf(),
            forall|k: int| 0 <= k < 16 ==> old(self).leds()[k].all_cleared(&#[trigger] final(self).leds()[k]),
    {
        let ghost start = *self;
        let mut i: usize = 0;
        while i < LED_STATE_QUEUE_SIZE
            invariant
                i <= 16,
                self.wf(),
                forall|k: int| 0 <= k < i ==> start.leds()[k].all_cleared(&#[trigger] self.leds()[k]),
                forall|k: int| i <= k < 16 ==> #[trigger] self.leds()[k] == start.leds()[k],
            decreases 16 - i,
        {
            let led = leds_at_mut(&mut self.leds, i);
            led.clear_all_states();
            i += 1;
        }
    }

    /// Empties the listed queues of LED `index`, taken modulo 16.
    pub fn clear(&mut self, index: usize, states: &[ButtonState])
        requires
            old(self).wf(),
        ensures
            old(self).same_but(final(self), index as int % 16),
            old(self).leds()[index as int % 16].clear_post(&final(self).leds()[index as int % 16], states@),
    {
        let led = leds_at_mut(&mut self.leds, index % LED_STATE_QUEUE_SIZE);
        led.clear(states);
    }

    /// Puts `transition` in slot `state_idx` of LED `i`'s queue for `for_state`.
    pub fn add_state(&mut self, i: usize, state_idx: usize, transition: Transition, for_state: ButtonState)
        requires
            old(self).wf(),
        ensures
            old(self).same_but(final(self), i as int % 16),
            old(self).leds()[i as int % 16].add_post(
                &final(self).leds()[i as int % 16],
                state_idx as int,
                transition,
                for_state,
            ),
    {
        let led = leds_at_mut(&mut self.leds, i % LED_STATE_QUEUE_SIZE);
        led.add_state(state_idx, transition, for_state);
    }

    /// Puts the forwarder back in slot `state_idx` of LED `i`'s queue for `from_state`.
    pub fn remove_state(&mut self, i: usize, state_idx: usize, from_state: ButtonState)
        requires
            old(self).wf(),
        ensures
            old(self).same_but(final(self), i as int % 16),
            old(self).leds()[i as int % 16].remove_post(
                &final(self).leds()[i as int % 16],
                state_idx as int,
                from_state,
            ),
    {
        let led = leds_at_mut(&mut self.leds, i % LED_STATE_QUEUE_SIZE);
        led.remove_state(state_idx, from_state);
    }

    /// Tells LED `i` the state of the button over it.
    pub fn set_button_state(&mut self, i: usize, new_state: ButtonState)
        requires
            old(self).wf(),
        ensures
            old(self).same_but(final(self), i as int % 16),
            old(self).leds()[i as int % 16].set_button_post(&final(self).leds()[i as int % 16], new_state),
    {
        let led = leds_at_mut(&mut self.leds, i % LED_STATE_QUEUE_SIZE);
        led.set_button_state(new_state);
    }

    pub fn lock_led_state(&mut self, index: usize, state: ButtonState)
        requires
            old(self).wf(),
        ensures
            old(self).same_but(final(self), index as int % 16),
            old(self).leds()[index as int % 16].lock_post(&final(self).leds()[index as int % 16], Some(state)),
    {
        let led = leds_at_mut(&mut self.leds, index % LED_STATE_QUEUE_SIZE);
        led.lock_state(state);
    }

    pub fn unlock_led_state(&mut self, index: usize)
        requires
            old(self).wf(),
        ensures
            old(self).same_but(final(self), index as int % 16),
            old(self).leds()[index as int % 16].lock_post(&final(self).leds()[index as int % 16], None),
    {
        let led = leds_at_mut(&mut self.leds, index % LED_STATE_QUEUE_SIZE);
        led.unlock_state();
    }

    /// The packet for the strip: the start marker, one record per LED in
    /// order, the end marker.
    pub open spec fn packet(&self) -> Seq<u8> {
        seq![0u8, 0u8, 0u8, 0u8] + Seq::new(64, |n: int| record(self.leds()[n / 4].frame())[n % 4])
            + seq![0u8, 0u8, 0u8, 0u8]
    }

    /// Renders every LED once, in order, and returns the packet to transmit.
    pub fn refresh(&mut self) -> (r: Vec<u8>)
        requires
            old(self).wf(),
        ensures
            final(self).wf(),
            forall|k: int| 0 <= k < 16 ==> old(self).leds()[k].run_post(&#[trigger] final(self).leds()[k]),
            r@ == final(self).packet(),
    {
        let ghost start = *self;
        let mut out: Vec<u8> = Vec::new();
        let mut m: usize = 0;
        while m < 4
            invariant
                m <= 4,
                out@ == Seq::new(m as nat, |n: int| 0u8),
                self.markers_zero(),
            decreases 4 - m,
        {
            out.push(self.start_frame[m]);
            m += 1;
        }
        let mut i: usize = 0;
        while i < LED_STATE_QUEUE_SIZE
            invariant
                i <= 16,
                self.wf(),
                forall|k: int| 0 <= k < i ==> start.leds()[k].run_post(&#[trigger] self.leds()[k]),
                forall|k: int| i <= k < 16 ==> #[trigger] self.leds()[k] == start.leds()[k],
                out@.len() == 4 + 4 * i,
                forall|n: int| 0 <= n < 4 ==> out@[n] == 0,
                forall|j: int, c: int|
                    0 <= j < i && 0 <= c < 4 ==> #[trigger] out@[4 + 4 * j + c] == record(self.leds()[j].frame())[c],
            decreases 16 - i,
        {
            let led = leds_at_mut(&mut self.leds, i);
            let f = led.run();
            out.push(f.brightness | 0xe0);
            out.push(f.b);
            out.push(f.g);
            out.push(f.r);
            i += 1;
        }
        let mut m: usize = 0;
        while m < 4
            invariant
                m <= 4,
                out@.len() == 68 + m,
                forall|n: int| 0 <= n < 4 ==> out@[n] == 0,
                forall|j: int, c: int|
                    0 <= j < 16 && 0 <= c < 4 ==> #[trigger] out@[4 + 4 * j + c] == record(self.leds()[j].frame())[c],
                forall|n: int| 68 <= n < 68 + m ==> out@[n] == 0,
                self.markers_zero(),
            decreases 4 - m,
        {
            out.push(self.end_frame[m]);
            m += 1;
        }
        assert forall|n: int| 4 <= n < 68 implies out@[n] == self.packet()[n] by {
            let j = (n - 4) / 4;
            let c = (n - 4) % 4;
            assert(n == 4 + 4 * j + c);
            assert(out@[4 + 4 * j + c] == record(self.leds()[j].frame())[c]);
        }
        assert(out@ =~= self.packet());
        out
    }
}

/// A queue that holds no animation moves from each slot to the next, one
/// slot per tick, showing nothing, and wraps from slot 15 to slot 0.
pub proof fn lemma_untouched_queue_cycles(q: LedStateQueue)
    requires
        q.wf(),
        q.slots() == default_slots(),
    ensures
        q.step() == (None::<LedState>, (q.cursor() + 1) % 16, 0int),
{
}

/// A transition put in one slot changes nothing while the cursor stands
/// elsewhere: the queue steps exactly as it did without it.
pub proof fn lemma_insert_waits_for_cursor(q: LedStateQueue, p: LedStateQueue, slot: int, t: Transition)
    requires
        q.wf(),
        p.wf(),
        0 <= slot < 16,
        p.slots() == q.slots().update(slot, t),
        p.cursor() == q.cursor(),
        p.ticks() == q.ticks(),
        q.cursor() != slot,
    ensures
        p.step() == q.step(),
{
}

/// A lock decides which queue is played whatever the button reports: after
/// locking to `locked` and being told any state, the LED still plays the
/// queue of `locked` and keeps its button bookkeeping; after unlocking and
/// being told `pressed`, it plays the queue of `pressed`.
pub proof fn lemma_lock_overrides_button(
    a: RGBLed,
    b: RGBLed,
    c: RGBLed,
    d: RGBLed,
    e: RGBLed,
    locked: ButtonState,
    told: ButtonState,
    pressed: ButtonState,
)
    requires
        a.lock_post(&b, Some(locked)),
        b.set_button_post(&c, told),
        c.lock_post(&d, None),
        d.set_button_post(&e, pressed),
    ensures
        c.governing() == locked,
        c.button() == a.button(),
        forall|s: ButtonState| #[trigger] c.queue(s) == a.queue(s),
        e.governing() == pressed,
{
}

impl RGBLed {
    /// `post` is `self` with the slots of each state's queue replaced by
    /// `slots` of that state; frame, button, lock, cursors and tick counts
    /// are kept.
    pub open spec fn reslotted(&self, post: &RGBLed, slots: spec_fn(ButtonState) -> Seq<Transition>) -> bool {
        &&& post.wf()
        &&& post.frame() == self.frame()
        &&& post.button() == self.button()
        &&& post.lock() == self.lock()
        &&& forall|s: ButtonState| #[trigger] post.queue(s).slots() == slots(s)
        &&& forall|s: ButtonState| #[trigger] post.queue(s).cursor() == self.queue(s).cursor()
        &&& forall|s: ButtonState| #[trigger] post.queue(s).ticks() == self.queue(s).ticks()
    }
}

} // verus!
