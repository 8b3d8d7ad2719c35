//! Ready-made animations, set up through the board's queue operations.
use vstd::prelude::*;

use rand::rngs::SmallRng;
use rand::RngCore;

use crate::board::Board;
use crate::rgbleds::RGBLed;
use crate::transitions::{fade_in, fade_out, solid, Transition};
use crate::{ButtonState, Colour};

verus! {

#[verifier::external_type_specification]
#[verifier::external_body]
pub struct ExSmallRng(SmallRng);

/// Relies on rand's SmallRng::next_u32 (through RngCore): some 32-bit
/// number, of which nothing more is promised.
#[verifier::external_body]
pub(crate) fn next_u32(rng: &mut SmallRng) -> u32 {
    rng.next_u32()
}

impl Colour {
    /// A colour whose channels are the low bytes of three random draws.
    pub fn random(rng: &mut SmallRng) -> Colour {
        let red = next_u32(rng) as u8;
        let green = next_u32(rng) as u8;
        let blue = next_u32(rng) as u8;
        Colour::rgb(red, green, blue)
    }
}

/// The brightness byte that the animations use.
pub const BRIGHT: u8 = 0b11110000;

/// The slots of `q` with `writes` put in slots 0, 1, ... in order.
pub open spec fn with_prefix(q: Seq<Transition>, writes: Seq<Transition>) -> Seq<Transition> {
    Seq::new(q.len(), |n: int| if n < writes.len() { writes[n] } else { q[n] })
}

/// Only LED `k` changed, to `post`: `l` with its queues as `slots` says.
pub open spec fn led_rewritten(pre: Board, post: Board, k: int, slots: spec_fn(ButtonState) -> Seq<Transition>) -> bool {
    &&& pre.same_but_led(&post, k)
    &&& pre.leds()[k].reslotted(&post.leds()[k], slots)
}

/// The slots of a breathing loop: fade out, stay dark, fade in, stay lit,
/// each for `speed` ticks.
pub open spec fn breathing_slots(colour: Colour, speed: usize) -> Seq<Transition> {
    seq![
        Transition::FadeOut { brightness: BRIGHT, colour, duration_ticks: speed, next: 1 },
        Transition::Solid { brightness: 0, colour, duration_ticks: speed, next: 2 },
        Transition::FadeIn { brightness: BRIGHT, colour, duration_ticks: speed, next: 3 },
        Transition::Solid { brightness: BRIGHT, colour, duration_ticks: speed, next: 0 },
    ]
}

/// Replaces `slots` of `s`, leaves every other queue of `l` as it was.
pub open spec fn only(l: RGBLed, s: ButtonState, slots: Seq<Transition>) -> spec_fn(ButtonState) -> Seq<Transition> {
    |t: ButtonState| if t == s { with_prefix(l.queue(s).slots(), slots) } else { l.queue(t).slots() }
}

/// Sets LED `led_index` to breathe in `colour` while in `state`: slots 0
/// to 3 of that queue hold a loop of fade out, dark, fade in and lit.
pub fn breathing(board: &mut Board, led_index: usize, state: ButtonState, colour: Colour, speed: usize)
    requires
        old(board).wf(),
    ensures
        final(board).wf(),
        led_rewritten(
            *old(board),
            *final(board),
            led_index as int % 16,
            only(old(board).leds()[led_index as int % 16], state, breathing_slots(colour, speed)),
        ),
{
    let ghost k = led_index as int % 16;
    let ghost l = board.leds()[k];
    board.add_led_state(led_index, 0, fade_out(BRIGHT, colour, speed, 1), state);
    board.add_led_state(led_index, 1, solid(0x00, colour, speed, 2), state);
    board.add_led_state(led_index, 2, fade_in(BRIGHT, colour, speed, 3), state);
    board.add_led_state(led_index, 3, solid(BRIGHT, colour, speed, 0), state);
    proof {
        let m = board.leds()[k];
        assert(m.queue(state).slots() =~= with_prefix(l.queue(state).slots(), breathing_slots(colour, speed)));
    }
}

/// The LEDs of the ring, in the order the light runs round it.
pub open spec fn circle_order() -> Seq<usize> {
    seq![0usize, 1, 2, 3, 7, 11, 15, 14, 13, 12, 8, 4]
}

/// The place of LED `k` on the ring, or -1 for the LEDs inside it.
pub open spec fn circle_pos(k: int) -> int {
    if k == 0 { 0 }
    else if k == 1 { 1 }
    else if k == 2 { 2 }
    else if k == 3 { 3 }
    else if k == 7 { 4 }
    else if k == 11 { 5 }
    else if k == 15 { 6 }
    else if k == 14 { 7 }
    else if k == 13 { 8 }
    else if k == 12 { 9 }
    else if k == 8 { 10 }
    else if k == 4 { 11 }
    else { -1 }
}

/// The idle slots of the LED at place `idx` of the ring: dark while those
/// before it light up, a fade in, lit until the whole ring is lit, lit
/// again while those before it go dark, a fade out, dark until the ring is
/// dark; then round again.
pub open spec fn circle_slots(colour: Colour, speed: usize, idx: int) -> Seq<Transition> {
    seq![
        Transition::Solid { brightness: 0x00, colour, duration_ticks: ((idx + 1) * speed) as usize, next: 1 },
        Transition::FadeIn { brightness: BRIGHT, colour, duration_ticks: speed, next: 2 },
        Transition::Solid { brightness: BRIGHT, colour, duration_ticks: ((12 - idx) * speed) as usize, next: 3 },
        Transition::Solid { brightness: BRIGHT, colour, duration_ticks: ((idx + 1) * speed) as usize, next: 4 },
        Transition::FadeOut { brightness: BRIGHT, colour, duration_ticks: speed, next: 5 },
        Transition::Solid { brightness: 0x0, colour, duration_ticks: ((12 - idx) * speed) as usize, next: 0 },
    ]
}

/// Sets the twelve LEDs of the ring to light up and go dark one after the
/// other, `speed` ticks apart, while idle. The four LEDs inside the ring
/// are left as they were.
pub fn loading_circle(board: &mut Board, colour: Colour, speed: usize)
    requires
        old(board).wf(),
        speed * 12 <= usize::MAX,
    ensures
        final(board).wf(),
        old(board).same_inputs(final(board)),
        final(board).keyboard_enabled() == old(board).keyboard_enabled(),
        forall|k: int|
            0 <= k < 16 ==> if circle_pos(k) >= 0 {
                old(board).leds()[k].reslotted(
                    &#[trigger] final(board).leds()[k],
                    only(old(board).leds()[k], ButtonState::Idle, circle_slots(colour, speed, circle_pos(k))),
                )
            } else {
                final(board).leds()[k] == old(board).leds()[k]
            },
{
    let ghost start = *board;
    let order: [usize; 12] = [0, 1, 2, 3, 7, 11, 15, 14, 13, 12, 8, 4];
    assert(order@ =~= circle_order());
    let mut idx: usize = 0;
    while idx < 12
        invariant
            idx <= 12,
            speed * 12 <= usize::MAX,
            order@ == circle_order(),
            board.wf(),
            start.same_inputs(board),
            board.keyboard_enabled() == start.keyboard_enabled(),
            forall|k: int|
                0 <= k < 16 ==> if 0 <= circle_pos(k) < idx {
                    start.leds()[k].reslotted(
                        &#[trigger] board.leds()[k],
                        only(start.leds()[k], ButtonState::Idle, circle_slots(colour, speed, circle_pos(k))),
                    )
                } else {
                    board.leds()[k] == start.leds()[k]
                },
        decreases 12 - idx,
    {
        let i = order[idx];
        proof {
            assert(circle_pos(i as int) == idx);
            assert((idx + 1) * speed <= 12 * speed) by (nonlinear_arith)
                requires
                    idx < 12,
            ;
            assert((12 - idx) * speed <= 12 * speed) by (nonlinear_arith)
                requires
                    idx < 12,
            ;
        }
        let ghost before = *board;
        let ghost l = board.leds()[i as int];
        board.add_led_state(i, 0, solid(0x00, colour, (idx + 1) * speed, 1), ButtonState::Idle);
        board.add_led_state(i, 1, fade_in(BRIGHT, colour, speed, 2), ButtonState::Idle);
        board.add_led_state(i, 2, solid(BRIGHT, colour, (12 - idx) * speed, 3), ButtonState::Idle);
        board.add_led_state(i, 3, solid(BRIGHT, colour, (idx + 1) * speed, 4), ButtonState::Idle);
        board.add_led_state(i, 4, fade_out(BRIGHT, colour, speed, 5), ButtonState::Idle);
        board.add_led_state(i, 5, solid(0x0, colour, (12 - idx) * speed, 0), ButtonState::Idle);
        proof {
            let m = board.leds()[i as int];
            assert(m.queue(ButtonState::Idle).slots() =~= with_prefix(
                l.queue(ButtonState::Idle).slots(),
                circle_slots(colour, speed, idx as int),
            ));
            assert(l == start.leds()[i as int]);
            assert forall|k: int| 0 <= k < 16 && k != i implies #[trigger] board.leds()[k] == before.leds()[k] by {}
        }
        idx += 1;
    }
}

/// The idle slots of a random fade: fade out, dark for `timeout`, fade in,
/// lit for `timeout`, round again.
pub open spec fn fade_idle_slots(colour: Colour, timeout: usize) -> Seq<Transition> {
    seq![
        Transition::FadeOut { brightness: BRIGHT, colour, duration_ticks: 500, next: 1 },
        Transition::Solid { brightness: 0x00, colour, duration_ticks: timeout, next: 2 },
        Transition::FadeIn { brightness: BRIGHT, colour, duration_ticks: 500, next: 3 },
        Transition::Solid { brightness: BRIGHT, colour, duration_ticks: timeout, next: 0 },
    ]
}

/// The pressed slots of a random fade: a flash of the inverted colour that
/// fades out and stays dark.
pub open spec fn fade_pressed_slots(inverted: Colour) -> Seq<Transition> {
    seq![
        Transition::Solid { brightness: 0xff, colour: inverted, duration_ticks: 100, next: 1 },
        Transition::FadeOut { brightness: 0xff, colour: inverted, duration_ticks: 250, next: 2 },
        Transition::Solid { brightness: 0x00, colour: inverted, duration_ticks: 0, next: 0 },
    ]
}

/// The queues of `l` after a random fade in `colour` with `timeout`.
pub open spec fn fade_slots(l: RGBLed, colour: Colour, timeout: usize) -> spec_fn(ButtonState) -> Seq<Transition> {
    |t: ButtonState|
        if t == ButtonState::Idle {
            with_prefix(l.queue(t).slots(), fade_idle_slots(colour, timeout))
        } else if t == ButtonState::Pressed {
            with_prefix(
                l.queue(t).slots(),
                fade_pressed_slots(Colour { red: !colour.red, green: !colour.green, blue: !colour.blue }),
            )
        } else {
            l.queue(t).slots()
        }
}

/// Sets LED `i` to fade in and out in `colour`, resting `timeout` ticks
/// dark and lit, and to flash the inverted colour when pressed.
pub fn random_fade(board: &mut Board, i: usize, colour: Colour, timeout: usize)
    requires
        old(board).wf(),
    ensures
        final(board).wf(),
        led_rewritten(*old(board), *final(board), i as int % 16, fade_slots(old(board).leds()[i as int % 16], colour, timeout)),
{
    let ghost l = board.leds()[i as int % 16];
    let inverted = colour.invert();
    board.add_led_state(i, 0, fade_out(BRIGHT, colour, 500, 1), ButtonState::Idle);
    board.add_led_state(i, 1, solid(0x00, colour, timeout, 2), ButtonState::Idle);
    board.add_led_state(i, 2, fade_in(BRIGHT, colour, 500, 3), ButtonState::Idle);
    board.add_led_state(i, 3, solid(BRIGHT, colour, timeout, 0), ButtonState::Idle);
    board.add_led_state(i, 0, solid(0xff, inverted, 100, 1), ButtonState::Pressed);
    board.add_led_state(i, 1, fade_out(0xff, inverted, 250, 2), ButtonState::Pressed);
    board.add_led_state(i, 2, solid(0x00, inverted, 0, 0), ButtonState::Pressed);
    proof {
        let m = board.leds()[i as int % 16];
        assert(m.queue(ButtonState::Idle).slots() =~= with_prefix(
            l.queue(ButtonState::Idle).slots(),
            fade_idle_slots(colour, timeout),
        ));
        assert(m.queue(ButtonState::Pressed).slots() =~= with_prefix(
            l.queue(ButtonState::Pressed).slots(),
            fade_pressed_slots(inverted),
        ));
    }
}

/// Each LED `k` has a fade in `colours[k]` with a rest of `timeouts[k]`
/// ticks, at most 6553, where it had its old queues.
pub open spec fn faded_with(pre: Board, post: Board, colours: Seq<Colour>, timeouts: Seq<usize>) -> bool {
    &&& colours.len() == 16
    &&& timeouts.len() == 16
    &&& forall|k: int|
        0 <= k < 16 ==> {
            &&& timeouts[k] <= 6553
            &&& pre.leds()[k].reslotted(
                &#[trigger] post.leds()[k],
                fade_slots(pre.leds()[k], colours[k], timeouts[k]),
            )
        }
}

/// Gives every LED a random fade: a random colour, and a random rest of up
/// to 6553 ticks.
pub fn random_fades(board: &mut Board, small_rng: &mut SmallRng)
    requires
        old(board).wf(),
    ensures
        final(board).wf(),
        old(board).same_inputs(final(board)),
        final(board).keyboard_enabled() == old(board).keyboard_enabled(),
        exists|colours: Seq<Colour>, timeouts: Seq<usize>|
            faded_with(*old(board), *final(board), colours, timeouts),
{
    let ghost start = *board;
    let ghost mut colours: Seq<Colour> = Seq::empty();
    let ghost mut timeouts: Seq<usize> = Seq::empty();
    let mut i: usize = 0;
    while i < 16
        invariant
            i <= 16,
            board.wf(),
            start.same_inputs(board),
            board.keyboard_enabled() == start.keyboard_enabled(),
            start == *old(board),
            colours.len() == i,
            timeouts.len() == i,
            forall|k: int|
                0 <= k < 16 ==> if k < i {
                    &&& timeouts[k] <= 6553
                    &&& start.leds()[k].reslotted(
                        &#[trigger] board.leds()[k],
                        fade_slots(start.leds()[k], colours[k], timeouts[k]),
                    )
                } else {
                    board.leds()[k] == start.leds()[k]
                },
        decreases 16 - i,
    {
        let timeout = (next_u32(small_rng) as u16 as usize) / 10;
        let colour = Colour::random(small_rng);
        let ghost before = *board;
        random_fade(board, i, colour, timeout);
        proof {
            assert forall|k: int| 0 <= k < 16 && k != i implies #[trigger] board.leds()[k] == before.leds()[k] by {}
            let old_colours = colours;
            let old_timeouts = timeouts;
            colours = colours.push(colour);
            timeouts = timeouts.push(timeout);
            assert forall|k: int| 0 <= k < i + 1 implies {
                &&& timeouts[k] <= 6553
                &&& start.leds()[k].reslotted(
                    &#[trigger] board.leds()[k],
                    fade_slots(start.leds()[k], colours[k], timeouts[k]),
                )
            } by {
                if k < i {
                    assert(colours[k] == old_colours[k]);
                    assert(timeouts[k] == old_timeouts[k]);
                    assert(board.leds()[k] == before.leds()[k]);
                    assert(start.leds()[k].reslotted(
                        &before.leds()[k],
                        fade_slots(start.leds()[k], old_colours[k], old_timeouts[k]),
                    ));
                }
            }
        }
        i += 1;
    }
    assert forall|k: int| 0 <= k < 16 implies #[trigger] timeouts[k] <= 6553 by {
        assert(start.leds()[k].reslotted(&board.leds()[k], fade_slots(start.leds()[k], colours[k], timeouts[k])));
    }
    assert(faded_with(start, *board, colours, timeouts));
}

} // verus!
