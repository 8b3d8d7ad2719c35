//! Transitions: what one animation slot shows as a function of the ticks
//! spent in it.
use vstd::prelude::*;

use crate::rgbleds::LedState;
use crate::serial_protocol::ParseError;
use crate::Colour;

verus! {

/// An index into an animation queue.
pub type TransitionIndex = usize;

/// A transition, held as its kind and its numeric parameters.
#[derive(Clone, Copy, Debug, PartialEq, Eq, Structural)]
pub enum Transition {
    /// A constant frame for `duration_ticks` ticks, forever when that is 0.
    Solid { brightness: u8, colour: Colour, duration_ticks: usize, next: TransitionIndex },
    /// Brightness falling linearly from `brightness & 0x1f` to 0.
    FadeOut { brightness: u8, colour: Colour, duration_ticks: usize, next: TransitionIndex },
    /// Brightness rising linearly from 0 to `brightness & 0x1f`.
    FadeIn { brightness: u8, colour: Colour, duration_ticks: usize, next: TransitionIndex },
    /// Nothing to show: finishes at once and moves on to `next`.
    Forward { next: TransitionIndex },
}

/// What a transition gives at one tick.
#[derive(Clone, Copy, Debug, PartialEq, Eq, Structural)]
pub enum TransitionResult {
    InProgress(LedState),
    Finished(TransitionIndex),
}

/// The five brightness bits of a brightness byte.
pub open spec fn level(b: u8) -> int {
    (b & 0x1f) as int
}

/// The share of `lvl` reached after `t` of `d` ticks, rounded down.
pub open spec fn fade_part(t: int, lvl: int, d: int) -> int {
    t * lvl / d
}

impl Transition {
    /// The result of the transition after `t` ticks.
    pub open spec fn spec_at(&self, t: int) -> TransitionResult {
        match *self {
            Transition::Solid { brightness, colour, duration_ticks, next } => {
                if duration_ticks == 0 || t < duration_ticks {
                    TransitionResult::InProgress(LedState::frame(brightness, colour))
                } else {
                    TransitionResult::Finished(next)
                }
            },
            Transition::FadeOut { brightness, colour, duration_ticks, next } => {
                if t < duration_ticks {
                    TransitionResult::InProgress(
                        LedState::frame(
                            (level(brightness) - fade_part(t, level(brightness), duration_ticks as int)) as u8,
                            colour,
                        ),
                    )
                } else {
                    TransitionResult::Finished(next)
                }
            },
            Transition::FadeIn { brightness, colour, duration_ticks, next } => {
                if t < duration_ticks {
                    TransitionResult::InProgress(
                        LedState::frame(
                            fade_part(t, level(brightness), duration_ticks as int) as u8,
                            colour,
                        ),
                    )
                } else {
                    TransitionResult::Finished(next)
                }
            },
            Transition::Forward { next } => TransitionResult::Finished(next),
        }
    }

    /// Evaluates the transition after `counter` ticks.
    pub fn at(&self, counter: usize) -> (r: TransitionResult)
        ensures
            r == self.spec_at(counter as int),
    {
        match *self {
            Transition::Solid { brightness, colour, duration_ticks, next } => {
                if duration_ticks == 0 || counter < duration_ticks {
                    TransitionResult::InProgress(LedState::new(brightness, &colour))
                } else {
                    TransitionResult::Finished(next)
                }
            },
            Transition::FadeOut { brightness, colour, duration_ticks, next } => {
                if counter < duration_ticks {
                    let lvl = brightness & 0x1f;
                    let part = scaled(counter, lvl, duration_ticks);
                    TransitionResult::InProgress(LedState::new(lvl - part, &colour))
                } else {
                    TransitionResult::Finished(next)
                }
            },
            Transition::FadeIn { brightness, colour, duration_ticks, next } => {
                if counter < duration_ticks {
                    let lvl = brightness & 0x1f;
                    let part = scaled(counter, lvl, duration_ticks);
                    TransitionResult::InProgress(LedState::new(part, &colour))
                } else {
                    TransitionResult::Finished(next)
                }
            },
            Transition::Forward { next } => TransitionResult::Finished(next),
        }
    }
}

proof fn lemma_fade_part_bounds(t: int, lvl: int, d: int)
    requires
        0 <= t < d,
        0 <= lvl,
    ensures
        0 <= fade_part(t, lvl, d) <= lvl,
{
    assert(0 <= t * lvl <= d * lvl) by (nonlinear_arith)
        requires
            0 <= t < d,
            0 <= lvl,
    ;
    assert(t * lvl / d <= lvl) by (nonlinear_arith)
        requires
            0 <= t * lvl <= d * lvl,
            0 < d,
    ;
    assert(0 <= t * lvl / d) by (nonlinear_arith)
        requires
            0 <= t * lvl,
            0 < d,
    ;
}

/// `counter * lvl / duration`, for a counter below the duration.
fn scaled(counter: usize, lvl: u8, duration: usize) -> (r: u8)
    requires
        counter < duration,
    ensures
        r as int == fade_part(counter as int, lvl as int, duration as int),
        r <= lvl,
{
    proof {
        lemma_fade_part_bounds(counter as int, lvl as int, duration as int);
        assert((counter as u128) * (lvl as u128) <= 0xffff_ffff_ffff_ffff_u128 * 0xff_u128)
            by (nonlinear_arith)
            requires
                counter <= 0xffff_ffff_ffff_ffff_u64,
                lvl <= 0xff,
        ;
    }
    let product: u128 = (counter as u128) * (lvl as u128);
    (product / (duration as u128)) as u8
}

/// A constant frame for `duration_ticks` ticks (forever when 0), then `transition_index`.
pub fn solid(
    brightness: u8,
    colour: Colour,
    duration_ticks: usize,
    transition_index: TransitionIndex,
) -> (r: Transition)
    ensures
        r == (Transition::Solid { brightness, colour, duration_ticks, next: transition_index }),
{
    Transition::Solid { brightness, colour, duration_ticks, next: transition_index }
}

/// A linear fade from `initial_brightness & 0x1f` down to 0 over `duration_ticks`.
pub fn fade_out(
    initial_brightness: u8,
    colour: Colour,
    duration_ticks: usize,
    transition_index: TransitionIndex,
) -> (r: Transition)
    ensures
        r == (Transition::FadeOut {
            brightness: initial_brightness,
            colour,
            duration_ticks,
            next: transition_index,
        }),
{
    Transition::FadeOut { brightness: initial_brightness, colour, duration_ticks, next: transition_index }
}

/// A linear fade from 0 up to `target_brightness & 0x1f` over `duration_ticks`.
pub fn fade_in(
    target_brightness: u8,
    colour: Colour,
    duration_ticks: usize,
    transition_index: TransitionIndex,
) -> (r: Transition)
    ensures
        r == (Transition::FadeIn {
            brightness: target_brightness,
            colour,
            duration_ticks,
            next: transition_index,
        }),
{
    Transition::FadeIn { brightness: target_brightness, colour, duration_ticks, next: transition_index }
}

/// The transition that an 8-byte wire descriptor describes: bits 4..6 of
/// byte 0 give the kind, the low nibble of byte 1 the next slot, byte 2 the
/// brightness, bytes 3..5 red, green and blue, and bytes 6..7 the duration,
/// big-endian.
pub open spec fn decoded(bytes: Seq<u8>) -> Result<Transition, ParseError> {
    let kind = (bytes[0] >> 4u8) & 0x7u8;
    let next = (bytes[1] & 0xfu8) as usize;
    let brightness = bytes[2];
    let colour = Colour { red: bytes[3], green: bytes[4], blue: bytes[5] };
    let duration_ticks = (bytes[6] as int * 256 + bytes[7] as int) as usize;
    if kind == 0 {
        Ok(Transition::Solid { brightness, colour, duration_ticks, next })
    } else if kind == 1 {
        Ok(Transition::FadeOut { brightness, colour, duration_ticks, next })
    } else if kind == 2 {
        Ok(Transition::FadeIn { brightness, colour, duration_ticks, next })
    } else {
        Err(ParseError::InvalidData)
    }
}

pub fn transition_function_try_from_bytes(bytes: &[u8; 8]) -> (r: Result<Transition, ParseError>)
    ensures
        r == decoded(bytes@),
{
    let kind = (bytes[0] >> 4) & 0b0111;
    let next_state = bytes[1] & 0b00001111;
    let brightness = bytes[2];
    let colour = Colour::rgb(bytes[3], bytes[4], bytes[5]);
    let duration_ticks = (bytes[6] as usize) * 256 + bytes[7] as usize;
    if kind == 0 {
        Ok(solid(brightness, colour, duration_ticks, next_state as usize))
    } else if kind == 1 {
        Ok(fade_out(brightness, colour, duration_ticks, next_state as usize))
    } else if kind == 2 {
        Ok(fade_in(brightness, colour, duration_ticks, next_state as usize))
    } else {
        Err(ParseError::InvalidData)
    }
}

/// A solid transition of duration 0 never finishes.
pub proof fn lemma_solid_forever(brightness: u8, colour: Colour, next: TransitionIndex, t: int)
    requires
        t >= 0,
    ensures
        (Transition::Solid { brightness, colour, duration_ticks: 0, next }.spec_at(t) is InProgress),
{
}

} // verus!
