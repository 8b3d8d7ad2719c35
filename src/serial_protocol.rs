//! The 10-byte command frames of the serial channel: one command byte,
//! eight payload bytes and a terminator.
use vstd::prelude::*;

use crate::board::{Board, BoardAction};
use crate::transitions::{decoded, transition_function_try_from_bytes, Transition};
use crate::ButtonState;

verus! {

/// The terminator that every frame must end with.
pub const END_OF_STREAM: u8 = 0x80;

/// The length of every frame.
pub const MESSAGE_LENGTH: usize = 10;

/// One frame of the serial channel.
#[derive(Clone, Copy, Debug)]
pub struct SerialMessage {
    command: SerialCommand,
    data: [u8; 8],
    end_byte: SerialCommand,
}

impl SerialMessage {
    pub closed spec fn spec_command(&self) -> SerialCommand {
        self.command
    }

    pub closed spec fn spec_data(&self) -> Seq<u8> {
        self.data@
    }

    pub closed spec fn spec_end_byte(&self) -> SerialCommand {
        self.end_byte
    }

    /// The ten bytes of the frame on the wire.
    pub open spec fn wire(&self) -> Seq<u8> {
        seq![self.spec_command().code()] + self.spec_data() + seq![self.spec_end_byte().code()]
    }

    pub fn new(command: SerialCommand, data: [u8; 8], end_byte: SerialCommand) -> (r: Self)
        ensures
            r.spec_command() == command,
            r.spec_data() == data@,
            r.spec_end_byte() == end_byte,
    {
        SerialMessage { command, data, end_byte }
    }

    /// The payload that an answer to `other` carries: its command byte and
    /// the first seven bytes of its payload.
    pub open spec fn echo(other: &SerialMessage) -> Seq<u8> {
        seq![other.spec_command().code()] + other.spec_data().subrange(0, 7)
    }

    fn echo_of(other: &SerialMessage) -> (r: [u8; 8])
        ensures
            r@ == Self::echo(other),
    {
        let r = [
            other.command.to_u8(),
            other.data[0],
            other.data[1],
            other.data[2],
            other.data[3],
            other.data[4],
            other.data[5],
            other.data[6],
        ];
        assert(r@ =~= Self::echo(other));
        r
    }

    /// The acknowledgement of `other`.
    pub fn ack_to(other: &SerialMessage) -> (r: Self)
        ensures
            r.spec_command() == SerialCommand::Ack,
            r.spec_data() == Self::echo(other),
            r.spec_end_byte() == SerialCommand::EndOfStream,
    {
        SerialMessage {
            command: SerialCommand::Ack,
            data: Self::echo_of(other),
            end_byte: SerialCommand::EndOfStream,
        }
    }

    /// A refusal of `other` for the reason `nack_type`.
    pub fn nack_to_message(other: &SerialMessage, nack_type: NackType) -> (r: Self)
        ensures
            r.spec_command() == nack_type.command(),
            r.spec_data() == Self::echo(other),
            r.spec_end_byte() == SerialCommand::EndOfStream,
    {
        let command = match nack_type {
            NackType::General => SerialCommand::NackGeneral,
            NackType::InvalidCommand => SerialCommand::NackInvalidCommand,
            NackType::NackParseError => SerialCommand::NackParseError,
            NackType::DeviceError => SerialCommand::NackDeviceError,
            NackType::DeviceBusy => SerialCommand::NackDeviceBusy,
        };
        SerialMessage { command, data: Self::echo_of(other), end_byte: SerialCommand::EndOfStream }
    }

    /// The refusal of a frame that could not be read: the payload names the
    /// error and echoes the command byte received.
    pub fn nack_from_error(parse_error: ParseError, command_byte: u8) -> (r: Self)
        ensures
            r.spec_command() == SerialCommand::NackParseError,
            r.spec_data() == seq![parse_error.spec_code(), command_byte, 0u8, 0u8, 0u8, 0u8, 0u8, 0u8],
            r.spec_end_byte() == SerialCommand::EndOfStream,
    {
        let data = [parse_error.code(), command_byte, 0, 0, 0, 0, 0, 0];
        assert(data@ =~= seq![parse_error.spec_code(), command_byte, 0u8, 0u8, 0u8, 0u8, 0u8, 0u8]);
        SerialMessage { command: SerialCommand::NackParseError, data, end_byte: SerialCommand::EndOfStream }
    }

    pub fn to_bytes(&self) -> (r: [u8; 10])
        ensures
            r@ == self.wire(),
    {
        let r = [
            self.command.to_u8(),
            self.data[0],
            self.data[1],
            self.data[2],
            self.data[3],
            self.data[4],
            self.data[5],
            self.data[6],
            self.data[7],
            self.end_byte.to_u8(),
        ];
        assert(r@ =~= self.wire());
        r
    }

    pub fn get_command(&self) -> (r: &SerialCommand)
        ensures
            *r == self.spec_command(),
    {
        &self.command
    }

    pub fn get_data(&self) -> (r: &[u8; 8])
        ensures
            r@ == self.spec_data(),
    {
        &self.data
    }

    pub fn get_end_byte(&self) -> (r: &SerialCommand)
        ensures
            *r == self.spec_end_byte(),
    {
        &self.end_byte
    }

    /// Reads a frame: the length is checked first, then the terminator, then
    /// the command byte.
    pub open spec fn parsed(value: Seq<u8>) -> Result<(SerialCommand, Seq<u8>), ParseError> {
        if value.len() != 10 {
            Err(ParseError::InvalidMessageLength)
        } else if value[9] != END_OF_STREAM {
            Err(ParseError::InvalidEndByte)
        } else {
            match SerialCommand::from_code(value[0]) {
                Some(c) => Ok((c, value.subrange(1, 9))),
                None => Err(ParseError::InvalidCommand),
            }
        }
    }

    pub fn try_from(value: &[u8]) -> (r: Result<SerialMessage, ParseError>)
        ensures
            match (r, Self::parsed(value@)) {
                (Ok(m), Ok((c, d))) => m.spec_command() == c && m.spec_data() == d
                    && m.spec_end_byte() == SerialCommand::EndOfStream,
                (Err(e), Err(f)) => e == f,
                _ => false,
            },
    {
        if value.len() != MESSAGE_LENGTH {
            return Err(ParseError::InvalidMessageLength);
        }
        if value[9] != END_OF_STREAM {
            return Err(ParseError::InvalidEndByte);
        }
        let command = match SerialCommand::try_from(value[0]) {
            Ok(command) => command,
            Err(_) => {
                return Err(ParseError::InvalidCommand);
            },
        };
        let data = [value[1], value[2], value[3], value[4], value[5], value[6], value[7], value[8]];
        assert(data@ =~= value@.subrange(1, 9));
        Ok(SerialMessage { command, data, end_byte: SerialCommand::EndOfStream })
    }
}

/// Why a frame was refused.
#[derive(Clone, Copy, Debug, PartialEq, Eq, Structural)]
pub enum NackType {
    General,
    InvalidCommand,
    NackParseError,
    DeviceError,
    DeviceBusy,
}

impl NackType {
    /// The command byte that carries this refusal.
    pub open spec fn command(&self) -> SerialCommand {
        match self {
            NackType::General => SerialCommand::NackGeneral,
            NackType::InvalidCommand => SerialCommand::NackInvalidCommand,
            NackType::NackParseError => SerialCommand::NackParseError,
            NackType::DeviceError => SerialCommand::NackDeviceError,
            NackType::DeviceBusy => SerialCommand::NackDeviceBusy,
        }
    }
}

/// Why a frame, or a transition descriptor in it, could not be read.
#[derive(Clone, Copy, Debug, PartialEq, Eq, Structural)]
pub enum ParseError {
    InvalidCommand,
    InvalidData,
    InvalidEndByte,
    InvalidMessageLength,
}

impl ParseError {
    pub open spec fn spec_code(&self) -> u8 {
        match self {
            ParseError::InvalidCommand => 0,
            ParseError::InvalidData => 1,
            ParseError::InvalidEndByte => 2,
            ParseError::InvalidMessageLength => 3,
        }
    }

    /// The number that names the error in a refusal's payload.
    pub fn code(&self) -> (r: u8)
        ensures
            r == self.spec_code(),
    {
        match self {
            ParseError::InvalidCommand => 0,
            ParseError::InvalidData => 1,
            ParseError::InvalidEndByte => 2,
            ParseError::InvalidMessageLength => 3,
        }
    }
}

/// The command byte of a frame. Ranges: 0x80..0x8f framing, 0x90..0x9f
/// sync, 0xa0..0xaf device control, 0xb0..0xbf state, 0xf0..0xff refusals,
/// ping and acknowledgement.
#[derive(Clone, Copy, Debug, PartialEq, Eq, Structural)]
pub enum SerialCommand {
    EndOfStream,
    ToBeContinued,
    SyncRequest,
    DeviceReset,
    DisableKeyboardInput,
    EnableKeyboardInput,
    AddState,
    RemoveState,
    ClearStates,
    LockButtonState,
    LockAllButtonStates,
    UnlockButtonState,
    UnlockAllButtonStates,
    NackGeneral,
    NackInvalidCommand,
    NackParseError,
    NackDeviceError,
    NackDeviceBusy,
    Reserved,
    Ping,
    Ack,
}

impl SerialCommand {
    pub open spec fn code(&self) -> u8 {
        match self {
            SerialCommand::EndOfStream => 0x80,
            SerialCommand::ToBeContinued => 0x81,
            SerialCommand::SyncRequest => 0x90,
            SerialCommand::DeviceReset => 0xa0,
            SerialCommand::DisableKeyboardInput => 0xa1,
            SerialCommand::EnableKeyboardInput => 0xa2,
            SerialCommand::AddState => 0xb0,
            SerialCommand::RemoveState => 0xb1,
            SerialCommand::ClearStates => 0xb2,
            SerialCommand::LockButtonState => 0xb3,
            SerialCommand::LockAllButtonStates => 0xb4,
            SerialCommand::UnlockButtonState => 0xb5,
            SerialCommand::UnlockAllButtonStates => 0xb6,
            SerialCommand::NackGeneral => 0xf0,
            SerialCommand::NackInvalidCommand => 0xf1,
            SerialCommand::NackParseError => 0xf2,
            SerialCommand::NackDeviceError => 0xf3,
            SerialCommand::NackDeviceBusy => 0xf4,
            SerialCommand::Reserved => 0xf9,
            SerialCommand::Ping => 0xfe,
            SerialCommand::Ack => 0xff,
        }
    }

    /// The command whose byte is `value`, if any.
    pub open spec fn from_code(value: u8) -> Option<SerialCommand> {
        if exists|c: SerialCommand| c.code() == value {
            Some(choose|c: SerialCommand| c.code() == value)
        } else {
            None
        }
    }

    pub fn to_u8(&self) -> (r: u8)
        ensures
            r == self.code(),
    {
        match self {
            SerialCommand::EndOfStream => 0x80,
            SerialCommand::ToBeContinued => 0x81,
            SerialCommand::SyncRequest => 0x90,
            SerialCommand::DeviceReset => 0xa0,
            SerialCommand::DisableKeyboardInput => 0xa1,
            SerialCommand::EnableKeyboardInput => 0xa2,
            SerialCommand::AddState => 0xb0,
            SerialCommand::RemoveState => 0xb1,
            SerialCommand::ClearStates => 0xb2,
            SerialCommand::LockButtonState => 0xb3,
            SerialCommand::LockAllButtonStates => 0xb4,
            SerialCommand::UnlockButtonState => 0xb5,
            SerialCommand::UnlockAllButtonStates => 0xb6,
            SerialCommand::NackGeneral => 0xf0,
            SerialCommand::NackInvalidCommand => 0xf1,
            SerialCommand::NackParseError => 0xf2,
            SerialCommand::NackDeviceError => 0xf3,
            SerialCommand::NackDeviceBusy => 0xf4,
            SerialCommand::Reserved => 0xf9,
            SerialCommand::Ping => 0xfe,
            SerialCommand::Ack => 0xff,
        }
    }

    /// The command whose byte is `value`, or the byte back when none is.
    pub fn try_from(value: u8) -> (r: Result<SerialCommand, u8>)
        ensures
            match Self::from_code(value) {
                Some(c) => r == Ok::<SerialCommand, u8>(c),
                None => r == Err::<SerialCommand, u8>(value),
            },
    {
        let r = match value {
            0x80 => Ok(SerialCommand::EndOfStream),
            0x81 => Ok(SerialCommand::ToBeContinued),
            0x90 => Ok(SerialCommand::SyncRequest),
            0xa0 => Ok(SerialCommand::DeviceReset),
            0xa1 => Ok(SerialCommand::DisableKeyboardInput),
            0xa2 => Ok(SerialCommand::EnableKeyboardInput),
            0xb0 => Ok(SerialCommand::AddState),
            0xb1 => Ok(SerialCommand::RemoveState),
            0xb2 => Ok(SerialCommand::ClearStates),
            0xb3 => Ok(SerialCommand::LockButtonState),
            0xb4 => Ok(SerialCommand::LockAllButtonStates),
            0xb5 => Ok(SerialCommand::UnlockButtonState),
            0xb6 => Ok(SerialCommand::UnlockAllButtonStates),
            0xf0 => Ok(SerialCommand::NackGeneral),
            0xf1 => Ok(SerialCommand::NackInvalidCommand),
            0xf2 => Ok(SerialCommand::NackParseError),
            0xf3 => Ok(SerialCommand::NackDeviceError),
            0xf4 => Ok(SerialCommand::NackDeviceBusy),
            0xf9 => Ok(SerialCommand::Reserved),
            0xfe => Ok(SerialCommand::Ping),
            0xff => Ok(SerialCommand::Ack),
            _ => Err(value),
        };
        proof {
            match r {
                Ok(c) => {
                    lemma_code_injective(c);
                },
                Err(_) => {
                    assert(!exists|c: SerialCommand| c.code() == value);
                },
            }
        }
        r
    }
}

/// Each command byte names one command.
proof fn lemma_code_injective(c: SerialCommand)
    ensures
        SerialCommand::from_code(c.code()) == Some(c),
{
    assert(forall|d: SerialCommand| #[trigger] d.code() == c.code() ==> d == c);
}

/// The button state that bit 7 of a payload's first byte names.
pub open spec fn state_of(byte: u8) -> ButtonState {
    if byte >= 0x80 {
        ButtonState::Pressed
    } else {
        ButtonState::Idle
    }
}

pub fn button_state_from_byte(byte: u8) -> (r: ButtonState)
    ensures
        r == state_of(byte),
{
    if byte >= 0x80 {
        ButtonState::Pressed
    } else {
        ButtonState::Idle
    }
}

/// What a command asks of the board. In the payload, the low nibble of
/// byte 0 is the LED, its bit 7 the button state, and the high nibble of
/// byte 1 the slot; an added transition is read from the whole payload.
pub open spec fn command_action(c: SerialCommand, d: Seq<u8>) -> Option<BoardAction> {
    let led = (d[0] & 0xfu8) as usize;
    let state = state_of(d[0]);
    let slot = (d[1] >> 4u8) as usize;
    match c {
        SerialCommand::DisableKeyboardInput => Some(BoardAction::DisableKeyboardInput),
        SerialCommand::EnableKeyboardInput => Some(BoardAction::EnableKeyboardInput),
        SerialCommand::LockButtonState => Some(BoardAction::LockLedState(led, state)),
        SerialCommand::LockAllButtonStates => Some(BoardAction::LockLedStates(state)),
        SerialCommand::UnlockButtonState => Some(BoardAction::UnlockLedState(led)),
        SerialCommand::UnlockAllButtonStates => Some(BoardAction::UnlockLedStates),
        SerialCommand::ClearStates => Some(BoardAction::ClearLedQueue(led, state)),
        SerialCommand::RemoveState => Some(BoardAction::RemoveLedState { led, slot, state }),
        SerialCommand::AddState => match decoded(d) {
            Ok(t) => Some(BoardAction::AddLedState { led, slot, transition: t, state }),
            Err(_) => None,
        },
        _ => None,
    }
}

/// Whether a frame may lead with this command.
pub open spec fn is_request(c: SerialCommand) -> bool {
    match c {
        SerialCommand::DeviceReset | SerialCommand::DisableKeyboardInput
        | SerialCommand::EnableKeyboardInput | SerialCommand::AddState
        | SerialCommand::RemoveState | SerialCommand::ClearStates
        | SerialCommand::LockButtonState | SerialCommand::LockAllButtonStates
        | SerialCommand::UnlockButtonState | SerialCommand::UnlockAllButtonStates
        | SerialCommand::Ping => true,
        _ => false,
    }
}

/// The answer to one frame, and whether the device resets once it is sent.
pub struct FrameReply {
    pub message: SerialMessage,
    pub reset: bool,
}

/// Handles one frame of the serial channel. A frame that cannot be read is
/// refused with the error and its command byte; a command that is no
/// request is refused as invalid; an added transition that cannot be read
/// is refused with that error. Otherwise the command's change is made on
/// the board, whole, and the frame is acknowledged; a reset is acknowledged
/// before it happens.
pub fn handle_frame(board: &mut Board, frame: &[u8]) -> (r: FrameReply)
    requires
        old(board).wf(),
    ensures
        final(board).wf(),
        match SerialMessage::parsed(frame@) {
            Err(e) => {
                &&& *final(board) == *old(board)
                &&& !r.reset
                &&& r.message.spec_command() == SerialCommand::NackParseError
                &&& r.message.spec_data() == seq![
                    e.spec_code(),
                    if frame@.len() > 0 { frame@[0] } else { 0u8 },
                    0u8, 0u8, 0u8, 0u8, 0u8, 0u8,
                ]
                &&& r.message.spec_end_byte() == SerialCommand::EndOfStream
            },
            Ok((c, d)) => if !is_request(c) {
                &&& *final(board) == *old(board)
                &&& !r.reset
                &&& r.message.spec_command() == SerialCommand::NackInvalidCommand
                &&& r.message.spec_data() == seq![c.code()] + d.subrange(0, 7)
                &&& r.message.spec_end_byte() == SerialCommand::EndOfStream
            } else if c == SerialCommand::AddState && decoded(d) is Err {
                &&& *final(board) == *old(board)
                &&& !r.reset
                &&& r.message.spec_command() == SerialCommand::NackParseError
                &&& r.message.spec_data() == seq![
                    decoded(d)->Err_0.spec_code(),
                    c.code(),
                    0u8, 0u8, 0u8, 0u8, 0u8, 0u8,
                ]
                &&& r.message.spec_end_byte() == SerialCommand::EndOfStream
            } else {
                &&& r.reset == (c == SerialCommand::DeviceReset)
                &&& r.message.spec_command() == SerialCommand::Ack
                &&& r.message.spec_data() == seq![c.code()] + d.subrange(0, 7)
                &&& r.message.spec_end_byte() == SerialCommand::EndOfStream
                &&& match command_action(c, d) {
                    Some(a) => old(board).effect(final(board), a),
                    None => *final(board) == *old(board),
                }
            },
        },
{
    let message = match SerialMessage::try_from(frame) {
        Ok(m) => m,
        Err(e) => {
            let command_byte = if frame.len() > 0 {
                frame[0]
            } else {
                0
            };
            return FrameReply { message: SerialMessage::nack_from_error(e, command_byte), reset: false };
        },
    };
    let data = *message.get_data();
    let command = *message.get_command();
    let led = (data[0] & 0x0f) as usize;
    let state = button_state_from_byte(data[0]);
    let slot = (data[1] >> 4) as usize;
    let ack = SerialMessage::ack_to(&message);
    match command {
        SerialCommand::DeviceReset => FrameReply { message: ack, reset: true },
        SerialCommand::Ping => FrameReply { message: ack, reset: false },
        SerialCommand::DisableKeyboardInput => {
            board.disable_keyboard_input();
            FrameReply { message: ack, reset: false }
        },
        SerialCommand::EnableKeyboardInput => {
            board.enable_keyboard_input();
            FrameReply { message: ack, reset: false }
        },
        SerialCommand::LockButtonState => {
            board.lock_led_state(led, state);
            FrameReply { message: ack, reset: false }
        },
        SerialCommand::LockAllButtonStates => {
            board.lock_led_states(state);
            FrameReply { message: ack, reset: false }
        },
        SerialCommand::UnlockButtonState => {
            board.unlock_led_state(led);
            FrameReply { message: ack, reset: false }
        },
        SerialCommand::UnlockAllButtonStates => {
            board.unlock_led_states();
            FrameReply { message: ack, reset: false }
        },
        SerialCommand::ClearStates => {
            board.apply_action(BoardAction::ClearLedQueue(led, state));
            FrameReply { message: ack, reset: false }
        },
        SerialCommand::RemoveState => {
            board.remove_led_state(led, slot, state);
            FrameReply { message: ack, reset: false }
        },
        SerialCommand::AddState => match transition_function_try_from_bytes(&data) {
            Ok(t) => {
                board.add_led_state(led, slot, t, state);
                FrameReply { message: ack, reset: false }
            },
            Err(e) => FrameReply { message: SerialMessage::nack_from_error(e, command.to_u8()), reset: false },
        },
        _ => FrameReply { message: SerialMessage::nack_to_message(&message, NackType::InvalidCommand), reset: false },
    }
}

/// Whether an AddState frame can carry these values: the LED and slot fit
/// a nibble, the state is one the wire names, and the transition has a
/// wire kind, a successor that fits a nibble and a 16-bit duration.
pub open spec fn encodable(led: u8, state: ButtonState, slot: u8, t: Transition) -> bool {
    &&& led < 16
    &&& slot < 16
    &&& (state == ButtonState::Idle || state == ButtonState::Pressed)
    &&& match t {
        Transition::Solid { next, duration_ticks, .. } => next < 16 && duration_ticks <= 0xffff,
        Transition::FadeOut { next, duration_ticks, .. } => next < 16 && duration_ticks <= 0xffff,
        Transition::FadeIn { next, duration_ticks, .. } => next < 16 && duration_ticks <= 0xffff,
        Transition::Forward { .. } => false,
    }
}

proof fn lemma_pack_nibbles(high: u8, low: u8, top: u8)
    requires
        high < 8,
        low < 16,
        top == 0 || top == 0x80,
    ensures
        ((top | (high << 4u8) | low) >> 4u8) & 0x7u8 == high,
        (top | (high << 4u8) | low) & 0xfu8 == low,
        ((top | (high << 4u8) | low) >= 0x80) == (top == 0x80),
{
    assert(((top | (high << 4u8) | low) >> 4u8) & 0x7u8 == high) by (bit_vector)
        requires
            high < 8,
            low < 16,
            top == 0 || top == 0x80,
    ;
    assert((top | (high << 4u8) | low) & 0xfu8 == low) by (bit_vector)
        requires
            high < 8,
            low < 16,
            top == 0 || top == 0x80,
    ;
    assert(((top | (high << 4u8) | low) >= 0x80) == (top == 0x80)) by (bit_vector)
        requires
            high < 8,
            low < 16,
            top == 0 || top == 0x80,
    ;
}

proof fn lemma_pack_byte(high: u8, low: u8)
    requires
        high < 16,
        low < 16,
    ensures
        ((high << 4u8) | low) >> 4u8 == high,
        ((high << 4u8) | low) & 0xfu8 == low,
{
    assert(((high << 4u8) | low) >> 4u8 == high) by (bit_vector)
        requires
            high < 16,
            low < 16,
    ;
    assert(((high << 4u8) | low) & 0xfu8 == low) by (bit_vector)
        requires
            high < 16,
            low < 16,
    ;
}

impl SerialMessage {
    /// The AddState frame that puts `transition` in slot `slot` of LED
    /// `led`'s queue for `state`, when a frame can carry them. Handled, the
    /// frame reads back as exactly these values.
    pub fn add_state(led: u8, state: ButtonState, slot: u8, transition: &Transition) -> (r: Option<SerialMessage>)
        ensures
            r is Some <==> encodable(led, state, slot, *transition),
            r matches Some(m) ==> {
                &&& m.spec_command() == SerialCommand::AddState
                &&& m.spec_end_byte() == SerialCommand::EndOfStream
                &&& SerialMessage::parsed(m.wire()) == Ok::<(SerialCommand, Seq<u8>), ParseError>(
                    (SerialCommand::AddState, m.spec_data()),
                )
                &&& decoded(m.spec_data()) == Ok::<Transition, ParseError>(*transition)
                &&& m.spec_data()[0] & 0xfu8 == led
                &&& state_of(m.spec_data()[0]) == state
                &&& m.spec_data()[1] >> 4u8 == slot
            },
    {
        if led >= 16 || slot >= 16 {
            return None;
        }
        let top: u8 = match state {
            ButtonState::Idle => 0,
            ButtonState::Pressed => 0x80,
            _ => {
                return None;
            },
        };
        let (kind, brightness, colour, duration_ticks, next): (u8, u8, crate::Colour, usize, usize) =
            match *transition {
            Transition::Solid { brightness, colour, duration_ticks, next } => (0, brightness, colour, duration_ticks, next),
            Transition::FadeOut { brightness, colour, duration_ticks, next } => (1, brightness, colour, duration_ticks, next),
            Transition::FadeIn { brightness, colour, duration_ticks, next } => (2, brightness, colour, duration_ticks, next),
            Transition::Forward { .. } => {
                return None;
            },
        };
        if next >= 16 || duration_ticks > 0xffff {
            return None;
        }
        let next_nibble = next as u8;
        let byte0 = top | (kind << 4) | led;
        let byte1 = (slot << 4) | next_nibble;
        proof {
            lemma_pack_nibbles(kind, led, top);
            lemma_pack_byte(slot, next_nibble);
        }
        let data = [
            byte0,
            byte1,
            brightness,
            colour.red,
            colour.green,
            colour.blue,
            (duration_ticks / 256) as u8,
            (duration_ticks % 256) as u8,
        ];
        let m = SerialMessage { command: SerialCommand::AddState, data, end_byte: SerialCommand::EndOfStream };
        proof {
            lemma_code_injective(SerialCommand::AddState);
            assert(m.wire().subrange(1, 9) =~= m.spec_data());
            assert(m.wire()[9] == END_OF_STREAM);
        }
        Some(m)
    }
}

} // verus!
