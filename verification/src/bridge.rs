//! What travels between the service and its agent in the console session.
//!
//! The agent sends a handshake and frames; the service sends keys, pointer events
//! and display sizes. Numbers have their low byte first.

use vstd::prelude::*;

use crate::events::{KeyboardEvent, MouseButton, MouseEvent};
use crate::platform::{CapturedFrame, DesktopSize, FrameModel};
use crate::wire::{get_i16, get_i32, get_u16, get_u32, push_i16, push_i32, push_u16, push_u32};

verus! {

/// The version of the protocol.
pub const PROTOCOL_VERSION: u16 = 2;

/// The oldest version that is still understood.
pub const MINIMUM_PROTOCOL_VERSION: u16 = 1;

/// The size of a handshake.
pub const HELLO_LENGTH: u16 = 16;

/// The size that the pixels of a frame may have: 128 MiB.
pub const MAX_FRAME_BYTES: u64 = 134217728;

/// The size of a frame's header.
pub const FRAME_HEADER_LENGTH: usize = 9;

/// The kind of a message: a frame.
pub const FRAME: u8 = 0x01;

pub const KEY_PRESSED: u8 = 0x10;

pub const KEY_RELEASED: u8 = 0x11;

pub const KEY_UNICODE_PRESSED: u8 = 0x12;

pub const KEY_UNICODE_RELEASED: u8 = 0x13;

pub const MOUSE_MOVE: u8 = 0x20;

pub const MOUSE_REL_MOVE: u8 = 0x21;

pub const MOUSE_LEFT_PRESSED: u8 = 0x22;

pub const MOUSE_LEFT_RELEASED: u8 = 0x23;

pub const MOUSE_RIGHT_PRESSED: u8 = 0x24;

pub const MOUSE_RIGHT_RELEASED: u8 = 0x25;

pub const MOUSE_MIDDLE_PRESSED: u8 = 0x26;

pub const MOUSE_MIDDLE_RELEASED: u8 = 0x27;

pub const MOUSE_BUTTON4_PRESSED: u8 = 0x28;

pub const MOUSE_BUTTON4_RELEASED: u8 = 0x29;

pub const MOUSE_BUTTON5_PRESSED: u8 = 0x2a;

pub const MOUSE_BUTTON5_RELEASED: u8 = 0x2b;

pub const MOUSE_VERTICAL_SCROLL: u8 = 0x2c;

pub const MOUSE_SCROLL: u8 = 0x2d;

pub const SET_DISPLAY_SIZE: u8 = 0x30;

/// What is wrong with a message.
#[derive(Clone, Copy, Debug, PartialEq, Eq, Structural)]
pub enum BridgeError {
    /// A handshake does not begin as it should.
    InvalidMagic,
    /// A handshake has a version that is not understood.
    UnsupportedVersion(u16),
    /// A handshake declares another size than its own.
    UnsupportedLength(u16),
    /// A desktop has no pixels.
    ZeroSize,
    /// A desktop has too many pixels.
    TooLarge,
    /// A frame's bytes do not match its size.
    WrongFrameLength,
    /// A message that should be a frame is none.
    UnexpectedMessage(u8),
    /// A message of an unknown kind.
    UnknownInput(u8),
}

/// What the agent says first.
#[derive(Debug, Clone, Copy, PartialEq, Eq, Structural)]
pub struct Handshake {
    pub version: u16,
    pub size: DesktopSize,
}

/// What the service asks of the agent.
#[derive(Debug, Clone, Copy, PartialEq, Eq, Structural)]
pub enum InputCommand {
    Keyboard(KeyboardEvent),
    Mouse(MouseEvent),
    SetDisplaySize(DesktopSize),
}

/// Whether a desktop's pixels fit into a message.
pub open spec fn fits(size: DesktopSize) -> bool {
    size.pixels() * 4 <= MAX_FRAME_BYTES
}

/// What is wrong with a size, if anything.
pub open spec fn size_error(size: DesktopSize) -> Option<BridgeError> {
    if !size.nonempty() {
        Some(BridgeError::ZeroSize)
    } else if !fits(size) {
        Some(BridgeError::TooLarge)
    } else {
        None
    }
}

/// The number of bytes of a desktop's pixels.
pub fn frame_bytes(size: DesktopSize) -> (result: Result<usize, BridgeError>)
    ensures
        if fits(size) {
            result matches Ok(length) && length == size.pixels() * 4
        } else {
            result matches Err(error) && error == BridgeError::TooLarge
        },
{
    assert(0 <= size.width * size.height <= 0xffff * 0xffff) by (nonlinear_arith)
        requires
            size.width <= 0xffff,
            size.height <= 0xffff,
    ;
    let length: u64 = size.width as u64 * size.height as u64 * 4;
    if length > MAX_FRAME_BYTES {
        return Err(BridgeError::TooLarge);
    }
    Ok(length as usize)
}

/// Checks a size.
pub fn validate_size(size: DesktopSize) -> (result: Result<(), BridgeError>)
    ensures
        match size_error(size) {
            Some(expected) => result matches Err(error) && error == expected,
            None => result is Ok,
        },
{
    if size.width == 0 || size.height == 0 {
        return Err(BridgeError::ZeroSize);
    }
    match frame_bytes(size) {
        Ok(_) => Ok(()),
        Err(error) => Err(error),
    }
}

/// The bytes of a handshake: the letters RDPH, the version, its own size, the size
/// of the desktop and four zeros.
pub open spec fn handshake_bytes(size: DesktopSize) -> Seq<u8> {
    seq![0x52u8, 0x44, 0x50, 0x48] + crate::wire::u16_bytes(PROTOCOL_VERSION)
        + crate::wire::u16_bytes(HELLO_LENGTH) + crate::wire::u16_bytes(size.width)
        + crate::wire::u16_bytes(size.height) + crate::wire::u32_bytes(0)
}

/// Writes a handshake.
pub fn encode_handshake(size: DesktopSize) -> (result: Result<Vec<u8>, BridgeError>)
    ensures
        match size_error(size) {
            Some(expected) => result matches Err(error) && error == expected,
            None => result matches Ok(data) && data@ == handshake_bytes(size),
        },
{
    match validate_size(size) {
        Ok(_) => {},
        Err(error) => {
            return Err(error);
        },
    }
    let mut data: Vec<u8> = vec![0x52u8, 0x44, 0x50, 0x48];
    push_u16(&mut data, PROTOCOL_VERSION);
    push_u16(&mut data, HELLO_LENGTH);
    push_u16(&mut data, size.width);
    push_u16(&mut data, size.height);
    push_u32(&mut data, 0);
    Ok(data)
}

/// What a handshake says.
pub open spec fn read_handshake(data: Seq<u8>) -> Result<Handshake, BridgeError> {
    let version = crate::wire::u16_at(data, 4);
    let length = crate::wire::u16_at(data, 6);
    let size = DesktopSize {
        width: crate::wire::u16_at(data, 8),
        height: crate::wire::u16_at(data, 10),
    };
    if data[0] != 0x52 || data[1] != 0x44 || data[2] != 0x50 || data[3] != 0x48 {
        Err(BridgeError::InvalidMagic)
    } else if version < MINIMUM_PROTOCOL_VERSION || version > PROTOCOL_VERSION {
        Err(BridgeError::UnsupportedVersion(version))
    } else if length != HELLO_LENGTH {
        Err(BridgeError::UnsupportedLength(length))
    } else {
        match size_error(size) {
            Some(error) => Err(error),
            None => Ok(Handshake { version, size }),
        }
    }
}

/// Reads a handshake.
pub fn decode_handshake(data: &Vec<u8>) -> (result: Result<Handshake, BridgeError>)
    requires
        data@.len() == HELLO_LENGTH,
    ensures
        result == read_handshake(data@),
{
    if data[0] != 0x52 || data[1] != 0x44 || data[2] != 0x50 || data[3] != 0x48 {
        return Err(BridgeError::InvalidMagic);
    }
    let version: u16 = get_u16(data, 4);
    if version < MINIMUM_PROTOCOL_VERSION || version > PROTOCOL_VERSION {
        return Err(BridgeError::UnsupportedVersion(version));
    }
    let length: u16 = get_u16(data, 6);
    if length != HELLO_LENGTH {
        return Err(BridgeError::UnsupportedLength(length));
    }
    let size = DesktopSize { width: get_u16(data, 8), height: get_u16(data, 10) };
    match validate_size(size) {
        Ok(_) => Ok(Handshake { version, size }),
        Err(error) => Err(error),
    }
}

/// The header of a frame: its kind, its size and the number of its bytes.
pub open spec fn frame_header(size: DesktopSize, length: u32) -> Seq<u8> {
    seq![FRAME] + crate::wire::u16_bytes(size.width) + crate::wire::u16_bytes(size.height)
        + crate::wire::u32_bytes(length)
}

/// What is wrong with a frame that is to be sent, if anything.
pub open spec fn frame_error(frame: FrameModel) -> Option<BridgeError> {
    if !fits(frame.size) {
        Some(BridgeError::TooLarge)
    } else if frame.rgba.len() != frame.size.pixels() * 4 {
        Some(BridgeError::WrongFrameLength)
    } else {
        None
    }
}

/// Writes the header of a frame, which its pixels follow.
pub fn encode_frame_header(frame: &CapturedFrame) -> (result: Result<Vec<u8>, BridgeError>)
    ensures
        match frame_error(frame.model()) {
            Some(expected) => result matches Err(error) && error == expected,
            None => result matches Ok(header) && header@ == frame_header(
                frame.declared_size(),
                frame.rgba@.len() as u32,
            ),
        },
{
    let size = frame.size();
    let expected: usize = match frame_bytes(size) {
        Ok(expected) => expected,
        Err(error) => {
            return Err(error);
        },
    };
    if frame.rgba.len() != expected {
        return Err(BridgeError::WrongFrameLength);
    }
    let mut header: Vec<u8> = vec![FRAME];
    push_u16(&mut header, size.width);
    push_u16(&mut header, size.height);
    push_u32(&mut header, expected as u32);
    Ok(header)
}

/// What the header of a frame says: the size of the frame, whose pixels follow.
pub open spec fn read_frame_header(header: Seq<u8>) -> Result<DesktopSize, BridgeError> {
    let size = DesktopSize {
        width: crate::wire::u16_at(header, 1),
        height: crate::wire::u16_at(header, 3),
    };
    if header[0] != FRAME {
        Err(BridgeError::UnexpectedMessage(header[0]))
    } else if !fits(size) {
        Err(BridgeError::TooLarge)
    } else if crate::wire::u32_at(header, 5) != size.pixels() * 4 {
        Err(BridgeError::WrongFrameLength)
    } else {
        Ok(size)
    }
}

/// Reads the header of a frame: the size of the frame and the number of bytes that
/// follow.
pub fn decode_frame_header(header: &Vec<u8>) -> (result: Result<(DesktopSize, usize), BridgeError>)
    requires
        header@.len() == FRAME_HEADER_LENGTH,
    ensures
        match read_frame_header(header@) {
            Ok(expected) => result matches Ok((size, length)) && size == expected && length
                == size.pixels() * 4,
            Err(expected) => result matches Err(error) && error == expected,
        },
{
    if header[0] != FRAME {
        return Err(BridgeError::UnexpectedMessage(header[0]));
    }
    let size = DesktopSize { width: get_u16(header, 1), height: get_u16(header, 3) };
    let expected: usize = match frame_bytes(size) {
        Ok(expected) => expected,
        Err(error) => {
            return Err(error);
        },
    };
    if get_u32(header, 5) as u64 != expected as u64 {
        return Err(BridgeError::WrongFrameLength);
    }
    Ok((size, expected))
}

/// The bytes of a keyboard event; the state of lock keys is not sent.
pub open spec fn keyboard_bytes(event: KeyboardEvent) -> Option<Seq<u8>> {
    match event {
        KeyboardEvent::Pressed { code, extended } => Some(
            seq![KEY_PRESSED, code, if extended { 1u8 } else { 0 }],
        ),
        KeyboardEvent::Released { code, extended } => Some(
            seq![KEY_RELEASED, code, if extended { 1u8 } else { 0 }],
        ),
        KeyboardEvent::UnicodePressed(code) => Some(
            seq![KEY_UNICODE_PRESSED] + crate::wire::u16_bytes(code),
        ),
        KeyboardEvent::UnicodeReleased(code) => Some(
            seq![KEY_UNICODE_RELEASED] + crate::wire::u16_bytes(code),
        ),
        KeyboardEvent::Synchronize(_) => None,
    }
}

/// Writes a keyboard event.
pub fn encode_keyboard(event: &KeyboardEvent) -> (data: Option<Vec<u8>>)
    ensures
        match keyboard_bytes(*event) {
            Some(bytes) => data matches Some(data) && data@ == bytes,
            None => data is None,
        },
{
    match *event {
        KeyboardEvent::Pressed { code, extended } => Some(
            vec![KEY_PRESSED, code, if extended { 1 } else { 0 }],
        ),
        KeyboardEvent::Released { code, extended } => Some(
            vec![KEY_RELEASED, code, if extended { 1 } else { 0 }],
        ),
        KeyboardEvent::UnicodePressed(code) => {
            let mut data: Vec<u8> = vec![KEY_UNICODE_PRESSED];
            push_u16(&mut data, code);
            Some(data)
        },
        KeyboardEvent::UnicodeReleased(code) => {
            let mut data: Vec<u8> = vec![KEY_UNICODE_RELEASED];
            push_u16(&mut data, code);
            Some(data)
        },
        KeyboardEvent::Synchronize(_) => None,
    }
}

/// The kind of the message for a button.
pub open spec fn button_type(button: MouseButton, pressed: bool) -> Option<u8> {
    match button {
        MouseButton::Left => Some(if pressed { MOUSE_LEFT_PRESSED } else { MOUSE_LEFT_RELEASED }),
        MouseButton::Right => Some(
            if pressed { MOUSE_RIGHT_PRESSED } else { MOUSE_RIGHT_RELEASED },
        ),
        MouseButton::Middle => Some(
            if pressed { MOUSE_MIDDLE_PRESSED } else { MOUSE_MIDDLE_RELEASED },
        ),
        MouseButton::X1 => Some(
            if pressed { MOUSE_BUTTON4_PRESSED } else { MOUSE_BUTTON4_RELEASED },
        ),
        MouseButton::X2 => Some(
            if pressed { MOUSE_BUTTON5_PRESSED } else { MOUSE_BUTTON5_RELEASED },
        ),
        MouseButton::Other => None,
    }
}

/// The kind of the message for a button.
pub fn bridge_button_type(button: MouseButton, pressed: bool) -> (kind: Option<u8>)
    ensures
        kind == button_type(button, pressed),
{
    match button {
        MouseButton::Left => Some(if pressed { MOUSE_LEFT_PRESSED } else { MOUSE_LEFT_RELEASED }),
        MouseButton::Right => Some(
            if pressed { MOUSE_RIGHT_PRESSED } else { MOUSE_RIGHT_RELEASED },
        ),
        MouseButton::Middle => Some(
            if pressed { MOUSE_MIDDLE_PRESSED } else { MOUSE_MIDDLE_RELEASED },
        ),
        MouseButton::X1 => Some(
            if pressed { MOUSE_BUTTON4_PRESSED } else { MOUSE_BUTTON4_RELEASED },
        ),
        MouseButton::X2 => Some(
            if pressed { MOUSE_BUTTON5_PRESSED } else { MOUSE_BUTTON5_RELEASED },
        ),
        MouseButton::Other => None,
    }
}

/// The message for a button, which carries no place.
pub open spec fn button_bytes(button: MouseButton, pressed: bool) -> Seq<u8> {
    match button_type(button, pressed) {
        Some(kind) => seq![kind],
        None => Seq::empty(),
    }
}

/// The bytes of a pointer event. A button is preceded by a movement, so that it
/// acts where the client reported it.
pub open spec fn mouse_bytes(event: MouseEvent) -> Seq<u8> {
    match event {
        MouseEvent::Move { x, y } => seq![MOUSE_MOVE] + crate::wire::u16_bytes(x)
            + crate::wire::u16_bytes(y),
        MouseEvent::RelMove { x, y } => seq![MOUSE_REL_MOVE] + crate::wire::u32_bytes(
            crate::wire::u32_of(x),
        ) + crate::wire::u32_bytes(crate::wire::u32_of(y)),
        MouseEvent::Button { x, y, button, pressed } => seq![MOUSE_MOVE] + crate::wire::u16_bytes(x)
            + crate::wire::u16_bytes(y) + button_bytes(button, pressed),
        MouseEvent::ButtonRel { x, y, button, pressed } => seq![MOUSE_REL_MOVE]
            + crate::wire::u32_bytes(crate::wire::u32_of(x)) + crate::wire::u32_bytes(
            crate::wire::u32_of(y),
        ) + button_bytes(button, pressed),
        MouseEvent::VerticalScroll { value } => seq![MOUSE_VERTICAL_SCROLL]
            + crate::wire::u16_bytes(crate::wire::u16_of(value)),
        MouseEvent::HorizontalScroll { value } => seq![MOUSE_SCROLL] + crate::wire::u32_bytes(
            crate::wire::u32_of(value as i32),
        ) + crate::wire::u32_bytes(crate::wire::u32_of(0)),
        MouseEvent::Scroll { x, y } => seq![MOUSE_SCROLL] + crate::wire::u32_bytes(
            crate::wire::u32_of(x),
        ) + crate::wire::u32_bytes(crate::wire::u32_of(y)),
    }
}

/// Writes a pointer event.
pub fn encode_mouse(event: &MouseEvent) -> (data: Vec<u8>)
    ensures
        data@ == mouse_bytes(*event),
{
    let mut data: Vec<u8> = Vec::new();
    match *event {
        MouseEvent::Move { x, y } => {
            data.push(MOUSE_MOVE);
            push_u16(&mut data, x);
            push_u16(&mut data, y);
        },
        MouseEvent::RelMove { x, y } => {
            data.push(MOUSE_REL_MOVE);
            push_i32(&mut data, x);
            push_i32(&mut data, y);
        },
        MouseEvent::Button { x, y, button, pressed } => {
            data.push(MOUSE_MOVE);
            push_u16(&mut data, x);
            push_u16(&mut data, y);
            if let Some(kind) = bridge_button_type(button, pressed) {
                data.push(kind);
            }
        },
        MouseEvent::ButtonRel { x, y, button, pressed } => {
            data.push(MOUSE_REL_MOVE);
            push_i32(&mut data, x);
            push_i32(&mut data, y);
            if let Some(kind) = bridge_button_type(button, pressed) {
                data.push(kind);
            }
        },
        MouseEvent::VerticalScroll { value } => {
            data.push(MOUSE_VERTICAL_SCROLL);
            push_i16(&mut data, value);
        },
        MouseEvent::HorizontalScroll { value } => {
            data.push(MOUSE_SCROLL);
            push_i32(&mut data, value as i32);
            push_i32(&mut data, 0);
        },
        MouseEvent::Scroll { x, y } => {
            data.push(MOUSE_SCROLL);
            push_i32(&mut data, x);
            push_i32(&mut data, y);
        },
    }
    assert(data@ =~= mouse_bytes(*event));
    data
}

/// The bytes of a display size.
pub open spec fn display_size_bytes(size: DesktopSize) -> Seq<u8> {
    seq![SET_DISPLAY_SIZE] + crate::wire::u16_bytes(size.width) + crate::wire::u16_bytes(
        size.height,
    )
}

/// Writes a display size.
pub fn encode_display_size(size: DesktopSize) -> (data: Vec<u8>)
    ensures
        data@ == display_size_bytes(size),
{
    let mut data: Vec<u8> = vec![SET_DISPLAY_SIZE];
    push_u16(&mut data, size.width);
    push_u16(&mut data, size.height);
    data
}

/// The number of bytes that follow the kind of a message to the agent.
pub open spec fn payload_length(kind: u8) -> Option<usize> {
    if kind == KEY_PRESSED || kind == KEY_RELEASED || kind == KEY_UNICODE_PRESSED || kind
        == KEY_UNICODE_RELEASED || kind == MOUSE_VERTICAL_SCROLL {
        Some(2)
    } else if kind == MOUSE_MOVE || kind == SET_DISPLAY_SIZE {
        Some(4)
    } else if kind == MOUSE_REL_MOVE || kind == MOUSE_SCROLL {
        Some(8)
    } else if MOUSE_LEFT_PRESSED <= kind <= MOUSE_BUTTON5_RELEASED {
        Some(0)
    } else {
        None
    }
}

/// The number of bytes to read behind the kind of a message to the agent.
pub fn input_payload_length(kind: u8) -> (result: Result<usize, BridgeError>)
    ensures
        match payload_length(kind) {
            Some(expected) => result matches Ok(length) && length == expected,
            None => result matches Err(error) && error == BridgeError::UnknownInput(kind),
        },
{
    if kind == KEY_PRESSED || kind == KEY_RELEASED || kind == KEY_UNICODE_PRESSED || kind
        == KEY_UNICODE_RELEASED || kind == MOUSE_VERTICAL_SCROLL {
        Ok(2)
    } else if kind == MOUSE_MOVE || kind == SET_DISPLAY_SIZE {
        Ok(4)
    } else if kind == MOUSE_REL_MOVE || kind == MOUSE_SCROLL {
        Ok(8)
    } else if MOUSE_LEFT_PRESSED <= kind && kind <= MOUSE_BUTTON5_RELEASED {
        Ok(0)
    } else {
        Err(BridgeError::UnknownInput(kind))
    }
}

/// A button where the pointer stands: the message before it has moved the pointer.
pub open spec fn button_in_place(button: MouseButton, pressed: bool) -> InputCommand {
    InputCommand::Mouse(MouseEvent::ButtonRel { x: 0, y: 0, button, pressed })
}

/// The button that a message without a payload speaks of.
pub open spec fn button_of(kind: u8) -> (MouseButton, bool) {
    if kind == MOUSE_LEFT_PRESSED {
        (MouseButton::Left, true)
    } else if kind == MOUSE_LEFT_RELEASED {
        (MouseButton::Left, false)
    } else if kind == MOUSE_RIGHT_PRESSED {
        (MouseButton::Right, true)
    } else if kind == MOUSE_RIGHT_RELEASED {
        (MouseButton::Right, false)
    } else if kind == MOUSE_MIDDLE_PRESSED {
        (MouseButton::Middle, true)
    } else if kind == MOUSE_MIDDLE_RELEASED {
        (MouseButton::Middle, false)
    } else if kind == MOUSE_BUTTON4_PRESSED {
        (MouseButton::X1, true)
    } else if kind == MOUSE_BUTTON4_RELEASED {
        (MouseButton::X1, false)
    } else if kind == MOUSE_BUTTON5_PRESSED {
        (MouseButton::X2, true)
    } else {
        (MouseButton::X2, false)
    }
}

/// What a message to the agent says.
pub open spec fn read_input(kind: u8, payload: Seq<u8>) -> Result<InputCommand, BridgeError> {
    if payload_length(kind) is None {
        Err(BridgeError::UnknownInput(kind))
    } else if kind == KEY_PRESSED {
        Ok(
            InputCommand::Keyboard(
                KeyboardEvent::Pressed { code: payload[0], extended: payload[1] != 0 },
            ),
        )
    } else if kind == KEY_RELEASED {
        Ok(
            InputCommand::Keyboard(
                KeyboardEvent::Released { code: payload[0], extended: payload[1] != 0 },
            ),
        )
    } else if kind == KEY_UNICODE_PRESSED {
        Ok(
            InputCommand::Keyboard(
                KeyboardEvent::UnicodePressed(crate::wire::u16_at(payload, 0)),
            ),
        )
    } else if kind == KEY_UNICODE_RELEASED {
        Ok(
            InputCommand::Keyboard(
                KeyboardEvent::UnicodeReleased(crate::wire::u16_at(payload, 0)),
            ),
        )
    } else if kind == MOUSE_MOVE {
        Ok(
            InputCommand::Mouse(
                MouseEvent::Move {
                    x: crate::wire::u16_at(payload, 0),
                    y: crate::wire::u16_at(payload, 2),
                },
            ),
        )
    } else if kind == MOUSE_REL_MOVE {
        Ok(
            InputCommand::Mouse(
                MouseEvent::RelMove {
                    x: crate::wire::i32_of(crate::wire::u32_at(payload, 0)),
                    y: crate::wire::i32_of(crate::wire::u32_at(payload, 4)),
                },
            ),
        )
    } else if kind == MOUSE_VERTICAL_SCROLL {
        Ok(
            InputCommand::Mouse(
                MouseEvent::VerticalScroll {
                    value: crate::wire::i16_of(crate::wire::u16_at(payload, 0)),
                },
            ),
        )
    } else if kind == MOUSE_SCROLL {
        Ok(
            InputCommand::Mouse(
                MouseEvent::Scroll {
                    x: crate::wire::i32_of(crate::wire::u32_at(payload, 0)),
                    y: crate::wire::i32_of(crate::wire::u32_at(payload, 4)),
                },
            ),
        )
    } else if kind == SET_DISPLAY_SIZE {
        let size = DesktopSize {
            width: crate::wire::u16_at(payload, 0),
            height: crate::wire::u16_at(payload, 2),
        };
        match size_error(size) {
            Some(error) => Err(error),
            None => Ok(InputCommand::SetDisplaySize(size)),
        }
    } else {
        Ok(button_in_place(button_of(kind).0, button_of(kind).1))
    }
}

/// Reads the button of a message without a payload.
fn bridge_button(kind: u8) -> (command: InputCommand)
    ensures
        command == button_in_place(button_of(kind).0, button_of(kind).1),
{
    let (button, pressed) = if kind == MOUSE_LEFT_PRESSED {
        (MouseButton::Left, true)
    } else if kind == MOUSE_LEFT_RELEASED {
        (MouseButton::Left, false)
    } else if kind == MOUSE_RIGHT_PRESSED {
        (MouseButton::Right, true)
    } else if kind == MOUSE_RIGHT_RELEASED {
        (MouseButton::Right, false)
    } else if kind == MOUSE_MIDDLE_PRESSED {
        (MouseButton::Middle, true)
    } else if kind == MOUSE_MIDDLE_RELEASED {
        (MouseButton::Middle, false)
    } else if kind == MOUSE_BUTTON4_PRESSED {
        (MouseButton::X1, true)
    } else if kind == MOUSE_BUTTON4_RELEASED {
        (MouseButton::X1, false)
    } else if kind == MOUSE_BUTTON5_PRESSED {
        (MouseButton::X2, true)
    } else {
        (MouseButton::X2, false)
    };
    InputCommand::Mouse(MouseEvent::ButtonRel { x: 0, y: 0, button, pressed })
}

/// Reads a message to the agent.
pub fn decode_input(kind: u8, payload: &Vec<u8>) -> (result: Result<InputCommand, BridgeError>)
    requires
        payload_length(kind) matches Some(length) ==> payload@.len() == length,
    ensures
        result == read_input(kind, payload@),
{
    match kind {
        KEY_PRESSED => Ok(
            InputCommand::Keyboard(
                KeyboardEvent::Pressed { code: payload[0], extended: payload[1] != 0 },
            ),
        ),
        KEY_RELEASED => Ok(
            InputCommand::Keyboard(
                KeyboardEvent::Released { code: payload[0], extended: payload[1] != 0 },
            ),
        ),
        KEY_UNICODE_PRESSED => Ok(
            InputCommand::Keyboard(KeyboardEvent::UnicodePressed(get_u16(payload, 0))),
        ),
        KEY_UNICODE_RELEASED => Ok(
            InputCommand::Keyboard(KeyboardEvent::UnicodeReleased(get_u16(payload, 0))),
        ),
        MOUSE_MOVE => Ok(
            InputCommand::Mouse(
                MouseEvent::Move { x: get_u16(payload, 0), y: get_u16(payload, 2) },
            ),
        ),
        MOUSE_REL_MOVE => Ok(
            InputCommand::Mouse(
                MouseEvent::RelMove { x: get_i32(payload, 0), y: get_i32(payload, 4) },
            ),
        ),
        MOUSE_VERTICAL_SCROLL => Ok(
            InputCommand::Mouse(MouseEvent::VerticalScroll { value: get_i16(payload, 0) }),
        ),
        MOUSE_SCROLL => Ok(
            InputCommand::Mouse(
                MouseEvent::Scroll { x: get_i32(payload, 0), y: get_i32(payload, 4) },
            ),
        ),
        SET_DISPLAY_SIZE => {
            let size = DesktopSize { width: get_u16(payload, 0), height: get_u16(payload, 2) };
            match validate_size(size) {
                Ok(_) => Ok(InputCommand::SetDisplaySize(size)),
                Err(error) => Err(error),
            }
        },
        _ => {
            if MOUSE_LEFT_PRESSED <= kind && kind <= MOUSE_BUTTON5_RELEASED {
                Ok(bridge_button(kind))
            } else {
                Err(BridgeError::UnknownInput(kind))
            }
        },
    }
}

/// The commands that the agent reads from a stream, up to its end or to the first
/// message that it refuses.
pub open spec fn commands(stream: Seq<u8>) -> Seq<InputCommand>
    decreases stream.len(),
{
    if stream.len() == 0 {
        Seq::empty()
    } else {
        match payload_length(stream[0]) {
            None => Seq::empty(),
            Some(length) => {
                if stream.len() < 1 + length {
                    Seq::empty()
                } else {
                    match read_input(stream[0], stream.subrange(1, 1 + length)) {
                        Err(_) => Seq::empty(),
                        Ok(command) => seq![command] + commands(
                            stream.subrange(1 + length, stream.len() as int),
                        ),
                    }
                }
            },
        }
    }
}

/// The commands that a pointer event becomes.
pub open spec fn received(event: MouseEvent) -> Seq<InputCommand> {
    match event {
        MouseEvent::Button { x, y, button, pressed } => {
            let moved = seq![InputCommand::Mouse(MouseEvent::Move { x, y })];
            if button is Other {
                moved
            } else {
                moved.push(button_in_place(button, pressed))
            }
        },
        MouseEvent::ButtonRel { x, y, button, pressed } => {
            let moved = seq![InputCommand::Mouse(MouseEvent::RelMove { x, y })];
            if button is Other {
                moved
            } else {
                moved.push(button_in_place(button, pressed))
            }
        },
        MouseEvent::HorizontalScroll { value } => seq![
            InputCommand::Mouse(MouseEvent::Scroll { x: value as i32, y: 0 }),
        ],
        _ => seq![InputCommand::Mouse(event)],
    }
}

/// One message in front of a stream is one command in front of its commands.
proof fn lemma_first_command(kind: u8, payload: Seq<u8>, rest: Seq<u8>)
    requires
        payload_length(kind) == Some(payload.len() as usize),
        payload.len() <= 8,
        read_input(kind, payload) is Ok,
    ensures
        commands(seq![kind] + payload + rest) == seq![read_input(kind, payload)->Ok_0] + commands(
            rest,
        ),
{
    let stream = seq![kind] + payload + rest;
    let length = payload.len();
    assert(stream.subrange(1, 1 + length as int) =~= payload);
    assert(stream.subrange(1 + length as int, stream.len() as int) =~= rest);
}

/// What the service writes for a key, the agent reads as that key, whatever follows.
pub proof fn law_keys_arrive(event: KeyboardEvent, rest: Seq<u8>)
    requires
        !(event is Synchronize),
    ensures
        keyboard_bytes(event) matches Some(bytes) && commands(bytes + rest) == seq![
            InputCommand::Keyboard(event),
        ] + commands(rest),
{
    let bytes = keyboard_bytes(event)->Some_0;
    let payload = bytes.subrange(1, 3);
    assert(bytes + rest =~= seq![bytes[0]] + payload + rest);
    match event {
        KeyboardEvent::UnicodePressed(code) => {
            crate::wire::law_u16_is_read_back(payload, 0, code);
        },
        KeyboardEvent::UnicodeReleased(code) => {
            crate::wire::law_u16_is_read_back(payload, 0, code);
        },
        _ => {},
    }
    lemma_first_command(bytes[0], payload, rest);
}

/// A pair of 32-bit numbers is read back.
proof fn lemma_pair(x: i32, y: i32, payload: Seq<u8>)
    requires
        payload == crate::wire::u32_bytes(crate::wire::u32_of(x)) + crate::wire::u32_bytes(
            crate::wire::u32_of(y),
        ),
    ensures
        payload.len() == 8,
        crate::wire::i32_of(crate::wire::u32_at(payload, 0)) == x,
        crate::wire::i32_of(crate::wire::u32_at(payload, 4)) == y,
{
    crate::wire::law_u32_is_read_back(payload, 0, crate::wire::u32_of(x));
    crate::wire::law_u32_is_read_back(payload, 4, crate::wire::u32_of(y));
    crate::wire::law_signed_bits_are_kept(0, x);
    crate::wire::law_signed_bits_are_kept(0, y);
}

/// A button's message in front of a stream is that button in front of its commands.
proof fn lemma_button(button: MouseButton, pressed: bool, rest: Seq<u8>)
    ensures
        commands(button_bytes(button, pressed) + rest) == (if button is Other {
            Seq::<InputCommand>::empty()
        } else {
            seq![button_in_place(button, pressed)]
        }) + commands(rest),
{
    match button_type(button, pressed) {
        Some(kind) => {
            assert(button_bytes(button, pressed) + rest =~= seq![kind] + Seq::<u8>::empty() + rest);
            lemma_first_command(kind, Seq::empty(), rest);
        },
        None => {
            assert(button_bytes(button, pressed) + rest =~= rest);
            assert(Seq::<InputCommand>::empty() + commands(rest) =~= commands(rest));
        },
    }
}

/// A message of two 32-bit numbers in front of a stream is its command in front of
/// the stream's commands.
proof fn lemma_pair_command(kind: u8, x: i32, y: i32, rest: Seq<u8>)
    requires
        kind == MOUSE_REL_MOVE || kind == MOUSE_SCROLL,
    ensures
        commands(
            seq![kind] + crate::wire::u32_bytes(crate::wire::u32_of(x)) + crate::wire::u32_bytes(
                crate::wire::u32_of(y),
            ) + rest,
        ) == seq![
            InputCommand::Mouse(
                if kind == MOUSE_SCROLL {
                    MouseEvent::Scroll { x, y }
                } else {
                    MouseEvent::RelMove { x, y }
                },
            ),
        ] + commands(rest),
{
    let payload = crate::wire::u32_bytes(crate::wire::u32_of(x)) + crate::wire::u32_bytes(
        crate::wire::u32_of(y),
    );
    lemma_pair(x, y, payload);
    lemma_first_command(kind, payload, rest);
    assert(seq![kind] + crate::wire::u32_bytes(crate::wire::u32_of(x)) + crate::wire::u32_bytes(
        crate::wire::u32_of(y),
    ) + rest =~= seq![kind] + payload + rest);
}

/// The messages of a button, with what moves the pointer first.
proof fn lemma_moved_button(
    moved: Seq<u8>,
    movement: InputCommand,
    button: MouseButton,
    pressed: bool,
    rest: Seq<u8>,
)
    requires
        commands(moved + (button_bytes(button, pressed) + rest)) == seq![movement] + commands(
            button_bytes(button, pressed) + rest,
        ),
    ensures
        commands(moved + button_bytes(button, pressed) + rest) == (if button is Other {
            seq![movement]
        } else {
            seq![movement].push(button_in_place(button, pressed))
        }) + commands(rest),
{
    let buttons = button_bytes(button, pressed);
    assert(moved + buttons + rest =~= moved + (buttons + rest));
    lemma_button(button, pressed, rest);
    assert(seq![movement] + (Seq::<InputCommand>::empty() + commands(rest)) =~= seq![movement]
        + commands(rest));
    assert(seq![movement] + (seq![button_in_place(button, pressed)] + commands(rest)) =~= seq![
        movement,
    ].push(button_in_place(button, pressed)) + commands(rest));
}

/// What the service writes for a pointer event, the agent reads as that event,
/// whatever follows: a button as a movement and the button in its place, a sideways
/// scroll as a scroll in both directions.
pub proof fn law_pointer_events_arrive(event: MouseEvent, rest: Seq<u8>)
    ensures
        commands(mouse_bytes(event) + rest) == received(event) + commands(rest),
{
    match event {
        MouseEvent::Move { x, y } => {
            lemma_move(x, y, rest);
        },
        MouseEvent::RelMove { x, y } => {
            lemma_pair_command(MOUSE_REL_MOVE, x, y, rest);
        },
        MouseEvent::Button { x, y, button, pressed } => {
            lemma_move(x, y, button_bytes(button, pressed) + rest);
            lemma_moved_button(
                mouse_bytes(MouseEvent::Move { x, y }),
                InputCommand::Mouse(MouseEvent::Move { x, y }),
                button,
                pressed,
                rest,
            );
        },
        MouseEvent::ButtonRel { x, y, button, pressed } => {
            lemma_pair_command(MOUSE_REL_MOVE, x, y, button_bytes(button, pressed) + rest);
            lemma_moved_button(
                mouse_bytes(MouseEvent::RelMove { x, y }),
                InputCommand::Mouse(MouseEvent::RelMove { x, y }),
                button,
                pressed,
                rest,
            );
        },
        MouseEvent::VerticalScroll { value } => {
            let payload = crate::wire::u16_bytes(crate::wire::u16_of(value));
            crate::wire::law_u16_is_read_back(payload, 0, crate::wire::u16_of(value));
            crate::wire::law_signed_bits_are_kept(value, 0);
            lemma_first_command(MOUSE_VERTICAL_SCROLL, payload, rest);
        },
        MouseEvent::HorizontalScroll { value } => {
            lemma_pair_command(MOUSE_SCROLL, value as i32, 0, rest);
        },
        MouseEvent::Scroll { x, y } => {
            lemma_pair_command(MOUSE_SCROLL, x, y, rest);
        },
    }
}

/// A movement's message in front of a stream is that movement in front of its
/// commands.
proof fn lemma_move(x: u16, y: u16, rest: Seq<u8>)
    ensures
        commands(mouse_bytes(MouseEvent::Move { x, y }) + rest) == seq![
            InputCommand::Mouse(MouseEvent::Move { x, y }),
        ] + commands(rest),
{
    let payload = crate::wire::u16_bytes(x) + crate::wire::u16_bytes(y);
    crate::wire::law_u16_is_read_back(payload, 0, x);
    crate::wire::law_u16_is_read_back(payload, 2, y);
    assert(mouse_bytes(MouseEvent::Move { x, y }) + rest =~= seq![MOUSE_MOVE] + payload + rest);
    lemma_first_command(MOUSE_MOVE, payload, rest);
}

/// What the service writes for a display size, the agent reads as that size,
/// whatever follows.
pub proof fn law_display_sizes_arrive(size: DesktopSize, rest: Seq<u8>)
    requires
        size_error(size) is None,
    ensures
        commands(display_size_bytes(size) + rest) == seq![InputCommand::SetDisplaySize(size)]
            + commands(rest),
{
    let payload = crate::wire::u16_bytes(size.width) + crate::wire::u16_bytes(size.height);
    crate::wire::law_u16_is_read_back(payload, 0, size.width);
    crate::wire::law_u16_is_read_back(payload, 2, size.height);
    assert(display_size_bytes(size) + rest =~= seq![SET_DISPLAY_SIZE] + payload + rest);
    lemma_first_command(SET_DISPLAY_SIZE, payload, rest);
}

/// The handshake that the agent writes, the service reads with the same size.
pub proof fn law_handshake_is_read_back(size: DesktopSize)
    requires
        size_error(size) is None,
    ensures
        handshake_bytes(size).len() == HELLO_LENGTH,
        read_handshake(handshake_bytes(size)) == Ok::<Handshake, BridgeError>(
            Handshake { version: PROTOCOL_VERSION, size },
        ),
{
    let data = handshake_bytes(size);
    crate::wire::law_u16_is_read_back(data, 4, PROTOCOL_VERSION);
    crate::wire::law_u16_is_read_back(data, 6, HELLO_LENGTH);
    crate::wire::law_u16_is_read_back(data, 8, size.width);
    crate::wire::law_u16_is_read_back(data, 10, size.height);
}

/// The header that the agent writes for a frame, the service reads with the same
/// size, and it asks for as many bytes as the frame has.
pub proof fn law_frame_is_read_back(frame: FrameModel)
    requires
        frame_error(frame) is None,
    ensures
        ({
            let header = frame_header(frame.size, frame.rgba.len() as u32);
            &&& header.len() == FRAME_HEADER_LENGTH
            &&& read_frame_header(header) == Ok::<DesktopSize, BridgeError>(frame.size)
            &&& frame.size.pixels() * 4 == frame.rgba.len()
        }),
{
    let header = frame_header(frame.size, frame.rgba.len() as u32);
    crate::wire::law_u16_is_read_back(header, 1, frame.size.width);
    crate::wire::law_u16_is_read_back(header, 3, frame.size.height);
    crate::wire::law_u32_is_read_back(header, 5, frame.rgba.len() as u32);
}

/// A handshake is `RDPH`, version 2, its length of 16 bytes, and the width and the height of
/// the desktop; the last four bytes are zero.
#[verifier::spinoff_prover]
#[verifier::rlimit(30)]
pub proof fn law_handshake_layout(size: DesktopSize)
    ensures
        ({
            let bytes = handshake_bytes(size);
            &&& bytes.len() == 16
            &&& bytes[0] == 'R' as u8 && bytes[1] == 'D' as u8 && bytes[2] == 'P' as u8 && bytes[3]
                == 'H' as u8
            &&& bytes[4] == 2 && bytes[5] == 0
            &&& bytes[6] == 16 && bytes[7] == 0
            &&& bytes[8] + 256 * bytes[9] == size.width
            &&& bytes[10] + 256 * bytes[11] == size.height
            &&& bytes[12] == 0 && bytes[13] == 0 && bytes[14] == 0 && bytes[15] == 0
        }),
{
}

/// A handshake is taken exactly if it begins with `RDPH`, has version 1 or 2 and a length of
/// 16, and tells of a desktop with pixels, of 134217728 bytes at most. The first thing that
/// is wrong is named.
#[verifier::spinoff_prover]
#[verifier::rlimit(30)]
pub proof fn law_handshakes_are_taken_exactly_if(data: Seq<u8>)
    requires
        data.len() == 16,
    ensures
        ({
            let magic = data[0] == 0x52 && data[1] == 0x44 && data[2] == 0x50 && data[3] == 0x48;
            let version = data[4] + 256 * data[5];
            let length = data[6] + 256 * data[7];
            let width = data[8] + 256 * data[9];
            let height = data[10] + 256 * data[11];
            let known = 1 <= version <= 2;
            let result = read_handshake(data);
            &&& !magic <==> result == Err::<Handshake, BridgeError>(BridgeError::InvalidMagic)
            &&& magic && !known ==> (result matches Err(BridgeError::UnsupportedVersion(v)) && v
                == version)
            &&& magic && known && length != 16 ==> (result matches Err(
                BridgeError::UnsupportedLength(l),
            ) && l == length)
            &&& magic && known && length == 16 && (width == 0 || height == 0) ==> result
                == Err::<Handshake, BridgeError>(BridgeError::ZeroSize)
            &&& magic && known && length == 16 && width > 0 && height > 0 && width * height * 4
                > 134217728 ==> result == Err::<Handshake, BridgeError>(BridgeError::TooLarge)
            &&& magic && known && length == 16 && width > 0 && height > 0 && width * height * 4
                <= 134217728 ==> (result matches Ok(hello) && hello.version == version
                && hello.size.width == width && hello.size.height == height)
        }),
{
}

/// A frame begins with 1, its width and height, and the number of its bytes. A header is
/// taken exactly if that number is four for each pixel, and 134217728 at most.
#[verifier::spinoff_prover]
#[verifier::rlimit(30)]
pub proof fn law_frame_headers_tell_their_length(size: DesktopSize, length: u32, header: Seq<u8>)
    requires
        header.len() == 9,
    ensures
        ({
            let bytes = frame_header(size, length);
            &&& bytes.len() == 9 && bytes[0] == 1
            &&& bytes[1] + 256 * bytes[2] == size.width
            &&& bytes[3] + 256 * bytes[4] == size.height
            &&& bytes[5] + 256 * bytes[6] + 65536 * bytes[7] + 16777216 * bytes[8] == length
        }),
        ({
            let width = header[1] + 256 * header[2];
            let height = header[3] + 256 * header[4];
            let told = header[5] + 256 * header[6] + 65536 * header[7] + 16777216 * header[8];
            let result = read_frame_header(header);
            &&& header[0] != 1 ==> result == Err::<DesktopSize, BridgeError>(
                BridgeError::UnexpectedMessage(header[0]),
            )
            &&& header[0] == 1 && width * height * 4 > 134217728 ==> result == Err::<
                DesktopSize,
                BridgeError,
            >(BridgeError::TooLarge)
            &&& header[0] == 1 && width * height * 4 <= 134217728 && told != width * height * 4
                ==> result == Err::<DesktopSize, BridgeError>(BridgeError::WrongFrameLength)
            &&& header[0] == 1 && width * height * 4 <= 134217728 && told == width * height * 4
                ==> (result matches Ok(size) && size.width == width && size.height == height)
        }),
{
}

/// A frame is sent exactly if it has four bytes for each pixel, and 134217728 at most.
pub proof fn law_only_whole_frames_are_sent(frame: FrameModel)
    ensures
        frame_error(frame) is None <==> frame.rgba.len() == frame.size.width * frame.size.height
            * 4 && frame.rgba.len() <= 134217728,
        frame_error(frame) == Some(BridgeError::TooLarge) <==> frame.size.width
            * frame.size.height * 4 > 134217728,
{
}

/// The bytes of a keyboard event: what happened, the key, and whether it is an extended one;
/// or what happened and the character. The state of the lock keys is not sent.
#[verifier::spinoff_prover]
#[verifier::rlimit(30)]
pub proof fn law_key_messages(code: u8, extended: bool, unit: u16, flags: u8)
    ensures
        ({
            let flag: u8 = if extended { 1 } else { 0 };
            let low = (unit % 256) as u8;
            let high = (unit / 256) as u8;
            &&& keyboard_bytes(KeyboardEvent::Pressed { code, extended }) == Some(
                seq![0x10u8, code, flag],
            )
            &&& keyboard_bytes(KeyboardEvent::Released { code, extended }) == Some(
                seq![0x11u8, code, flag],
            )
            &&& keyboard_bytes(KeyboardEvent::UnicodePressed(unit)) == Some(
                seq![0x12u8, low, high],
            )
            &&& keyboard_bytes(KeyboardEvent::UnicodeReleased(unit)) == Some(
                seq![0x13u8, low, high],
            )
            &&& keyboard_bytes(KeyboardEvent::Synchronize(flags)) is None
        }),
{
    let low = (unit % 256) as u8;
    let high = (unit / 256) as u8;
    assert(seq![0x12u8] + crate::wire::u16_bytes(unit) =~= seq![0x12u8, low, high]);
    assert(seq![0x13u8] + crate::wire::u16_bytes(unit) =~= seq![0x13u8, low, high]);
}

/// The bytes of a movement: 32 and a place, or 33 and a distance.
#[verifier::spinoff_prover]
pub proof fn law_movement_messages(x: u16, y: u16, across: i32, down: i32)
    ensures
        ({
            let moved = mouse_bytes(MouseEvent::Move { x, y });
            let shifted = mouse_bytes(MouseEvent::RelMove { x: across, y: down });
            &&& moved.len() == 5 && moved[0] == 32
            &&& moved[1] + 256 * moved[2] == x && moved[3] + 256 * moved[4] == y
            &&& shifted.len() == 9 && shifted[0] == 33
            &&& crate::wire::i32_of(crate::wire::u32_at(shifted, 1)) == across
            &&& crate::wire::i32_of(crate::wire::u32_at(shifted, 5)) == down
        }),
{
    let first = crate::wire::u32_of(across);
    let second = crate::wire::u32_of(down);
    let shifted = mouse_bytes(MouseEvent::RelMove { x: across, y: down });
    assert(shifted.subrange(1, 5) =~= crate::wire::u32_bytes(first));
    assert(shifted.subrange(5, 9) =~= crate::wire::u32_bytes(second));
    crate::wire::law_u32_is_read_back(shifted, 1, first);
    crate::wire::law_u32_is_read_back(shifted, 5, second);
}

/// The bytes of a button: those of the movement to its place, and behind them the button that
/// changed there, if it is known: 34 to 43, the even ones for a press.
#[verifier::spinoff_prover]
pub proof fn law_button_messages(
    x: u16,
    y: u16,
    across: i32,
    down: i32,
    button: MouseButton,
    pressed: bool,
)
    ensures
        ({
            let moved = mouse_bytes(MouseEvent::Move { x, y });
            let shifted = mouse_bytes(MouseEvent::RelMove { x: across, y: down });
            let here = mouse_bytes(MouseEvent::Button { x, y, button, pressed });
            let there = mouse_bytes(MouseEvent::ButtonRel { x: across, y: down, button, pressed });
            let first: u8 = match button {
                MouseButton::Left => 34,
                MouseButton::Right => 36,
                MouseButton::Middle => 38,
                MouseButton::X1 => 40,
                MouseButton::X2 => 42,
                MouseButton::Other => 0,
            };
            let kind: u8 = if pressed { first } else { (first + 1) as u8 };
            &&& button is Other ==> here == moved && there == shifted
            &&& !(button is Other) ==> here == moved.push(kind) && there == shifted.push(kind)
        }),
{
    let moved = mouse_bytes(MouseEvent::Move { x, y });
    let shifted = mouse_bytes(MouseEvent::RelMove { x: across, y: down });
    match button_type(button, pressed) {
        Some(kind) => {
            assert(moved + seq![kind] =~= moved.push(kind));
            assert(shifted + seq![kind] =~= shifted.push(kind));
        },
        None => {
            assert(moved + Seq::<u8>::empty() =~= moved);
            assert(shifted + Seq::<u8>::empty() =~= shifted);
        },
    }
}

/// The bytes of a wheel: 44 and how far the vertical one turns, or 45 and how far both do;
/// the horizontal one alone turns the other by nothing. A size is 48 and its sides.
#[verifier::spinoff_prover]
pub proof fn law_wheel_and_size_messages(value: i16, x: i32, y: i32, size: DesktopSize)
    ensures
        ({
            let vertical = mouse_bytes(MouseEvent::VerticalScroll { value });
            let both = mouse_bytes(MouseEvent::Scroll { x, y });
            let wished = display_size_bytes(size);
            &&& vertical.len() == 3 && vertical[0] == 44
            &&& crate::wire::i16_of(crate::wire::u16_at(vertical, 1)) == value
            &&& both.len() == 9 && both[0] == 45
            &&& crate::wire::i32_of(crate::wire::u32_at(both, 1)) == x
            &&& crate::wire::i32_of(crate::wire::u32_at(both, 5)) == y
            &&& mouse_bytes(MouseEvent::HorizontalScroll { value }) == mouse_bytes(
                MouseEvent::Scroll { x: value as i32, y: 0 },
            )
            &&& wished.len() == 5 && wished[0] == 48
            &&& wished[1] + 256 * wished[2] == size.width
            &&& wished[3] + 256 * wished[4] == size.height
        }),
{
    let vertical = mouse_bytes(MouseEvent::VerticalScroll { value });
    let both = mouse_bytes(MouseEvent::Scroll { x, y });
    let turned = crate::wire::u16_of(value);
    let first = crate::wire::u32_of(x);
    let second = crate::wire::u32_of(y);
    assert(vertical.subrange(1, 3) =~= crate::wire::u16_bytes(turned));
    assert(both.subrange(1, 5) =~= crate::wire::u32_bytes(first));
    assert(both.subrange(5, 9) =~= crate::wire::u32_bytes(second));
    crate::wire::law_u16_is_read_back(vertical, 1, turned);
    crate::wire::law_u32_is_read_back(both, 1, first);
    crate::wire::law_u32_is_read_back(both, 5, second);
}

/// What follows the first byte of a message is as long as its kind says: two bytes for a key
/// or the vertical wheel, four for a place or a size, eight for a distance or both wheels,
/// none for a button. Every other kind is unknown.
#[verifier::spinoff_prover]
#[verifier::rlimit(30)]
pub proof fn law_messages_have_their_lengths(kind: u8, payload: Seq<u8>)
    ensures
        0x10 <= kind <= 0x13 || kind == 0x2c ==> payload_length(kind) == Some(2usize),
        kind == 0x20 || kind == 0x30 ==> payload_length(kind) == Some(4usize),
        kind == 0x21 || kind == 0x2d ==> payload_length(kind) == Some(8usize),
        0x22 <= kind <= 0x2b ==> payload_length(kind) == Some(0usize),
        payload_length(kind) is None <==> kind < 0x10 || 0x13 < kind < 0x20 || 0x2d < kind < 0x30
            || kind > 0x30,
        payload_length(kind) is None <==> read_input(kind, payload) == Err::<
            InputCommand,
            BridgeError,
        >(BridgeError::UnknownInput(kind)),
{
}

/// A wish for a size is taken exactly if the size has pixels, and 134217728 bytes at most;
/// every other message of a known kind is taken.
#[verifier::spinoff_prover]
#[verifier::rlimit(30)]
pub proof fn law_only_sizes_are_refused(kind: u8, payload: Seq<u8>)
    requires
        payload_length(kind) == Some(payload.len() as usize),
        payload.len() <= 8,
    ensures
        ({
            let width = payload[0] + 256 * payload[1];
            let height = payload[2] + 256 * payload[3];
            let result = read_input(kind, payload);
            &&& kind != 0x30 ==> result is Ok && !(result->Ok_0 is SetDisplaySize)
            &&& kind == 0x30 && (width == 0 || height == 0) ==> result == Err::<
                InputCommand,
                BridgeError,
            >(BridgeError::ZeroSize)
            &&& kind == 0x30 && width > 0 && height > 0 && width * height * 4 > 134217728
                ==> result == Err::<InputCommand, BridgeError>(BridgeError::TooLarge)
            &&& kind == 0x30 && width > 0 && height > 0 && width * height * 4 <= 134217728 ==> (
            result matches Ok(InputCommand::SetDisplaySize(size)) && size.width == width
                && size.height == height)
            &&& 0x10 <= kind <= 0x11 ==> (result matches Ok(InputCommand::Keyboard(event)) && (
            event matches KeyboardEvent::Pressed { code, extended } ==> kind == 0x10 && code
                == payload[0] && extended == (payload[1] != 0)) && (
            event matches KeyboardEvent::Released { code, extended } ==> kind == 0x11 && code
                == payload[0] && extended == (payload[1] != 0)) && (event is Pressed
                || event is Released))
        }),
{
}

} // verus!
