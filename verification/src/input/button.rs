//! Buttons: of the mouse, and keyboard keys by scan code and by name.

use vstd::prelude::*;
use crate::windowing::VirtualKeyCode;

verus! {

#[derive(Debug, Copy, Clone, PartialEq, Eq, Hash, Structural)]
pub enum ButtonState {
    /// Button is up since change_frame
    Up { change_frame: u64 },
    /// Button is down since change_frame
    Down { change_frame: u64 },
}

#[derive(Debug, Copy, Clone, PartialEq, Eq, Hash, Structural)]
pub enum ButtonId {
    MouseButton(MouseButtonId),
    KeyboardPhysical(KeyboardPhysicalKeyId),
    KeyboardVirtual(KeyboardVirtualKeyId),
}

#[derive(Debug, Copy, Clone, PartialEq, Eq, Hash, Structural)]
pub enum MouseButtonId {
    Left,
    Right,
    Middle,
    Other { winit_id: u16 },
}

#[derive(Debug, Copy, Clone, PartialEq, Eq, Hash, Structural)]
pub struct KeyboardPhysicalKeyId {
    pub scan_code: u32,
}

#[derive(Debug, Copy, Clone, PartialEq, Eq, Hash, Structural)]
pub struct KeyboardVirtualKeyId {
    pub winit_virtual_key_code: VirtualKeyCode,
}

/// The place of a named key among the named keys, or the number of another key.
pub open spec fn virtual_key_number(key: VirtualKeyCode) -> (nat, nat) {
    match key {
        VirtualKeyCode::A => (3, 0),
        VirtualKeyCode::B => (3, 1),
        VirtualKeyCode::C => (3, 2),
        VirtualKeyCode::D => (3, 3),
        VirtualKeyCode::E => (3, 4),
        VirtualKeyCode::F => (3, 5),
        VirtualKeyCode::G => (3, 6),
        VirtualKeyCode::H => (3, 7),
        VirtualKeyCode::I => (3, 8),
        VirtualKeyCode::J => (3, 9),
        VirtualKeyCode::K => (3, 10),
        VirtualKeyCode::L => (3, 11),
        VirtualKeyCode::M => (3, 12),
        VirtualKeyCode::N => (3, 13),
        VirtualKeyCode::O => (3, 14),
        VirtualKeyCode::P => (3, 15),
        VirtualKeyCode::Q => (3, 16),
        VirtualKeyCode::R => (3, 17),
        VirtualKeyCode::S => (3, 18),
        VirtualKeyCode::T => (3, 19),
        VirtualKeyCode::U => (3, 20),
        VirtualKeyCode::V => (3, 21),
        VirtualKeyCode::W => (3, 22),
        VirtualKeyCode::X => (3, 23),
        VirtualKeyCode::Y => (3, 24),
        VirtualKeyCode::Z => (3, 25),
        VirtualKeyCode::Left => (3, 26),
        VirtualKeyCode::Up => (3, 27),
        VirtualKeyCode::Right => (3, 28),
        VirtualKeyCode::Down => (3, 29),
        VirtualKeyCode::Escape => (3, 30),
        VirtualKeyCode::Other(code) => (4, code as nat),
    }
}

fn virtual_key_code(key: VirtualKeyCode) -> (code: u64)
    ensures
        code == virtual_key_number(key).0 * 0x1_0000_0000 + virtual_key_number(key).1,
{
    match key {
        VirtualKeyCode::A => 0x3_0000_0000,
        VirtualKeyCode::B => 0x3_0000_0001,
        VirtualKeyCode::C => 0x3_0000_0002,
        VirtualKeyCode::D => 0x3_0000_0003,
        VirtualKeyCode::E => 0x3_0000_0004,
        VirtualKeyCode::F => 0x3_0000_0005,
        VirtualKeyCode::G => 0x3_0000_0006,
        VirtualKeyCode::H => 0x3_0000_0007,
        VirtualKeyCode::I => 0x3_0000_0008,
        VirtualKeyCode::J => 0x3_0000_0009,
        VirtualKeyCode::K => 0x3_0000_000a,
        VirtualKeyCode::L => 0x3_0000_000b,
        VirtualKeyCode::M => 0x3_0000_000c,
        VirtualKeyCode::N => 0x3_0000_000d,
        VirtualKeyCode::O => 0x3_0000_000e,
        VirtualKeyCode::P => 0x3_0000_000f,
        VirtualKeyCode::Q => 0x3_0000_0010,
        VirtualKeyCode::R => 0x3_0000_0011,
        VirtualKeyCode::S => 0x3_0000_0012,
        VirtualKeyCode::T => 0x3_0000_0013,
        VirtualKeyCode::U => 0x3_0000_0014,
        VirtualKeyCode::V => 0x3_0000_0015,
        VirtualKeyCode::W => 0x3_0000_0016,
        VirtualKeyCode::X => 0x3_0000_0017,
        VirtualKeyCode::Y => 0x3_0000_0018,
        VirtualKeyCode::Z => 0x3_0000_0019,
        VirtualKeyCode::Left => 0x3_0000_001a,
        VirtualKeyCode::Up => 0x3_0000_001b,
        VirtualKeyCode::Right => 0x3_0000_001c,
        VirtualKeyCode::Down => 0x3_0000_001d,
        VirtualKeyCode::Escape => 0x3_0000_001e,
        VirtualKeyCode::Other(code) => {
            let low: u64 = code as u64;
            0x4_0000_0000 + low
        },
    }
}

impl ButtonId {
    /// The left button of the mouse.
    pub fn mouse_left() -> (id: ButtonId)
        ensures
            id == ButtonId::MouseButton(MouseButtonId::Left),
    {
        ButtonId::MouseButton(MouseButtonId::Left)
    }

    /// The right button of the mouse.
    pub fn mouse_right() -> (id: ButtonId)
        ensures
            id == ButtonId::MouseButton(MouseButtonId::Right),
    {
        ButtonId::MouseButton(MouseButtonId::Right)
    }

    /// The button of a named keyboard key.
    pub fn key(winit_virtual_key_code: VirtualKeyCode) -> (id: ButtonId)
        ensures
            id == ButtonId::KeyboardVirtual(KeyboardVirtualKeyId { winit_virtual_key_code }),
    {
        ButtonId::KeyboardVirtual(KeyboardVirtualKeyId { winit_virtual_key_code })
    }

    /// The number under which the state of the button is filed: a class of
    /// buttons in the upper half, the button within its class in the lower.
    pub open spec fn number(self) -> nat {
        match self {
            ButtonId::MouseButton(MouseButtonId::Left) => 0,
            ButtonId::MouseButton(MouseButtonId::Right) => 1,
            ButtonId::MouseButton(MouseButtonId::Middle) => 2,
            ButtonId::MouseButton(MouseButtonId::Other { winit_id }) => 0x1_0000_0000 + winit_id as nat,
            ButtonId::KeyboardPhysical(key) => 0x2_0000_0000 + key.scan_code as nat,
            ButtonId::KeyboardVirtual(key) => virtual_key_number(key.winit_virtual_key_code).0
                * 0x1_0000_0000 + virtual_key_number(key.winit_virtual_key_code).1,
        }
    }

    /// No two buttons are filed under the same number.
    pub proof fn lemma_number_injective(a: ButtonId, b: ButtonId)
        requires
            a.number() == b.number(),
        ensures
            a == b,
    {
    }

    /// The number under which the state of the button is filed.
    pub fn code(&self) -> (code: u64)
        ensures
            code == self.number(),
    {
        match self {
            ButtonId::MouseButton(MouseButtonId::Left) => 0,
            ButtonId::MouseButton(MouseButtonId::Right) => 1,
            ButtonId::MouseButton(MouseButtonId::Middle) => 2,
            ButtonId::MouseButton(MouseButtonId::Other { winit_id }) => {
                let low: u64 = *winit_id as u64;
                0x1_0000_0000 + low
            },
            ButtonId::KeyboardPhysical(key) => {
                let low: u64 = key.scan_code as u64;
                0x2_0000_0000 + low
            },
            ButtonId::KeyboardVirtual(key) => virtual_key_code(key.winit_virtual_key_code),
        }
    }
}

} // verus!
