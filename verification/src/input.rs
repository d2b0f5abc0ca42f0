//! Input: the state of buttons, of the cursor and of the modifier keys.

pub mod button;
pub mod cursor;

use std::collections::HashMap;
use vstd::prelude::*;
use crate::context::EngineContext;
use crate::event::Event;
use crate::event::EventReceiver;
use crate::event::EventType;
use crate::rendering::GpuBackend;
use crate::utils::unwrap_mut;
use crate::utils::unwrap_ref;
use crate::windowing::ElementState;
use crate::windowing::MouseButton;
use crate::windowing::WindowEvent;
use button::ButtonId;
use button::ButtonState;
use button::KeyboardPhysicalKeyId;
use button::KeyboardVirtualKeyId;
use button::MouseButtonId;
use cursor::CursorPosition;
use cursor::CursorState;
use cursor::UNKNOWN_COORDINATE_BITS;

verus! {

broadcast use vstd::std_specs::hash::group_hash_axioms;

/// Returns true iff the button is down (i.e was pressed this frame or is being held).
pub fn is_button_down<G: GpuBackend>(ctx: &mut EngineContext<G>, button_id: &ButtonId) -> (down: bool)
    requires
        old(ctx).input_system is Some,
    ensures
        down == old(ctx).input_system->0@.is_button_down(*button_id),
        *final(ctx) == *old(ctx),
{
    let state = unwrap_ref(&ctx.input_system).button_state_or_default(button_id);
    match state {
        ButtonState::Up { .. } => false,
        ButtonState::Down { .. } => true,
    }
}

/// Returns true iff the button was pressed THIS SPECIFIC FRAME, but false for all other frames if the user
/// continues to hold it down.
pub fn is_button_pressed<G: GpuBackend>(ctx: &mut EngineContext<G>, button_id: &ButtonId) -> (pressed:
    bool)
    requires
        old(ctx).input_system is Some,
    ensures
        pressed == old(ctx).input_system->0@.is_button_pressed(*button_id),
        *final(ctx) == *old(ctx),
{
    let curr_frame = unwrap_ref(&ctx.input_system).frame_count();
    let state = unwrap_ref(&ctx.input_system).button_state_or_default(button_id);
    match state {
        ButtonState::Up { .. } => false,
        ButtonState::Down { change_frame } => change_frame == curr_frame,
    }
}

#[derive(Debug, Copy, Clone, PartialEq, Eq, Hash, Structural)]
pub struct ModifierKeyState {
    pub shift: bool,
    pub alt: bool,
    pub ctrl: bool,
    pub logo: bool,
}

/// The button that a button of the mouse is known as.
pub open spec fn mouse_button_id(button: MouseButton) -> ButtonId {
    ButtonId::MouseButton(
        match button {
            MouseButton::Left => MouseButtonId::Left,
            MouseButton::Right => MouseButtonId::Right,
            MouseButton::Middle => MouseButtonId::Middle,
            MouseButton::Other(x) => MouseButtonId::Other { winit_id: x },
        },
    )
}

/// What the input system knows.
pub ghost struct InputState {
    /// The number of the current frame.
    pub frame_count: u64,
    pub cursor_state: CursorState,
    /// The place where the cursor was last seen.
    pub cursor_pos: CursorPosition,
    pub modifier_state: ModifierKeyState,
    /// The state of every button that was ever pressed or released.
    pub buttons: Map<ButtonId, ButtonState>,
}

impl InputState {
    /// The state of a button; a button that was never touched is up since
    /// frame 0.
    pub open spec fn button_state_or_default(self, button_id: ButtonId) -> ButtonState {
        if self.buttons.contains_key(button_id) {
            self.buttons[button_id]
        } else {
            ButtonState::Up { change_frame: 0 }
        }
    }

    /// True iff the button is down.
    pub open spec fn is_button_down(self, button_id: ButtonId) -> bool {
        self.button_state_or_default(button_id) is Down
    }

    /// True iff the button went down in the current frame.
    pub open spec fn is_button_pressed(self, button_id: ButtonId) -> bool {
        self.button_state_or_default(button_id) == (ButtonState::Down {
            change_frame: self.frame_count,
        })
    }

    /// The state after a button was reported pressed or released: a button
    /// changes state, in the current frame, only when the report differs
    /// from what is known of it.
    pub open spec fn with_button_input(self, button_id: ButtonId, state: ElementState) -> InputState {
        let changed = match state {
            ElementState::Pressed => ButtonState::Down { change_frame: self.frame_count },
            ElementState::Released => ButtonState::Up { change_frame: self.frame_count },
        };
        let keeps = self.buttons.contains_key(button_id) && (match state {
            ElementState::Pressed => self.buttons[button_id] is Down,
            ElementState::Released => self.buttons[button_id] is Up,
        });
        if keeps {
            self
        } else {
            InputState { buttons: self.buttons.insert(button_id, changed), ..self }
        }
    }

    /// The state after an input event of the window.
    pub open spec fn after_window_event(self, evt: WindowEvent) -> InputState {
        match evt {
            WindowEvent::CursorMoved { x_bits, y_bits } => InputState {
                cursor_pos: CursorPosition { x_bits, y_bits },
                ..self
            },
            WindowEvent::CursorEntered => InputState { cursor_state: CursorState::InsideScreen, ..self },
            WindowEvent::CursorLeft => InputState { cursor_state: CursorState::OutsideScreen, ..self },
            WindowEvent::ModifiersChanged(modifiers) => InputState {
                modifier_state: ModifierKeyState {
                    shift: modifiers.shift,
                    alt: modifiers.alt,
                    ctrl: modifiers.ctrl,
                    logo: modifiers.logo,
                },
                ..self
            },
            WindowEvent::KeyboardInput { input, is_synthetic } => {
                let physical = self.with_button_input(
                    ButtonId::KeyboardPhysical(KeyboardPhysicalKeyId { scan_code: input.scancode }),
                    input.state,
                );
                match input.virtual_keycode {
                    Some(winit_virtual_key_code) => physical.with_button_input(
                        ButtonId::KeyboardVirtual(KeyboardVirtualKeyId { winit_virtual_key_code }),
                        input.state,
                    ),
                    None => physical,
                }
            },
            WindowEvent::MouseInput { state, button } => self.with_button_input(
                mouse_button_id(button),
                state,
            ),
            _ => self,
        }
    }

    /// The state at the start of the next frame.
    pub open spec fn in_next_frame(self) -> InputState
        recommends
            self.frame_count < u64::MAX,
    {
        InputState { frame_count: (self.frame_count + 1) as u64, ..self }
    }

    /// The cursor: its state, and its position if it is inside the screen.
    pub open spec fn cursor_info(self) -> (CursorState, Option<CursorPosition>) {
        if self.cursor_state is InsideScreen {
            (self.cursor_state, Some(self.cursor_pos))
        } else {
            (self.cursor_state, None)
        }
    }
}

pub struct InputSystem {
    frame_count: u64,
    cursor_state: CursorState,
    /// May give incorrect info if cursor_state isn't InsideScreen.
    cursor_pos: CursorPosition,
    modifier_state: ModifierKeyState,
    /// Includes mouse buttons and keyboard keys by scan code and by name,
    /// each under its number.
    buttons: HashMap<u64, ButtonState>,
}

impl InputSystem {
    /// What the input system knows.
    pub closed spec fn view(&self) -> InputState {
        InputState {
            frame_count: self.frame_count,
            cursor_state: self.cursor_state,
            cursor_pos: self.cursor_pos,
            modifier_state: self.modifier_state,
            buttons: Map::new(
                |id: ButtonId| self.buttons@.contains_key(id.number() as u64),
                |id: ButtonId| self.buttons@[id.number() as u64],
            ),
        }
    }

    /// An input system in frame 0 that has seen nothing yet: no button, the
    /// cursor in an unknown state at an unknown place, no modifier key held.
    pub fn new() -> (system: Self)
        ensures
            system@ == (InputState {
                frame_count: 0,
                cursor_state: CursorState::Unknown,
                cursor_pos: CursorPosition {
                    x_bits: UNKNOWN_COORDINATE_BITS,
                    y_bits: UNKNOWN_COORDINATE_BITS,
                },
                modifier_state: ModifierKeyState { shift: false, alt: false, ctrl: false, logo: false },
                buttons: Map::<ButtonId, ButtonState>::empty(),
            }),
    {
        let system = InputSystem {
            frame_count: 0,
            cursor_state: CursorState::Unknown,
            cursor_pos: CursorPosition {
                x_bits: UNKNOWN_COORDINATE_BITS,
                y_bits: UNKNOWN_COORDINATE_BITS,
            },
            modifier_state: ModifierKeyState { shift: false, alt: false, ctrl: false, logo: false },
            buttons: HashMap::new(),
        };
        assert(system@.buttons =~= Map::<ButtonId, ButtonState>::empty());
        system
    }

    /// Defaults to `ButtonState::Up{change_frame: 0}`
    pub fn button_state_or_default(&self, button_id: &ButtonId) -> (state: ButtonState)
        ensures
            state == self@.button_state_or_default(*button_id),
    {
        let code = button_id.code();
        match self.buttons.get(&code) {
            Some(state) => *state,
            None => ButtonState::Up { change_frame: 0 },
        }
    }

    /// The number of the current frame.
    pub fn frame_count(&self) -> (frame_count: u64)
        ensures
            frame_count == self@.frame_count,
    {
        self.frame_count
    }

    /// The state of the modifier keys.
    pub fn modifier_state(&self) -> (modifier_state: ModifierKeyState)
        ensures
            modifier_state == self@.modifier_state,
    {
        self.modifier_state
    }

    /// The cursor: its state, and its position if it is inside the screen.
    pub fn cursor_info(&self) -> (info: (CursorState, Option<CursorPosition>))
        ensures
            info == self@.cursor_info(),
    {
        let cs = self.cursor_state;
        match cs {
            CursorState::InsideScreen => (cs, Some(self.cursor_pos)),
            _ => (cs, None),
        }
    }

    /// Begins the next frame. The start of a frame is always the first event
    /// of the frame, followed by inputs, and only then comes the update, so
    /// the frame counter is the same for all inputs of a frame and at the
    /// time they are read.
    pub fn start_new_frame(&mut self)
        requires
            old(self)@.frame_count < u64::MAX,
        ensures
            final(self)@ == old(self)@.in_next_frame(),
    {
        self.frame_count += 1;
    }

    /// Files what the window reported of a button.
    pub fn handle_winit_button_input(&mut self, button_id: ButtonId, state: ElementState)
        ensures
            final(self)@ == old(self)@.with_button_input(button_id, state),
    {
        let code = button_id.code();
        let ghost pre = self@;
        let known = match self.buttons.get(&code) {
            Some(s) => Some(*s),
            None => None,
        };
        let changed = match state {
            ElementState::Pressed => ButtonState::Down { change_frame: self.frame_count },
            ElementState::Released => ButtonState::Up { change_frame: self.frame_count },
        };
        let keeps = match known {
            Some(ButtonState::Up { .. }) => match state {
                ElementState::Pressed => false,
                ElementState::Released => true,
            },
            Some(ButtonState::Down { .. }) => match state {
                ElementState::Pressed => true,
                ElementState::Released => false,
            },
            None => false,
        };
        if !keeps {
            self.buttons.insert(code, changed);
            proof {
                assert forall|id: ButtonId| id.number() == button_id.number() implies id
                    == button_id by {
                    ButtonId::lemma_number_injective(id, button_id);
                }
                assert(self@.buttons =~= pre.buttons.insert(button_id, changed));
            }
        }
    }

    /// Takes note of an input event of the window.
    pub fn receive_winit_windowing_event(&mut self, evt: &WindowEvent)
        requires
            evt.is_input(),
        ensures
            final(self)@ == old(self)@.after_window_event(*evt),
    {
        match evt {
            WindowEvent::CursorMoved { x_bits, y_bits } => {
                self.cursor_pos = CursorPosition { x_bits: *x_bits, y_bits: *y_bits };
            },
            WindowEvent::CursorEntered => {
                self.cursor_state = CursorState::InsideScreen;
            },
            WindowEvent::CursorLeft => {
                self.cursor_state = CursorState::OutsideScreen;
            },
            WindowEvent::ModifiersChanged(modifiers) => {
                self.modifier_state = ModifierKeyState {
                    shift: modifiers.shift,
                    alt: modifiers.alt,
                    ctrl: modifiers.ctrl,
                    logo: modifiers.logo,
                };
            },
            WindowEvent::KeyboardInput { input, is_synthetic } => {
                let pk = ButtonId::KeyboardPhysical(KeyboardPhysicalKeyId { scan_code: input.scancode });
                self.handle_winit_button_input(pk, input.state);
                if let Some(winit_virtual_key_code) = input.virtual_keycode {
                    let vk = ButtonId::KeyboardVirtual(KeyboardVirtualKeyId { winit_virtual_key_code });
                    self.handle_winit_button_input(vk, input.state);
                }
            },
            WindowEvent::MouseInput { state, button } => {
                let k = ButtonId::MouseButton(
                    match button {
                        MouseButton::Left => MouseButtonId::Left,
                        MouseButton::Right => MouseButtonId::Right,
                        MouseButton::Middle => MouseButtonId::Middle,
                        MouseButton::Other(x) => MouseButtonId::Other { winit_id: *x },
                    },
                );
                self.handle_winit_button_input(k, *state);
            },
            _ => {},
        }
    }

    /// Device events tell the input system nothing.
    pub fn receive_winit_device_event(&mut self)
        ensures
            *final(self) == *old(self),
    {
    }
}

impl<G: GpuBackend> EventReceiver<G> for InputSystem {
    open spec fn receives(evt_type: EventType) -> bool {
        evt_type is StartEvent
    }

    open spec fn accepts(ctx: EngineContext<G>, evt: Event) -> bool {
        ctx.input_system is Some && ctx.input_system->0@.frame_count < u64::MAX
    }

    open spec fn received(pre: EngineContext<G>, evt: Event, post: EngineContext<G>) -> bool {
        &&& post.input_system is Some
        &&& post.input_system->0@ == pre.input_system->0@.in_next_frame()
        &&& post == (EngineContext { input_system: post.input_system, ..pre })
    }

    fn receives_event_type(evt_type: EventType) -> (receives: bool) {
        match evt_type {
            EventType::StartEvent => true,
            _ => false,
        }
    }

    fn receive_event(ctx: &mut EngineContext<G>, evt: Event) {
        unwrap_mut(&mut ctx.input_system).start_new_frame()
    }
}

} // verus!
