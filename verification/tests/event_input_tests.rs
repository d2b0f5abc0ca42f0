use mat_engine::event::Event;
use mat_engine::event::EventQueue;
use mat_engine::event::EventType;
use mat_engine::event::WindowResizeEvent;
use mat_engine::input::button::ButtonId;
use mat_engine::input::button::ButtonState;
use mat_engine::input::button::KeyboardPhysicalKeyId;
use mat_engine::input::button::KeyboardVirtualKeyId;
use mat_engine::input::button::MouseButtonId;
use mat_engine::input::cursor::CursorPosition;
use mat_engine::input::cursor::CursorState;
use mat_engine::input::cursor::UNKNOWN_COORDINATE_BITS;
use mat_engine::input::InputSystem;
use mat_engine::input::ModifierKeyState;
use mat_engine::windowing::ElementState;
use mat_engine::windowing::KeyboardInput;
use mat_engine::windowing::ModifiersState;
use mat_engine::windowing::MouseButton;
use mat_engine::windowing::PhysicalSize;
use mat_engine::windowing::VirtualKeyCode;
use mat_engine::windowing::WindowEvent;

fn resize(width: u32, height: u32) -> Event {
    Event::WindowResizeEvent(WindowResizeEvent { new_size: PhysicalSize { width, height } })
}

#[test]
fn event_queue_is_first_in_first_out() {
    let mut queue = EventQueue::new();
    assert!(queue.is_empty());
    assert_eq!(queue.retrieve_event(), None);
    queue.push_event(resize(3, 4));
    queue.push_event(Event::Start);
    queue.push_event(Event::PreUpdateEvent);
    assert_eq!(queue.len(), 3);
    assert!(!queue.is_empty());
    assert_eq!(queue.retrieve_event(), Some(resize(3, 4)));
    assert_eq!(queue.retrieve_event(), Some(Event::Start));
    assert_eq!(queue.retrieve_event(), Some(Event::PreUpdateEvent));
    assert_eq!(queue.retrieve_event(), None);
    assert!(queue.is_empty());
}

#[test]
fn every_event_has_its_type() {
    assert_eq!(resize(1, 1).event_type(), EventType::WindowResizeEvent);
    assert_eq!(Event::Start.event_type(), EventType::StartEvent);
    assert_eq!(Event::PreUpdateEvent.event_type(), EventType::PreUpdateEvent);
    assert_eq!(Event::PostUpdateEvent.event_type(), EventType::PostUpdateEvent);
    assert_eq!(Event::PreRenderEvent.event_type(), EventType::PreRenderEvent);
    assert_eq!(Event::PostRenderEvent.event_type(), EventType::PostRenderEvent);
}

#[test]
fn new_input_system_knows_nothing() {
    let input = InputSystem::new();
    assert_eq!(input.frame_count(), 0);
    assert_eq!(input.cursor_info(), (CursorState::Unknown, None));
    assert_eq!(
        input.modifier_state(),
        ModifierKeyState { shift: false, alt: false, ctrl: false, logo: false }
    );
    assert_eq!(
        input.button_state_or_default(&ButtonId::mouse_left()),
        ButtonState::Up { change_frame: 0 }
    );
    assert_eq!(UNKNOWN_COORDINATE_BITS, f64::NAN.to_bits());
}

#[test]
fn button_changes_state_in_the_frame_of_the_report() {
    let mut input = InputSystem::new();
    let a = ButtonId::key(VirtualKeyCode::A);
    input.start_new_frame();
    input.start_new_frame();
    input.handle_winit_button_input(a, ElementState::Pressed);
    assert_eq!(input.button_state_or_default(&a), ButtonState::Down { change_frame: 2 });
    input.start_new_frame();
    // Held: a repeated report does not change the frame of the change.
    input.handle_winit_button_input(a, ElementState::Pressed);
    assert_eq!(input.button_state_or_default(&a), ButtonState::Down { change_frame: 2 });
    input.handle_winit_button_input(a, ElementState::Released);
    assert_eq!(input.button_state_or_default(&a), ButtonState::Up { change_frame: 3 });
    input.start_new_frame();
    input.handle_winit_button_input(a, ElementState::Released);
    assert_eq!(input.button_state_or_default(&a), ButtonState::Up { change_frame: 3 });
}

#[test]
fn first_report_of_a_release_files_the_button_as_up() {
    let mut input = InputSystem::new();
    input.start_new_frame();
    let right = ButtonId::mouse_right();
    input.handle_winit_button_input(right, ElementState::Released);
    assert_eq!(input.button_state_or_default(&right), ButtonState::Up { change_frame: 1 });
}

#[test]
fn buttons_are_filed_apart() {
    let ids = vec![
        ButtonId::mouse_left(),
        ButtonId::mouse_right(),
        ButtonId::MouseButton(MouseButtonId::Middle),
        ButtonId::MouseButton(MouseButtonId::Other { winit_id: 0 }),
        ButtonId::MouseButton(MouseButtonId::Other { winit_id: 2 }),
        ButtonId::MouseButton(MouseButtonId::Other { winit_id: u16::MAX }),
        ButtonId::KeyboardPhysical(KeyboardPhysicalKeyId { scan_code: 0 }),
        ButtonId::KeyboardPhysical(KeyboardPhysicalKeyId { scan_code: 2 }),
        ButtonId::KeyboardPhysical(KeyboardPhysicalKeyId { scan_code: u32::MAX }),
        ButtonId::key(VirtualKeyCode::A),
        ButtonId::key(VirtualKeyCode::B),
        ButtonId::key(VirtualKeyCode::Z),
        ButtonId::key(VirtualKeyCode::Left),
        ButtonId::key(VirtualKeyCode::Escape),
        ButtonId::key(VirtualKeyCode::Other(0)),
        ButtonId::key(VirtualKeyCode::Other(30)),
        ButtonId::key(VirtualKeyCode::Other(u32::MAX)),
    ];
    for (i, a) in ids.iter().enumerate() {
        for (j, b) in ids.iter().enumerate() {
            assert_eq!(i == j, a.code() == b.code());
        }
    }
    assert_eq!(ButtonId::mouse_left().code(), 0);
    assert_eq!(ButtonId::MouseButton(MouseButtonId::Other { winit_id: 7 }).code(), 0x1_0000_0007);
    assert_eq!(
        ButtonId::KeyboardPhysical(KeyboardPhysicalKeyId { scan_code: 30 }).code(),
        0x2_0000_001e
    );
    assert_eq!(ButtonId::key(VirtualKeyCode::Escape).code(), 0x3_0000_001e);
    assert_eq!(ButtonId::key(VirtualKeyCode::Other(30)).code(), 0x4_0000_001e);

    let mut input = InputSystem::new();
    input.start_new_frame();
    for id in &ids {
        input.handle_winit_button_input(*id, ElementState::Pressed);
    }
    input.start_new_frame();
    input.handle_winit_button_input(ids[3], ElementState::Released);
    for (i, id) in ids.iter().enumerate() {
        let expected = if i == 3 {
            ButtonState::Up { change_frame: 2 }
        } else {
            ButtonState::Down { change_frame: 1 }
        };
        assert_eq!(input.button_state_or_default(id), expected);
    }
}

#[test]
fn keyboard_input_files_the_physical_and_the_virtual_key() {
    let mut input = InputSystem::new();
    input.start_new_frame();
    input.receive_winit_windowing_event(&WindowEvent::KeyboardInput {
        input: KeyboardInput {
            scancode: 16,
            state: ElementState::Pressed,
            virtual_keycode: Some(VirtualKeyCode::Q),
        },
        is_synthetic: false,
    });
    let physical = ButtonId::KeyboardPhysical(KeyboardPhysicalKeyId { scan_code: 16 });
    let named =
        ButtonId::KeyboardVirtual(KeyboardVirtualKeyId { winit_virtual_key_code: VirtualKeyCode::Q });
    assert_eq!(input.button_state_or_default(&physical), ButtonState::Down { change_frame: 1 });
    assert_eq!(input.button_state_or_default(&named), ButtonState::Down { change_frame: 1 });
    assert_eq!(named, ButtonId::key(VirtualKeyCode::Q));

    input.receive_winit_windowing_event(&WindowEvent::KeyboardInput {
        input: KeyboardInput { scancode: 17, state: ElementState::Pressed, virtual_keycode: None },
        is_synthetic: true,
    });
    let other = ButtonId::KeyboardPhysical(KeyboardPhysicalKeyId { scan_code: 17 });
    assert_eq!(input.button_state_or_default(&other), ButtonState::Down { change_frame: 1 });
    assert_eq!(
        input.button_state_or_default(&ButtonId::key(VirtualKeyCode::W)),
        ButtonState::Up { change_frame: 0 }
    );
}

#[test]
fn mouse_input_files_the_mouse_button() {
    let mut input = InputSystem::new();
    input.start_new_frame();
    input.receive_winit_windowing_event(&WindowEvent::MouseInput {
        state: ElementState::Pressed,
        button: MouseButton::Left,
    });
    input.receive_winit_windowing_event(&WindowEvent::MouseInput {
        state: ElementState::Pressed,
        button: MouseButton::Other(9),
    });
    assert_eq!(
        input.button_state_or_default(&ButtonId::mouse_left()),
        ButtonState::Down { change_frame: 1 }
    );
    assert_eq!(
        input.button_state_or_default(&ButtonId::MouseButton(MouseButtonId::Other { winit_id: 9 })),
        ButtonState::Down { change_frame: 1 }
    );
    assert_eq!(
        input.button_state_or_default(&ButtonId::mouse_right()),
        ButtonState::Up { change_frame: 0 }
    );
}

#[test]
fn cursor_position_is_given_only_inside_the_screen() {
    let mut input = InputSystem::new();
    let x = 12.5f64.to_bits();
    let y = 99.0f64.to_bits();
    input.receive_winit_windowing_event(&WindowEvent::CursorMoved { x_bits: x, y_bits: y });
    assert_eq!(input.cursor_info(), (CursorState::Unknown, None));
    input.receive_winit_windowing_event(&WindowEvent::CursorEntered);
    assert_eq!(
        input.cursor_info(),
        (CursorState::InsideScreen, Some(CursorPosition { x_bits: x, y_bits: y }))
    );
    input.receive_winit_windowing_event(&WindowEvent::CursorLeft);
    assert_eq!(input.cursor_info(), (CursorState::OutsideScreen, None));
}

#[test]
fn modifiers_follow_the_last_report() {
    let mut input = InputSystem::new();
    input.receive_winit_windowing_event(&WindowEvent::ModifiersChanged(ModifiersState {
        shift: true,
        ctrl: false,
        alt: true,
        logo: false,
    }));
    assert_eq!(
        input.modifier_state(),
        ModifierKeyState { shift: true, alt: true, ctrl: false, logo: false }
    );
}

#[test]
fn other_input_events_change_nothing() {
    let mut input = InputSystem::new();
    input.start_new_frame();
    input.handle_winit_button_input(ButtonId::mouse_left(), ElementState::Pressed);
    let ignored = vec![
        WindowEvent::DroppedFile,
        WindowEvent::HoveredFile,
        WindowEvent::HoveredFileCancelled,
        WindowEvent::Touch,
        WindowEvent::Focused(true),
        WindowEvent::TouchpadPressure,
        WindowEvent::AxisMotion,
        WindowEvent::ReceivedCharacter('x'),
        WindowEvent::MouseWheel,
    ];
    for evt in &ignored {
        assert!(evt.is_input_event());
        input.receive_winit_windowing_event(evt);
    }
    input.receive_winit_device_event();
    assert_eq!(input.frame_count(), 1);
    assert_eq!(input.cursor_info(), (CursorState::Unknown, None));
    assert_eq!(
        input.button_state_or_default(&ButtonId::mouse_left()),
        ButtonState::Down { change_frame: 1 }
    );
    let window_only = vec![
        WindowEvent::Resized(PhysicalSize { width: 1, height: 1 }),
        WindowEvent::ScaleFactorChanged { new_inner_size: PhysicalSize { width: 1, height: 1 } },
        WindowEvent::CloseRequested,
        WindowEvent::ThemeChanged,
        WindowEvent::Moved,
        WindowEvent::Destroyed,
    ];
    for evt in &window_only {
        assert!(!evt.is_input_event());
    }
}
