use tao_ohos::ability::{
    AxisEventData, ImeEvent, InputEvent, InputSourceType, KeyEventData, KeyboardStatus,
    MouseAction, MouseEventData, OhosMouseButton, TouchEvent, TouchEventData, TouchPointData,
};
use tao_ohos::binary64::Binary64;
use tao_ohos::event::{
    ElementState, Event, Force, KeyEvent, MouseButton, MouseScrollDelta, Touch, TouchPhase,
    WindowEvent,
};
use tao_ohos::geometry::PhysicalPosition;
use tao_ohos::ids::{DeviceId, WindowId};
use tao_ohos::input::{
    handle_axis_event, handle_ime_event, handle_input_event, handle_key_event, handle_mouse_event,
    handle_touch_event, ohos_mouse_button_to_tao,
};
use tao_ohos::keyboard::{
    Key, KeyAction, KeyCode, KeyEventExtra, KeyLocation, ModifiersState, NativeKeyCode,
    PressedKeys,
};

type Ev = Event<(), char>;

fn number(x: f64) -> Binary64 {
    Binary64 { bits: x.to_bits() }
}

fn window(event: WindowEvent<char>) -> Ev {
    Event::WindowEvent { window_id: WindowId, event }
}

fn point(id: i32, x: f64, y: f64, force: f64) -> TouchPointData {
    TouchPointData { id, x: number(x), y: number(y), force: number(force) }
}

fn touch_data(event_type: TouchEvent) -> TouchEventData {
    TouchEventData {
        device_id: 9,
        event_type,
        touch_points: vec![point(0, 1.5, 2.5, 0.25), point(-1, 3.0, 4.0, 1.0)],
    }
}

fn touch(phase: TouchPhase, id: u64, x: f64, y: f64, force: f64) -> Ev {
    window(WindowEvent::Touch(Touch {
        device_id: DeviceId(9),
        phase,
        location: PhysicalPosition { x: number(x), y: number(y) },
        force: Some(Force::Normalized(number(force))),
        id,
    }))
}

#[test]
fn each_finger_is_told_in_order() {
    let phases = [
        (TouchEvent::Down, TouchPhase::Started),
        (TouchEvent::Up, TouchPhase::Ended),
        (TouchEvent::Move, TouchPhase::Moved),
        (TouchEvent::Cancel, TouchPhase::Cancelled),
    ];
    for (kind, phase) in phases {
        let events: Vec<Ev> = handle_touch_event(&touch_data(kind));
        assert_eq!(
            events,
            vec![touch(phase, 0, 1.5, 2.5, 0.25), touch(phase, u64::MAX, 3.0, 4.0, 1.0)]
        );
    }
}

#[test]
fn unknown_touch_is_not_told() {
    let events: Vec<Ev> = handle_touch_event(&touch_data(TouchEvent::Unknown));
    assert_eq!(events, vec![]);
}

#[test]
fn mouse_buttons_are_mapped() {
    assert_eq!(ohos_mouse_button_to_tao(OhosMouseButton::LeftButton), Some(MouseButton::Left));
    assert_eq!(ohos_mouse_button_to_tao(OhosMouseButton::RightButton), Some(MouseButton::Right));
    assert_eq!(ohos_mouse_button_to_tao(OhosMouseButton::MiddleButton), Some(MouseButton::Middle));
    assert_eq!(ohos_mouse_button_to_tao(OhosMouseButton::BackButton), Some(MouseButton::Other(4)));
    assert_eq!(
        ohos_mouse_button_to_tao(OhosMouseButton::ForwardButton),
        Some(MouseButton::Other(5))
    );
    assert_eq!(ohos_mouse_button_to_tao(OhosMouseButton::NoneButton), None);
    assert_eq!(ohos_mouse_button_to_tao(OhosMouseButton::Unknown), None);
}

fn mouse(action: MouseAction, button: OhosMouseButton) -> Vec<Ev> {
    handle_mouse_event(&MouseEventData { action, button, x: number(10.0), y: number(-20.5) })
}

#[test]
fn mouse_actions_become_events() {
    let device_id = DeviceId(0);
    assert_eq!(
        mouse(MouseAction::Move, OhosMouseButton::NoneButton),
        vec![window(WindowEvent::CursorMoved {
            device_id,
            position: PhysicalPosition { x: number(10.0), y: number(-20.5) },
            modifiers: ModifiersState::empty(),
        })]
    );
    for (action, state) in [
        (MouseAction::Press, ElementState::Pressed),
        (MouseAction::Release, ElementState::Released),
    ] {
        assert_eq!(
            mouse(action, OhosMouseButton::BackButton),
            vec![window(WindowEvent::MouseInput {
                device_id,
                state,
                button: MouseButton::Other(4),
                modifiers: ModifiersState::empty(),
            })]
        );
        assert_eq!(mouse(action, OhosMouseButton::NoneButton), vec![]);
    }
    assert_eq!(
        mouse(MouseAction::HoverEnter, OhosMouseButton::NoneButton),
        vec![window(WindowEvent::CursorEntered { device_id })]
    );
    assert_eq!(
        mouse(MouseAction::HoverLeave, OhosMouseButton::NoneButton),
        vec![window(WindowEvent::CursorLeft { device_id })]
    );
    assert_eq!(mouse(MouseAction::NoAction, OhosMouseButton::LeftButton), vec![]);
}

fn axis(source_type: InputSourceType, x: f64, y: f64, pinch: f64) -> Vec<Ev> {
    handle_axis_event(&AxisEventData {
        source_type,
        delta_x: number(x),
        delta_y: number(y),
        pinch_scale: number(pinch),
    })
}

fn wheel(delta: MouseScrollDelta, modifiers: ModifiersState) -> Ev {
    window(WindowEvent::MouseWheel {
        device_id: DeviceId(0),
        delta,
        phase: TouchPhase::Moved,
        modifiers,
    })
}

fn zoom(lines: f64) -> Ev {
    wheel(MouseScrollDelta::LineDelta(number(0.0), number(lines)), ModifiersState::control())
}

#[test]
fn wheels_scroll_by_lines_and_touchpads_by_pixels() {
    assert_eq!(
        axis(InputSourceType::Other, 0.0, -3.0, 0.0),
        vec![wheel(
            MouseScrollDelta::LineDelta(number(0.0), number(-3.0)),
            ModifiersState::empty()
        )]
    );
    assert_eq!(
        axis(InputSourceType::Touchpad, 1.5, 0.0, 1.0),
        vec![wheel(
            MouseScrollDelta::PixelDelta(PhysicalPosition { x: number(1.5), y: number(0.0) }),
            ModifiersState::empty()
        )]
    );
}

#[test]
fn pinches_become_zooms() {
    assert_eq!(axis(InputSourceType::Touchpad, 0.0, -0.0, 1.25), vec![zoom(1.0)]);
    assert_eq!(axis(InputSourceType::Touchpad, 0.0, 0.0, 0.75), vec![zoom(-1.0)]);
    assert_eq!(axis(InputSourceType::Other, 0.0, 0.0, -2.0), vec![zoom(-1.0)]);
    assert_eq!(axis(InputSourceType::Other, 0.0, 0.0, f64::NAN), vec![zoom(-1.0)]);
    assert_eq!(axis(InputSourceType::Other, 0.0, 0.0, f64::INFINITY), vec![zoom(1.0)]);
    assert_eq!(axis(InputSourceType::Other, 0.0, -0.0, 0.0), vec![]);
    assert_eq!(axis(InputSourceType::Other, 0.0, 0.0, 1.0), vec![]);
}

#[test]
fn scroll_is_told_before_pinch() {
    assert_eq!(
        axis(InputSourceType::Other, 2.0, 0.0, 2.0),
        vec![
            wheel(
                MouseScrollDelta::LineDelta(number(2.0), number(0.0)),
                ModifiersState::empty()
            ),
            zoom(1.0)
        ]
    );
}

fn stroke(code: i32, action: KeyAction) -> KeyEventData<char> {
    KeyEventData {
        code,
        native_code: 2017,
        action,
        device_id: 0x1_0000_0003,
        logical_key: Key::Mapped('a'),
        location: KeyLocation::Left,
    }
}

fn key(state: ElementState, repeat: bool) -> Ev {
    window(WindowEvent::KeyboardInput {
        device_id: DeviceId(3),
        event: KeyEvent {
            physical_key: KeyCode::Unidentified(NativeKeyCode::Ohos(2017)),
            logical_key: Key::Mapped('a'),
            text: None,
            location: KeyLocation::Left,
            state,
            repeat,
            platform_specific: KeyEventExtra {},
        },
        is_synthetic: false,
    })
}

#[test]
fn held_keys_repeat() {
    let mut keys = PressedKeys::new();
    let e: Ev = handle_key_event(&mut keys, stroke(1, KeyAction::Down));
    assert_eq!(e, key(ElementState::Pressed, false));
    let e: Ev = handle_key_event(&mut keys, stroke(1, KeyAction::Down));
    assert_eq!(e, key(ElementState::Pressed, true));
    let e: Ev = handle_key_event(&mut keys, stroke(2, KeyAction::Down));
    assert_eq!(e, key(ElementState::Pressed, false));
    let e: Ev = handle_key_event(&mut keys, stroke(1, KeyAction::Unknown));
    assert_eq!(e, key(ElementState::Released, false));
    let e: Ev = handle_key_event(&mut keys, stroke(1, KeyAction::Down));
    assert_eq!(e, key(ElementState::Pressed, true));
    let e: Ev = handle_key_event(&mut keys, stroke(1, KeyAction::Up));
    assert_eq!(e, key(ElementState::Released, false));
    let e: Ev = handle_key_event(&mut keys, stroke(1, KeyAction::Down));
    assert_eq!(e, key(ElementState::Pressed, false));
    let e: Ev = handle_key_event(&mut keys, stroke(2, KeyAction::Down));
    assert_eq!(e, key(ElementState::Pressed, true));
}

#[test]
fn a_key_means_the_same_from_the_keyboard_and_the_input_method() {
    let mut keys = PressedKeys::new();
    let mut backspace = stroke(2055, KeyAction::Down);
    backspace.logical_key = Key::Backspace;
    let typed: Ev = handle_key_event(&mut keys, backspace);
    let mocked: Vec<Ev> = handle_ime_event(ImeEvent::BackspaceEvent(1));
    match (&typed, &mocked[0]) {
        (
            Event::WindowEvent { event: WindowEvent::KeyboardInput { event: typed, .. }, .. },
            Event::WindowEvent { event: WindowEvent::KeyboardInput { event: mocked, .. }, .. },
        ) => assert_eq!(typed.logical_key, mocked.logical_key),
        other => panic!("{other:?}"),
    }
}

#[test]
fn a_key_that_comes_up_unseen_is_no_repeat() {
    let mut keys = PressedKeys::new();
    assert!(!keys.record(KeyAction::Up, 5));
    assert!(!keys.record(KeyAction::Down, 5));
    assert!(keys.record(KeyAction::Down, 5));
}

fn mock(logical_key: Key<char>, physical_key: KeyCode, state: ElementState) -> Ev {
    window(WindowEvent::KeyboardInput {
        device_id: DeviceId(0),
        event: KeyEvent {
            physical_key,
            logical_key,
            text: None,
            location: KeyLocation::Standard,
            state,
            repeat: false,
            platform_specific: KeyEventExtra {},
        },
        is_synthetic: false,
    })
}

fn enter_stroke() -> Vec<Ev> {
    vec![
        mock(Key::Enter, KeyCode::Enter, ElementState::Pressed),
        mock(Key::Enter, KeyCode::Enter, ElementState::Released),
    ]
}

#[test]
fn input_method_stands_in_for_keys() {
    let events: Vec<Ev> = handle_ime_event(ImeEvent::TextInputEvent("你好".to_string()));
    assert_eq!(events, vec![window(WindowEvent::ReceivedImeText("你好".to_string()))]);
    let events: Vec<Ev> = handle_ime_event(ImeEvent::BackspaceEvent(3));
    assert_eq!(
        events,
        vec![
            mock(Key::Backspace, KeyCode::Backspace, ElementState::Pressed),
            mock(Key::Backspace, KeyCode::Backspace, ElementState::Released),
        ]
    );
    let events: Vec<Ev> = handle_ime_event(ImeEvent::EnterEvent);
    assert_eq!(events, enter_stroke());
    let events: Vec<Ev> = handle_ime_event(ImeEvent::ImeStatusEvent(KeyboardStatus::Hide));
    assert_eq!(events, enter_stroke());
    let events: Vec<Ev> = handle_ime_event(ImeEvent::ImeStatusEvent(KeyboardStatus::Show));
    assert_eq!(events, vec![]);
    let events: Vec<Ev> = handle_ime_event(ImeEvent::ImeStatusEvent(KeyboardStatus::NoStatus));
    assert_eq!(events, vec![]);
}

#[test]
fn all_kinds_of_input_are_told() {
    let mut keys = PressedKeys::new();
    let events: Vec<Ev> =
        handle_input_event(&mut keys, InputEvent::TouchEvent(touch_data(TouchEvent::Down)));
    assert_eq!(events.len(), 2);
    let events: Vec<Ev> = handle_input_event(
        &mut keys,
        InputEvent::MouseEvent(MouseEventData {
            action: MouseAction::HoverLeave,
            button: OhosMouseButton::NoneButton,
            x: number(0.0),
            y: number(0.0),
        }),
    );
    assert_eq!(events, vec![window(WindowEvent::CursorLeft { device_id: DeviceId(0) })]);
    let events: Vec<Ev> = handle_input_event(
        &mut keys,
        InputEvent::AxisEvent(AxisEventData {
            source_type: InputSourceType::Other,
            delta_x: number(0.0),
            delta_y: number(0.0),
            pinch_scale: number(3.0),
        }),
    );
    assert_eq!(events, vec![zoom(1.0)]);
    for repeat in [false, true] {
        let events: Vec<Ev> =
            handle_input_event(&mut keys, InputEvent::KeyEvent(stroke(1, KeyAction::Down)));
        assert_eq!(events, vec![key(ElementState::Pressed, repeat)]);
    }
    let events: Vec<Ev> =
        handle_input_event(&mut keys, InputEvent::ImeEvent(ImeEvent::EnterEvent));
    assert_eq!(events, enter_stroke());
    let events: Vec<Ev> = handle_input_event(&mut keys, InputEvent::Unknown);
    assert_eq!(events, vec![]);
}
