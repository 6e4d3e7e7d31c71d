//! From what input devices report to what the application is told.
use crate::ability::{
    AxisEventData, ImeEvent, InputEvent, InputSourceType, KeyEventData, KeyboardStatus,
    MouseAction, MouseEventData, OhosMouseButton, TouchEvent, TouchEventData, TouchPointData,
};
use crate::binary64::{
    law_bits_mean_numbers, unit, Binary64, MINUS_ONE_BITS, ONE_BITS, ZERO_BITS,
};
use crate::event::{
    of_window, window_event, ElementState, Event, Force, KeyEvent, MouseButton, MouseScrollDelta,
    Touch, TouchPhase, WindowEvent,
};
use crate::geometry::PhysicalPosition;
use crate::ids::{law_device_number, DeviceId};
use crate::keyboard::{
    held_after, is_repeat, Key, KeyAction, KeyCode, KeyEventExtra, KeyLocation, ModifiersState,
    NativeKeyCode, PressedKeys,
};
use vstd::prelude::*;

verus! {

// ---------------------------------------------------------------------------------------------
// Touch
// ---------------------------------------------------------------------------------------------

/// The phase that a touch is in, if it is known.
pub open spec fn touch_phase(kind: TouchEvent) -> Option<TouchPhase> {
    match kind {
        TouchEvent::Down => Some(TouchPhase::Started),
        TouchEvent::Up => Some(TouchPhase::Ended),
        TouchEvent::Move => Some(TouchPhase::Moved),
        TouchEvent::Cancel => Some(TouchPhase::Cancelled),
        TouchEvent::Unknown => None,
    }
}

/// A signed finger number read as an unsigned one: what is negative wraps around.
pub open spec fn finger_id(id: int) -> int {
    if id >= 0 {
        id
    } else {
        id + 0x1_0000_0000_0000_0000
    }
}

/// The touch of one finger.
pub open spec fn touch_of(device: int, phase: TouchPhase, point: TouchPointData) -> Touch {
    Touch {
        device_id: DeviceId(DeviceId::low_bits(device) as i32),
        phase,
        location: PhysicalPosition { x: point.x, y: point.y },
        force: Some(Force::Normalized(point.force)),
        id: finger_id(point.id as int) as u64,
    }
}

/// One touch for each finger, in the order reported, or nothing if the phase is unknown.
pub open spec fn touch_events<T, K>(data: TouchEventData) -> Seq<Event<T, K>> {
    match touch_phase(data.event_type) {
        Some(phase) => Seq::new(
            data.touch_points@.len(),
            |i: int|
                window_event(
                    WindowEvent::Touch(touch_of(data.device_id as int, phase, data.touch_points@[i])),
                ),
        ),
        None => Seq::empty(),
    }
}

/// Reads a signed finger number as an unsigned one.
fn unsigned_finger_id(id: i32) -> (r: u64)
    ensures
        r == finger_id(id as int),
{
    assert(id < 0 ==> id as u64 == id + 0x1_0000_0000_0000_0000) by (bit_vector);
    assert(id >= 0 ==> id as u64 == id) by (bit_vector);
    #[verifier::truncate]
    (id as u64)
}

/// Tells the application of the fingers on the screen.
pub fn handle_touch_event<T, K>(data: &TouchEventData) -> (events: Vec<Event<T, K>>)
    ensures
        events@ == touch_events::<T, K>(*data),
{
    let mut events: Vec<Event<T, K>> = Vec::new();
    let known: Option<TouchPhase> = match data.event_type {
        TouchEvent::Down => Some(TouchPhase::Started),
        TouchEvent::Up => Some(TouchPhase::Ended),
        TouchEvent::Move => Some(TouchPhase::Moved),
        TouchEvent::Cancel => Some(TouchPhase::Cancelled),
        TouchEvent::Unknown => None,
    };
    if let Some(phase) = known {
        let device_id = DeviceId::from_native(data.device_id);
        let mut i: usize = 0;
        while i < data.touch_points.len()
            invariant
                i <= data.touch_points.len(),
                touch_phase(data.event_type) == Some(phase),
                device_id == DeviceId(DeviceId::low_bits(data.device_id as int) as i32),
                events@ == touch_events::<T, K>(*data).take(i as int),
            decreases data.touch_points.len() - i,
        {
            let point = data.touch_points[i];
            let touch = Touch {
                device_id,
                phase,
                location: PhysicalPosition { x: point.x, y: point.y },
                force: Some(Force::Normalized(point.force)),
                id: unsigned_finger_id(point.id),
            };
            events.push(of_window(WindowEvent::Touch(touch)));
            i += 1;
        }
    }
    events
}

// ---------------------------------------------------------------------------------------------
// Mouse
// ---------------------------------------------------------------------------------------------

/// The application's name for a mouse button, if the event is of any button.
pub open spec fn mouse_button(button: OhosMouseButton) -> Option<MouseButton> {
    match button {
        OhosMouseButton::LeftButton => Some(MouseButton::Left),
        OhosMouseButton::RightButton => Some(MouseButton::Right),
        OhosMouseButton::MiddleButton => Some(MouseButton::Middle),
        OhosMouseButton::BackButton => Some(MouseButton::Other(4)),
        OhosMouseButton::ForwardButton => Some(MouseButton::Other(5)),
        OhosMouseButton::NoneButton | OhosMouseButton::Unknown => None,
    }
}

/// Maps a button of the ability framework to one of the application.
///
/// Gives `None` where there is no meaningful button to report.
pub fn ohos_mouse_button_to_tao(button: OhosMouseButton) -> (mapped: Option<MouseButton>)
    ensures
        mapped == mouse_button(button),
{
    match button {
        OhosMouseButton::LeftButton => Some(MouseButton::Left),
        OhosMouseButton::RightButton => Some(MouseButton::Right),
        OhosMouseButton::MiddleButton => Some(MouseButton::Middle),
        OhosMouseButton::BackButton => Some(MouseButton::Other(4)),
        OhosMouseButton::ForwardButton => Some(MouseButton::Other(5)),
        OhosMouseButton::NoneButton => None,
        OhosMouseButton::Unknown => None,
    }
}

/// The event of a mouse button that went down or came up, or nothing if there is no button.
pub open spec fn button_events<T, K>(button: OhosMouseButton, state: ElementState) -> Seq<
    Event<T, K>,
> {
    match mouse_button(button) {
        Some(button) => seq![
            window_event(
                WindowEvent::MouseInput {
                    device_id: DeviceId(0),
                    state,
                    button,
                    modifiers: ModifiersState::none(),
                },
            ),
        ],
        None => Seq::empty(),
    }
}

/// What the application is told of the mouse.
pub open spec fn mouse_events<T, K>(data: MouseEventData) -> Seq<Event<T, K>> {
    match data.action {
        MouseAction::Move => seq![
            window_event(
                WindowEvent::CursorMoved {
                    device_id: DeviceId(0),
                    position: PhysicalPosition { x: data.x, y: data.y },
                    modifiers: ModifiersState::none(),
                },
            ),
        ],
        MouseAction::Press => button_events(data.button, ElementState::Pressed),
        MouseAction::Release => button_events(data.button, ElementState::Released),
        MouseAction::HoverEnter => seq![
            window_event(WindowEvent::CursorEntered { device_id: DeviceId(0) }),
        ],
        MouseAction::HoverLeave => seq![
            window_event(WindowEvent::CursorLeft { device_id: DeviceId(0) }),
        ],
        MouseAction::NoAction => Seq::empty(),
    }
}

/// Tells the application of a mouse button.
fn handle_mouse_button<T, K>(button: OhosMouseButton, state: ElementState) -> (events: Vec<
    Event<T, K>,
>)
    ensures
        events@ == button_events::<T, K>(button, state),
{
    let mut events: Vec<Event<T, K>> = Vec::new();
    if let Some(button) = ohos_mouse_button_to_tao(button) {
        events.push(
            of_window(
                WindowEvent::MouseInput {
                    device_id: DeviceId::dummy(),
                    state,
                    button,
                    modifiers: ModifiersState::empty(),
                },
            ),
        );
    }
    events
}

/// Tells the application of the mouse.
pub fn handle_mouse_event<T, K>(mouse_event: &MouseEventData) -> (events: Vec<Event<T, K>>)
    ensures
        events@ == mouse_events::<T, K>(*mouse_event),
{
    let device_id = DeviceId::dummy();
    let mut events: Vec<Event<T, K>> = Vec::new();
    match mouse_event.action {
        MouseAction::Move => {
            events.push(
                of_window(
                    WindowEvent::CursorMoved {
                        device_id,
                        position: PhysicalPosition { x: mouse_event.x, y: mouse_event.y },
                        modifiers: ModifiersState::empty(),
                    },
                ),
            );
        },
        MouseAction::Press => {
            return handle_mouse_button(mouse_event.button, ElementState::Pressed);
        },
        MouseAction::Release => {
            return handle_mouse_button(mouse_event.button, ElementState::Released);
        },
        MouseAction::HoverEnter => {
            events.push(of_window(WindowEvent::CursorEntered { device_id }));
        },
        MouseAction::HoverLeave => {
            events.push(of_window(WindowEvent::CursorLeft { device_id }));
        },
        MouseAction::NoAction => {},
    }
    events
}

// ---------------------------------------------------------------------------------------------
// Scrolling and pinching
// ---------------------------------------------------------------------------------------------

/// Whether the gesture scrolls: one of its distances is not zero.
pub open spec fn scrolls(data: AxisEventData) -> bool {
    !data.delta_x.has_zero_bits() || !data.delta_y.has_zero_bits()
}

/// Whether the gesture pinches: its change of scale is neither absent nor none.
pub open spec fn pinches(data: AxisEventData) -> bool {
    !data.pinch_scale.has_zero_bits() && data.pinch_scale.bits != ONE_BITS
}

/// The distance scrolled: in pixels for a touchpad, in lines for a wheel.
pub open spec fn scroll_delta(data: AxisEventData) -> MouseScrollDelta {
    match data.source_type {
        InputSourceType::Touchpad => MouseScrollDelta::PixelDelta(
            PhysicalPosition { x: data.delta_x, y: data.delta_y },
        ),
        InputSourceType::Other => MouseScrollDelta::LineDelta(data.delta_x, data.delta_y),
    }
}

/// The distance that a pinch is shown as: one line up to zoom in, one line down to zoom out.
pub open spec fn zoom_delta(data: AxisEventData) -> MouseScrollDelta {
    MouseScrollDelta::LineDelta(
        Binary64 { bits: ZERO_BITS },
        if data.pinch_scale.has_bits_above_one() {
            Binary64 { bits: ONE_BITS }
        } else {
            Binary64 { bits: MINUS_ONE_BITS }
        },
    )
}

/// A turn of the wheel.
pub open spec fn wheel_event<T, K>(delta: MouseScrollDelta, modifiers: ModifiersState) -> Event<
    T,
    K,
> {
    window_event(
        WindowEvent::MouseWheel {
            device_id: DeviceId(0),
            delta,
            phase: TouchPhase::Moved,
            modifiers,
        },
    )
}

/// The scroll, if there is one, and then the pinch, if there is one, as a turn of the wheel with
/// the control key held.
pub open spec fn axis_events<T, K>(data: AxisEventData) -> Seq<Event<T, K>> {
    let scroll = if scrolls(data) {
        seq![wheel_event(scroll_delta(data), ModifiersState::none())]
    } else {
        Seq::empty()
    };
    let pinch = if pinches(data) {
        seq![wheel_event(zoom_delta(data), ModifiersState::only_control())]
    } else {
        Seq::empty()
    };
    scroll + pinch
}

/// Tells the application of a scroll or pinch gesture.
pub fn handle_axis_event<T, K>(axis_event: &AxisEventData) -> (events: Vec<Event<T, K>>)
    ensures
        events@ == axis_events::<T, K>(*axis_event),
{
    let mut events: Vec<Event<T, K>> = Vec::new();
    if !axis_event.delta_x.is_zero() || !axis_event.delta_y.is_zero() {
        let delta = match axis_event.source_type {
            InputSourceType::Touchpad => MouseScrollDelta::PixelDelta(
                PhysicalPosition { x: axis_event.delta_x, y: axis_event.delta_y },
            ),
            InputSourceType::Other => MouseScrollDelta::LineDelta(
                axis_event.delta_x,
                axis_event.delta_y,
            ),
        };
        events.push(
            of_window(
                WindowEvent::MouseWheel {
                    device_id: DeviceId::dummy(),
                    delta,
                    phase: TouchPhase::Moved,
                    modifiers: ModifiersState::empty(),
                },
            ),
        );
    }
    if !axis_event.pinch_scale.is_zero() && !axis_event.pinch_scale.is_one() {
        let zoom = if axis_event.pinch_scale.exceeds_one() {
            Binary64 { bits: ONE_BITS }
        } else {
            Binary64 { bits: MINUS_ONE_BITS }
        };
        events.push(
            of_window(
                WindowEvent::MouseWheel {
                    device_id: DeviceId::dummy(),
                    delta: MouseScrollDelta::LineDelta(Binary64 { bits: ZERO_BITS }, zoom),
                    phase: TouchPhase::Moved,
                    modifiers: ModifiersState::control(),
                },
            ),
        );
    }
    events
}

// ---------------------------------------------------------------------------------------------
// Keyboard
// ---------------------------------------------------------------------------------------------

/// The state of a key after an action. Only a key that went down is pressed.
pub open spec fn key_state(action: KeyAction) -> ElementState {
    match action {
        KeyAction::Down => ElementState::Pressed,
        KeyAction::Up | KeyAction::Unknown => ElementState::Released,
    }
}

/// What the application is told of a key while the keys `held` are held down.
pub open spec fn key_event<T, K>(held: Set<i32>, key: KeyEventData<K>) -> Event<T, K> {
    window_event(
        WindowEvent::KeyboardInput {
            device_id: DeviceId(DeviceId::low_bits(key.device_id as int) as i32),
            event: KeyEvent {
                physical_key: KeyCode::Unidentified(NativeKeyCode::Ohos(key.native_code)),
                logical_key: key.logical_key,
                text: None,
                location: key.location,
                state: key_state(key.action),
                repeat: is_repeat(held, key.action, key.code),
                platform_specific: KeyEventExtra {  },
            },
            is_synthetic: false,
        },
    )
}

/// Tells the application of a key and notes whether it is held.
pub fn handle_key_event<T, K>(keys: &mut PressedKeys, key: KeyEventData<K>) -> (event: Event<T, K>)
    ensures
        event == key_event::<T, K>(old(keys)@, key),
        final(keys)@ == held_after(old(keys)@, key.action, key.code),
{
    let state = match key.action {
        KeyAction::Down => ElementState::Pressed,
        KeyAction::Up => ElementState::Released,
        KeyAction::Unknown => ElementState::Released,
    };
    let repeat = keys.record(key.action, key.code);
    of_window(
        WindowEvent::KeyboardInput {
            device_id: DeviceId::from_native(key.device_id),
            event: KeyEvent {
                physical_key: KeyCode::Unidentified(NativeKeyCode::Ohos(key.native_code)),
                logical_key: key.logical_key,
                text: None,
                location: key.location,
                state,
                repeat,
                platform_specific: KeyEventExtra {  },
            },
            is_synthetic: false,
        },
    )
}

// ---------------------------------------------------------------------------------------------
// Input method
// ---------------------------------------------------------------------------------------------

/// A key that the input method stands in for.
pub open spec fn mock_key_event<T, K>(
    logical_key: Key<K>,
    physical_key: KeyCode,
    state: ElementState,
) -> Event<T, K> {
    window_event(
        WindowEvent::KeyboardInput {
            device_id: DeviceId(0),
            event: KeyEvent {
                physical_key,
                logical_key,
                text: None,
                location: KeyLocation::Standard,
                state,
                repeat: false,
                platform_specific: KeyEventExtra {  },
            },
            is_synthetic: false,
        },
    )
}

/// The key pressed and released.
pub open spec fn mock_stroke<T, K>(logical_key: Key<K>, physical_key: KeyCode) -> Seq<Event<T, K>> {
    seq![
        mock_key_event(logical_key, physical_key, ElementState::Pressed),
        mock_key_event(logical_key, physical_key, ElementState::Released),
    ]
}

/// What the application is told of the input method.
pub open spec fn ime_events<T, K>(event: ImeEvent) -> Seq<Event<T, K>> {
    match event {
        ImeEvent::TextInputEvent(text) => seq![window_event(WindowEvent::ReceivedImeText(text))],
        ImeEvent::BackspaceEvent(_) => mock_stroke(Key::Backspace, KeyCode::Backspace),
        ImeEvent::EnterEvent => mock_stroke(Key::Enter, KeyCode::Enter),
        ImeEvent::ImeStatusEvent(KeyboardStatus::Hide) => mock_stroke(Key::Enter, KeyCode::Enter),
        ImeEvent::ImeStatusEvent(_) => Seq::empty(),
    }
}

/// A key that the input method stands in for.
fn mock_key<T, K>(logical_key: Key<K>, physical_key: KeyCode, state: ElementState) -> (event: Event<
    T,
    K,
>)
    ensures
        event == mock_key_event::<T, K>(logical_key, physical_key, state),
{
    of_window(
        WindowEvent::KeyboardInput {
            device_id: DeviceId::dummy(),
            event: KeyEvent {
                physical_key,
                logical_key,
                text: None,
                location: KeyLocation::Standard,
                state,
                repeat: false,
                platform_specific: KeyEventExtra {  },
            },
            is_synthetic: false,
        },
    )
}

/// Tells the application of the input method. Deleting and confirming become strokes of the
/// backspace and enter keys; so does hiding the keyboard, so that a focused field is left.
pub fn handle_ime_event<T, K>(event: ImeEvent) -> (events: Vec<Event<T, K>>)
    ensures
        events@ == ime_events::<T, K>(event),
{
    let mut events: Vec<Event<T, K>> = Vec::new();
    match event {
        ImeEvent::TextInputEvent(text) => {
            events.push(of_window(WindowEvent::ReceivedImeText(text)));
        },
        ImeEvent::BackspaceEvent(_) => {
            events.push(mock_key(Key::Backspace, KeyCode::Backspace, ElementState::Pressed));
            events.push(mock_key(Key::Backspace, KeyCode::Backspace, ElementState::Released));
        },
        ImeEvent::EnterEvent => {
            events.push(mock_key(Key::Enter, KeyCode::Enter, ElementState::Pressed));
            events.push(mock_key(Key::Enter, KeyCode::Enter, ElementState::Released));
        },
        ImeEvent::ImeStatusEvent(status) => match status {
            KeyboardStatus::Hide => {
                events.push(mock_key(Key::Enter, KeyCode::Enter, ElementState::Pressed));
                events.push(mock_key(Key::Enter, KeyCode::Enter, ElementState::Released));
            },
            KeyboardStatus::Show => {},
            KeyboardStatus::NoStatus => {},
        },
    }
    events
}

// ---------------------------------------------------------------------------------------------
// All input
// ---------------------------------------------------------------------------------------------

/// What the application is told of an input event while the keys `held` are held down.
pub open spec fn input_events<T, K>(held: Set<i32>, event: InputEvent<K>) -> Seq<Event<T, K>> {
    match event {
        InputEvent::TouchEvent(data) => touch_events(data),
        InputEvent::MouseEvent(data) => mouse_events(data),
        InputEvent::AxisEvent(data) => axis_events(data),
        InputEvent::KeyEvent(key) => seq![key_event(held, key)],
        InputEvent::ImeEvent(data) => ime_events(data),
        InputEvent::Unknown => Seq::empty(),
    }
}

/// The keys held down after an input event.
pub open spec fn held_after_input<K>(held: Set<i32>, event: InputEvent<K>) -> Set<i32> {
    match event {
        InputEvent::KeyEvent(key) => held_after(held, key.action, key.code),
        _ => held,
    }
}

/// Tells the application of an input event.
pub fn handle_input_event<T, K>(keys: &mut PressedKeys, event: InputEvent<K>) -> (events: Vec<
    Event<T, K>,
>)
    ensures
        events@ == input_events::<T, K>(old(keys)@, event),
        final(keys)@ == held_after_input(old(keys)@, event),
{
    match event {
        InputEvent::TouchEvent(motion_event) => handle_touch_event(&motion_event),
        InputEvent::MouseEvent(mouse_event) => handle_mouse_event(&mouse_event),
        InputEvent::AxisEvent(axis_event) => handle_axis_event(&axis_event),
        InputEvent::KeyEvent(key) => {
            let mut events: Vec<Event<T, K>> = Vec::new();
            events.push(handle_key_event(keys, key));
            events
        },
        InputEvent::ImeEvent(data) => handle_ime_event(data),
        InputEvent::Unknown => Vec::new(),
    }
}

// ---------------------------------------------------------------------------------------------
// Laws
// ---------------------------------------------------------------------------------------------

/// All that the application is told of input is told as events of the window.
pub proof fn law_input_concerns_the_window<T, K>(held: Set<i32>, event: InputEvent<K>)
    ensures
        forall|i: int|
            0 <= i < input_events::<T, K>(held, event).len() ==> #[trigger] input_events::<T, K>(
                held,
                event,
            )[i] is WindowEvent,
{
}

/// A touch tells of each finger once and in order, with its place, its pressure and its number,
/// and of no finger if its phase is unknown.
pub proof fn law_touch_tells_each_finger<T, K>(data: TouchEventData)
    ensures
        data.event_type is Unknown ==> touch_events::<T, K>(data).len() == 0,
        data.event_type !is Unknown ==> {
            &&& touch_events::<T, K>(data).len() == data.touch_points@.len()
            &&& forall|i: int|
                0 <= i < data.touch_points@.len() ==> {
                    let point = data.touch_points@[i];
                    &&& #[trigger] touch_events::<T, K>(data)[i] matches Event::WindowEvent {
                        event: WindowEvent::Touch(touch),
                        ..
                    }
                    &&& touch.location == (PhysicalPosition { x: point.x, y: point.y })
                    &&& touch.force == Some(Force::Normalized(point.force))
                    &&& point.id >= 0 ==> touch.id == point.id
                }
        },
{
}

/// Each finger of a touch is told of by the device and the finger that were reported, at the place
/// and with the pressure that were reported, as having started, moved, ended or been cancelled
/// according to whether it went down, moved, came up or was cancelled.
pub proof fn law_touch_is_told_as_reported<T, K>(
    data: TouchEventData,
    events: Vec<Event<T, K>>,
    i: int,
)
    requires
        call_ensures(handle_touch_event::<T, K>, (&data,), events),
        0 <= i < data.touch_points@.len(),
        data.event_type !is Unknown,
    ensures
        events@.len() == data.touch_points@.len(),
        events@[i] matches Event::WindowEvent { event: WindowEvent::Touch(touch), .. } && {
            &&& touch.phase is Started <==> data.event_type is Down
            &&& touch.phase is Moved <==> data.event_type is Move
            &&& touch.phase is Ended <==> data.event_type is Up
            &&& touch.phase is Cancelled <==> data.event_type is Cancel
            &&& touch.location.x == data.touch_points@[i].x
            &&& touch.location.y == data.touch_points@[i].y
            &&& touch.force matches Some(Force::Normalized(force)) && force
                == data.touch_points@[i].force
            &&& data.touch_points@[i].id >= 0 ==> touch.id == data.touch_points@[i].id
            &&& data.touch_points@[i].id < 0 ==> touch.id == data.touch_points@[i].id
                + 0x1_0000_0000_0000_0000
            &&& (touch.device_id.0 - data.device_id) % 0x1_0000_0000 == 0
        },
{
    law_device_number(data.device_id as int);
}

/// A touch whose kind is unknown is not told of.
pub proof fn law_unknown_touch_is_not_told<T, K>(data: TouchEventData, events: Vec<Event<T, K>>)
    requires
        call_ensures(handle_touch_event::<T, K>, (&data,), events),
        data.event_type is Unknown,
    ensures
        events@.len() == 0,
{
}

/// A device number or finger number that fits is kept as it is.
pub proof fn law_numbers_that_fit_are_kept(device: int, finger: int)
    requires
        i32::MIN <= device <= i32::MAX,
        0 <= finger,
    ensures
        DeviceId::low_bits(device) == device,
        finger_id(finger) == finger,
{
}

/// A button is told of when it comes up exactly if it is told of when it goes down, and not at
/// all if it is no button.
pub proof fn law_press_and_release_agree<T, K>(press: MouseEventData, release: MouseEventData)
    requires
        press.action is Press,
        release.action is Release,
        press.button == release.button,
    ensures
        mouse_events::<T, K>(press).len() == mouse_events::<T, K>(release).len(),
        mouse_events::<T, K>(press).len() == 0 <==> press.button is NoneButton
            || press.button is Unknown,
{
}

/// A button has the name that the application knows it by: left, right and middle their own, and
/// back and forward the fourth and the fifth. What is no known button has none.
pub proof fn law_buttons_have_their_names(button: OhosMouseButton, mapped: Option<MouseButton>)
    requires
        call_ensures(ohos_mouse_button_to_tao, (button,), mapped),
    ensures
        mapped == Some(MouseButton::Left) <==> button is LeftButton,
        mapped == Some(MouseButton::Right) <==> button is RightButton,
        mapped == Some(MouseButton::Middle) <==> button is MiddleButton,
        mapped == Some(MouseButton::Other(4)) <==> button is BackButton,
        mapped == Some(MouseButton::Other(5)) <==> button is ForwardButton,
        mapped is None <==> button is NoneButton || button is Unknown,
{
}

/// Different buttons are told apart.
pub proof fn law_buttons_keep_apart(a: OhosMouseButton, b: OhosMouseButton)
    requires
        mouse_button(a) is Some,
        mouse_button(a) == mouse_button(b),
    ensures
        a == b,
{
}

/// A press or release of a button is told of by one event, which names the button: left, right,
/// middle, or the fourth and fifth for back and forward. It is pressed for a press and released for
/// a release. Without a button nothing is told.
pub proof fn law_buttons_are_told_as_reported<T, K>(
    data: MouseEventData,
    events: Vec<Event<T, K>>,
)
    requires
        call_ensures(handle_mouse_event::<T, K>, (&data,), events),
        data.action is Press || data.action is Release,
    ensures
        data.button is NoneButton || data.button is Unknown ==> events@.len() == 0,
        data.button !is NoneButton && data.button !is Unknown ==> {
            &&& events@.len() == 1
            &&& events@[0] matches Event::WindowEvent {
                event: WindowEvent::MouseInput { device_id, state, button, modifiers },
                ..
            } && {
                &&& state is Pressed <==> data.action is Press
                &&& button is Left <==> data.button is LeftButton
                &&& button is Right <==> data.button is RightButton
                &&& button is Middle <==> data.button is MiddleButton
                &&& button == MouseButton::Other(4) <==> data.button is BackButton
                &&& button == MouseButton::Other(5) <==> data.button is ForwardButton
                &&& device_id.0 == 0
                &&& !modifiers.shift && !modifiers.control && !modifiers.alt && !modifiers.super_key
            }
        },
{
}

/// Two different buttons that see the same, and one button that goes down and comes up, are told
/// of differently.
pub proof fn law_buttons_and_actions_are_told_apart<T, K>(a: MouseEventData, b: MouseEventData)
    requires
        a.action is Press || a.action is Release,
        b.action is Press || b.action is Release,
        a.button !is NoneButton && a.button !is Unknown,
        a.button != b.button || a.action != b.action,
    ensures
        mouse_events::<T, K>(a) != mouse_events::<T, K>(b),
{
    if mouse_events::<T, K>(b).len() > 0 {
        assert(mouse_events::<T, K>(a)[0] != mouse_events::<T, K>(b)[0]);
    }
}

/// The cursor is told to have moved to the very place that was reported, and to have entered or
/// left when the mouse did, each by one event without modifiers. Nothing is told of no action.
pub proof fn law_cursor_is_told_as_reported<T, K>(data: MouseEventData, events: Vec<Event<T, K>>)
    requires
        call_ensures(handle_mouse_event::<T, K>, (&data,), events),
    ensures
        data.action is Move ==> {
            &&& events@.len() == 1
            &&& events@[0] matches Event::WindowEvent {
                event: WindowEvent::CursorMoved { device_id, position, modifiers },
                ..
            } && {
                &&& position.x == data.x
                &&& position.y == data.y
                &&& device_id.0 == 0
                &&& !modifiers.shift && !modifiers.control && !modifiers.alt && !modifiers.super_key
            }
        },
        data.action is HoverEnter ==> {
            &&& events@.len() == 1
            &&& events@[0] matches Event::WindowEvent {
                event: WindowEvent::CursorEntered { device_id },
                ..
            } && device_id.0 == 0
        },
        data.action is HoverLeave ==> {
            &&& events@.len() == 1
            &&& events@[0] matches Event::WindowEvent {
                event: WindowEvent::CursorLeft { device_id },
                ..
            } && device_id.0 == 0
        },
        data.action is NoAction ==> events@.len() == 0,
{
}

/// A distance that is not zero is told of first, by a turn of the wheel without modifiers through
/// exactly the two distances reported: in pixels if they come from a touchpad, in lines otherwise.
pub proof fn law_scroll_is_told_as_reported<T, K>(data: AxisEventData, events: Vec<Event<T, K>>)
    requires
        call_ensures(handle_axis_event::<T, K>, (&data,), events),
        !(data.delta_x.bits == 0 || data.delta_x.bits == 0x8000_0000_0000_0000) || !(
        data.delta_y.bits == 0 || data.delta_y.bits == 0x8000_0000_0000_0000),
    ensures
        events@.len() >= 1,
        events@[0] matches Event::WindowEvent {
            event: WindowEvent::MouseWheel { device_id, delta, phase, modifiers },
            ..
        } && {
            &&& data.source_type is Touchpad ==> (delta matches MouseScrollDelta::PixelDelta(by)
                && by.x == data.delta_x && by.y == data.delta_y)
            &&& data.source_type !is Touchpad ==> (delta matches MouseScrollDelta::LineDelta(x, y)
                && x == data.delta_x && y == data.delta_y)
            &&& phase is Moved
            &&& device_id.0 == 0
            &&& !modifiers.shift && !modifiers.control && !modifiers.alt && !modifiers.super_key
        },
{
}

/// A change of scale that is neither zero nor one is told of last, by a turn of the wheel with the
/// control key alone: one line up if it exceeds one, one line down otherwise.
pub proof fn law_pinch_is_told_as_zoom<T, K>(data: AxisEventData, events: Vec<Event<T, K>>)
    requires
        call_ensures(handle_axis_event::<T, K>, (&data,), events),
        data.pinch_scale.bits != 0,
        data.pinch_scale.bits != 0x8000_0000_0000_0000,
        data.pinch_scale.bits != 0x3ff0_0000_0000_0000,
    ensures
        events@.len() >= 1,
        events@[events@.len() - 1] matches Event::WindowEvent {
            event: WindowEvent::MouseWheel { device_id, delta, phase, modifiers },
            ..
        } && {
            &&& delta matches MouseScrollDelta::LineDelta(x, y) && x.bits == 0 && y.bits == (
            if 0x3ff0_0000_0000_0000 < data.pinch_scale.bits <= 0x7ff0_0000_0000_0000 {
                0x3ff0_0000_0000_0000u64
            } else {
                0xbff0_0000_0000_0000u64
            })
            &&& phase is Moved
            &&& device_id.0 == 0
            &&& !modifiers.shift && modifiers.control && !modifiers.alt && !modifiers.super_key
        },
{
}

/// A gesture is told of once for its distance, unless that is zero, and once for its change of
/// scale, unless that is zero or one.
pub proof fn law_gestures_are_told_once<T, K>(data: AxisEventData, events: Vec<Event<T, K>>)
    requires
        call_ensures(handle_axis_event::<T, K>, (&data,), events),
    ensures
        events@.len() == (if (data.delta_x.bits == 0 || data.delta_x.bits == 0x8000_0000_0000_0000)
            && (data.delta_y.bits == 0 || data.delta_y.bits == 0x8000_0000_0000_0000) {
            0int
        } else {
            1int
        }) + (if data.pinch_scale.bits == 0 || data.pinch_scale.bits == 0x8000_0000_0000_0000
            || data.pinch_scale.bits == 0x3ff0_0000_0000_0000 {
            0int
        } else {
            1int
        }),
{
}

/// A gesture without distance, whose change of scale is absent or none, is not told of. A gesture
/// is told of at most twice, and the control key marks exactly the pinch.
pub proof fn law_gestures<T, K>(data: AxisEventData)
    ensures
        !scrolls(data) && !pinches(data) ==> axis_events::<T, K>(data).len() == 0,
        axis_events::<T, K>(data).len() <= 2,
        pinches(data) <==> axis_events::<T, K>(data).len() > 0 && axis_events::<T, K>(data).last()
            == wheel_event::<T, K>(zoom_delta(data), ModifiersState::only_control()),
{
    let events = axis_events::<T, K>(data);
    if pinches(data) {
        assert(events.last() == wheel_event::<T, K>(
            zoom_delta(data),
            ModifiersState::only_control(),
        ));
    } else if scrolls(data) {
        assert(events.last() == wheel_event::<T, K>(scroll_delta(data), ModifiersState::none()));
    }
}

/// A gesture scrolls if a distance is no zero, and pinches if its change of scale is neither zero
/// nor one; it zooms in if that exceeds one and out otherwise. What is no number is none of zero,
/// one and above one.
pub proof fn law_gestures_by_value(data: AxisEventData)
    ensures
        scrolls(data) <==> {
            ||| data.delta_x.is_nan()
            ||| data.delta_x.scaled() != 0
            ||| data.delta_y.is_nan()
            ||| data.delta_y.scaled() != 0
        },
        pinches(data) <==> data.pinch_scale.is_nan() || (data.pinch_scale.scaled() != 0
            && data.pinch_scale.scaled() != unit()),
        zoom_delta(data) == MouseScrollDelta::LineDelta(
            Binary64 { bits: ZERO_BITS },
            Binary64 { bits: ONE_BITS },
        ) <==> !data.pinch_scale.is_nan() && data.pinch_scale.scaled() > unit(),
{
    law_bits_mean_numbers(data.delta_x);
    law_bits_mean_numbers(data.delta_y);
    law_bits_mean_numbers(data.pinch_scale);
}

/// What the input method does in place of a key, it does as a whole stroke: the key goes down and
/// comes up.
pub proof fn law_input_method_strokes_are_whole<T, K>(event: ImeEvent)
    requires
        event !is TextInputEvent,
        ime_events::<T, K>(event).len() > 0,
    ensures
        exists|logical_key: Key<K>, physical_key: KeyCode|
            ime_events::<T, K>(event) == #[trigger] mock_stroke::<T, K>(logical_key, physical_key),
{
}

/// Text of the input method is told of by one event with the very text.
pub proof fn law_text_is_told_as_entered<T, K>(text: String, events: Vec<Event<T, K>>)
    requires
        call_ensures(handle_ime_event::<T, K>, (ImeEvent::TextInputEvent(text),), events),
    ensures
        events@.len() == 1,
        events@[0] matches Event::WindowEvent { event: WindowEvent::ReceivedImeText(told), .. }
            && told == text,
{
}

/// Deleting is told of as the backspace key, and confirming and hiding the keyboard as the enter
/// key: it goes down first and comes up then, and is no repeat. No other state of the keyboard is
/// told of.
pub proof fn law_input_method_is_told_as_keys<T, K>(event: ImeEvent, events: Vec<Event<T, K>>)
    requires
        call_ensures(handle_ime_event::<T, K>, (event,), events),
        event !is TextInputEvent,
    ensures
        event == ImeEvent::ImeStatusEvent(KeyboardStatus::Show) ==> events@.len() == 0,
        event == ImeEvent::ImeStatusEvent(KeyboardStatus::NoStatus) ==> events@.len() == 0,
        event is BackspaceEvent || event is EnterEvent || event == ImeEvent::ImeStatusEvent(
            KeyboardStatus::Hide,
        ) ==> {
            &&& events@.len() == 2
            &&& forall|i: int|
                0 <= i < 2 ==> {
                    &&& #[trigger] events@[i] matches Event::WindowEvent {
                        event: WindowEvent::KeyboardInput { device_id, event: key, is_synthetic },
                        ..
                    }
                    &&& key.state is Pressed <==> i == 0
                    &&& key.logical_key is Backspace <==> event is BackspaceEvent
                    &&& key.logical_key is Enter <==> event !is BackspaceEvent
                    &&& key.physical_key is Backspace <==> event is BackspaceEvent
                    &&& key.physical_key is Enter <==> event !is BackspaceEvent
                    &&& key.location is Standard
                    &&& !key.repeat
                    &&& key.text is None
                    &&& device_id.0 == 0
                    &&& !is_synthetic
                }
        },
{
}

/// A key is told of as the report says: pressed exactly if it went down, by its meaning, its
/// location, its native number and its device. It repeats exactly if it goes down while it is held.
pub proof fn law_key_is_told_as_reported<T, K>(
    keys: &mut PressedKeys,
    key: KeyEventData<K>,
    told: Event<T, K>,
)
    requires
        call_ensures(handle_key_event::<T, K>, (keys, key), told),
    ensures
        final(keys)@.contains(key.code) <==> key.action is Down || (old(keys)@.contains(key.code)
            && key.action !is Up),
        forall|other: i32|
            other != key.code ==> (#[trigger] final(keys)@.contains(other) <==> old(keys)@.contains(
                other,
            )),
        told matches Event::WindowEvent {
            event: WindowEvent::KeyboardInput { device_id, event, is_synthetic },
            ..
        } && {
            &&& event.state is Pressed <==> key.action is Down
            &&& event.state is Released <==> key.action !is Down
            &&& event.logical_key == key.logical_key
            &&& event.location == key.location
            &&& event.physical_key matches KeyCode::Unidentified(NativeKeyCode::Ohos(code)) && code
                == key.native_code
            &&& event.repeat <==> key.action is Down && old(keys)@.contains(key.code)
            &&& event.text is None
            &&& (device_id.0 - key.device_id) % 0x1_0000_0000 == 0
            &&& !is_synthetic
        },
{
    law_device_number(key.device_id as int);
}

/// A touch is told of as such, and leaves the keys that are held alone.
pub proof fn law_touch_among_input<T, K>(
    keys: &mut PressedKeys,
    data: TouchEventData,
    told: Vec<Event<T, K>>,
    alone: Vec<Event<T, K>>,
)
    requires
        call_ensures(
            handle_input_event::<T, K>,
            (keys, InputEvent::<K>::TouchEvent(data)),
            told,
        ),
        call_ensures(handle_touch_event::<T, K>, (&data,), alone),
    ensures
        told@ == alone@,
        final(keys)@ == old(keys)@,
{
}

/// The mouse is told of as such, and leaves the keys that are held alone.
pub proof fn law_mouse_among_input<T, K>(
    keys: &mut PressedKeys,
    data: MouseEventData,
    told: Vec<Event<T, K>>,
    alone: Vec<Event<T, K>>,
)
    requires
        call_ensures(
            handle_input_event::<T, K>,
            (keys, InputEvent::<K>::MouseEvent(data)),
            told,
        ),
        call_ensures(handle_mouse_event::<T, K>, (&data,), alone),
    ensures
        told@ == alone@,
        final(keys)@ == old(keys)@,
{
}

/// A gesture is told of as such, and leaves the keys that are held alone.
pub proof fn law_gesture_among_input<T, K>(
    keys: &mut PressedKeys,
    data: AxisEventData,
    told: Vec<Event<T, K>>,
    alone: Vec<Event<T, K>>,
)
    requires
        call_ensures(handle_input_event::<T, K>, (keys, InputEvent::<K>::AxisEvent(data)), told),
        call_ensures(handle_axis_event::<T, K>, (&data,), alone),
    ensures
        told@ == alone@,
        final(keys)@ == old(keys)@,
{
}

/// The input method is told of as such, and leaves the keys that are held alone.
pub proof fn law_input_method_among_input<T, K>(
    keys: &mut PressedKeys,
    event: ImeEvent,
    told: Vec<Event<T, K>>,
    alone: Vec<Event<T, K>>,
)
    requires
        call_ensures(handle_input_event::<T, K>, (keys, InputEvent::<K>::ImeEvent(event)), told),
        call_ensures(handle_ime_event::<T, K>, (event,), alone),
    ensures
        told@ == alone@,
        final(keys)@ == old(keys)@,
{
}

/// A key is told of as such and alone, and the same keys are held then.
pub proof fn law_key_among_input<T, K>(
    keys: &mut PressedKeys,
    same: &mut PressedKeys,
    key: KeyEventData<K>,
    told: Vec<Event<T, K>>,
    alone: Event<T, K>,
)
    requires
        old(keys)@ == old(same)@,
        call_ensures(handle_input_event::<T, K>, (keys, InputEvent::KeyEvent(key)), told),
        call_ensures(handle_key_event::<T, K>, (same, key), alone),
    ensures
        told@.len() == 1,
        told@[0] == alone,
        final(keys)@ == final(same)@,
{
}

/// Input that is unknown is not told of, and leaves the keys that are held alone.
pub proof fn law_unknown_input_is_not_told<T, K>(keys: &mut PressedKeys, told: Vec<Event<T, K>>)
    requires
        call_ensures(handle_input_event::<T, K>, (keys, InputEvent::<K>::Unknown), told),
    ensures
        told@.len() == 0,
        final(keys)@ == old(keys)@,
{
}

/// A key is told of as pressed exactly if it went down, and as a repeat only then.
pub proof fn law_key_state<K>(held: Set<i32>, key: KeyEventData<K>)
    ensures
        key_state(key.action) == ElementState::Pressed <==> key.action is Down,
        is_repeat(held, key.action, key.code) ==> key_state(key.action) == ElementState::Pressed,
        key.action is Down ==> is_repeat(
            held_after(held, key.action, key.code),
            KeyAction::Down,
            key.code,
        ),
        key.action is Up ==> !is_repeat(
            held_after(held, key.action, key.code),
            KeyAction::Down,
            key.code,
        ),
{
}

} // verus!
