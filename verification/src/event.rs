//! The events that the application receives.
use crate::binary64::Binary64;
use crate::geometry::{PhysicalPosition, PhysicalSize};
use crate::ids::{DeviceId, WindowId};
use crate::keyboard::{Key, KeyCode, KeyEventExtra, KeyLocation, ModifiersState};
use vstd::prelude::*;

verus! {

/// Why the event loop starts a round of events.
#[derive(Clone, Copy, Debug, PartialEq, Eq, Structural)]
pub enum StartCause {
    Init,
}

/// Whether a key or button went down or came up.
#[derive(Clone, Copy, Debug, PartialEq, Eq, Hash, Structural)]
pub enum ElementState {
    Pressed,
    Released,
}

/// The phase of a touch or of a scroll gesture.
#[derive(Clone, Copy, Debug, PartialEq, Eq, Hash, Structural)]
pub enum TouchPhase {
    Started,
    Moved,
    Ended,
    Cancelled,
}

/// The pressure of a touch.
#[derive(Clone, Copy, Debug, PartialEq, Eq, Structural)]
pub enum Force {
    Normalized(Binary64),
}

/// A touch of one finger.
#[derive(Clone, Copy, Debug, PartialEq, Eq, Structural)]
pub struct Touch {
    pub device_id: DeviceId,
    pub phase: TouchPhase,
    pub location: PhysicalPosition<Binary64>,
    pub force: Option<Force>,
    pub id: u64,
}

/// A button of the mouse.
#[derive(Clone, Copy, Debug, PartialEq, Eq, Hash, Structural)]
pub enum MouseButton {
    Left,
    Right,
    Middle,
    Other(u16),
}

/// How far a wheel or touchpad scrolled.
#[derive(Clone, Copy, Debug, PartialEq, Eq, Structural)]
pub enum MouseScrollDelta {
    LineDelta(Binary64, Binary64),
    PixelDelta(PhysicalPosition<Binary64>),
}

/// A key that went down or came up.
#[derive(Debug, PartialEq)]
pub struct KeyEvent<K> {
    pub physical_key: KeyCode,
    pub logical_key: Key<K>,
    pub text: Option<String>,
    pub location: KeyLocation,
    pub state: ElementState,
    pub repeat: bool,
    pub platform_specific: KeyEventExtra,
}

/// An event of the window.
#[derive(Debug, PartialEq)]
pub enum WindowEvent<K> {
    Resized(PhysicalSize),
    CloseRequested,
    Destroyed,
    Focused(bool),
    ScaleFactorChanged { scale_factor: Binary64, new_inner_size: PhysicalSize },
    ReceivedImeText(String),
    KeyboardInput { device_id: DeviceId, event: KeyEvent<K>, is_synthetic: bool },
    CursorMoved {
        device_id: DeviceId,
        position: PhysicalPosition<Binary64>,
        modifiers: ModifiersState,
    },
    CursorEntered { device_id: DeviceId },
    CursorLeft { device_id: DeviceId },
    MouseInput {
        device_id: DeviceId,
        state: ElementState,
        button: MouseButton,
        modifiers: ModifiersState,
    },
    MouseWheel {
        device_id: DeviceId,
        delta: MouseScrollDelta,
        phase: TouchPhase,
        modifiers: ModifiersState,
    },
    Touch(Touch),
}

/// An event of the application; `T` is the type of its own events, `K` that of its key table.
#[derive(Debug, PartialEq)]
pub enum Event<T, K> {
    NewEvents(StartCause),
    Started,
    Resumed,
    Suspended,
    SaveStateRequested,
    MainEventsCleared,
    LoopDestroyed,
    RedrawRequested(WindowId),
    /// The content area moved or changed its size. The rectangle is given as left, top, width
    /// and height.
    ContentRectChanged { rect: (i32, i32, i32, i32), reason: u32 },
    WindowEvent { window_id: WindowId, event: WindowEvent<K> },
    /// The application was launched again, with the addresses to open in their normal form.
    Opened { urls: Vec<String> },
    UserEvent(T),
}

/// An event of the window.
pub open spec fn window_event<T, K>(event: WindowEvent<K>) -> Event<T, K> {
    Event::WindowEvent { window_id: WindowId, event }
}

/// Wraps an event of the window.
pub(crate) fn of_window<T, K>(event: WindowEvent<K>) -> (wrapped: Event<T, K>)
    ensures
        wrapped == window_event::<T, K>(event),
{
    Event::WindowEvent { window_id: WindowId, event }
}

} // verus!
