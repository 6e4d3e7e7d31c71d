//! The events that the ability framework reports.
use crate::binary64::Binary64;
use crate::geometry::{Rect, Size};
use crate::keyboard::{Key, KeyAction, KeyLocation};
use vstd::prelude::*;

verus! {

/// What the fingers on the screen did.
#[derive(Clone, Copy, Debug, PartialEq, Eq, Structural)]
pub enum TouchEvent {
    Down,
    Up,
    Move,
    Cancel,
    Unknown,
}

/// One finger on the screen.
#[derive(Clone, Copy, Debug, PartialEq, Eq, Structural)]
pub struct TouchPointData {
    pub id: i32,
    pub x: Binary64,
    pub y: Binary64,
    pub force: Binary64,
}

/// A touch of one or more fingers.
#[derive(Debug, PartialEq)]
pub struct TouchEventData {
    pub device_id: i64,
    pub event_type: TouchEvent,
    pub touch_points: Vec<TouchPointData>,
}

/// A button of the mouse, in the naming of the ability framework.
#[derive(Clone, Copy, Debug, PartialEq, Eq, Structural)]
pub enum OhosMouseButton {
    NoneButton,
    LeftButton,
    RightButton,
    MiddleButton,
    BackButton,
    ForwardButton,
    Unknown,
}

/// What the mouse did.
#[derive(Clone, Copy, Debug, PartialEq, Eq, Structural)]
pub enum MouseAction {
    NoAction,
    Press,
    Release,
    Move,
    HoverEnter,
    HoverLeave,
}

/// An event of the mouse.
#[derive(Clone, Copy, Debug, PartialEq, Eq, Structural)]
pub struct MouseEventData {
    pub action: MouseAction,
    pub button: OhosMouseButton,
    pub x: Binary64,
    pub y: Binary64,
}

/// The device that a scroll came from.
#[derive(Clone, Copy, Debug, PartialEq, Eq, Structural)]
pub enum InputSourceType {
    Touchpad,
    Other,
}

/// A scroll or pinch gesture.
#[derive(Clone, Copy, Debug, PartialEq, Eq, Structural)]
pub struct AxisEventData {
    pub source_type: InputSourceType,
    pub delta_x: Binary64,
    pub delta_y: Binary64,
    /// The change of scale: 1 is none, more zooms in, less zooms out, and 0 is no pinch.
    pub pinch_scale: Binary64,
}

/// An event of the keyboard.
#[derive(Debug, PartialEq)]
pub struct KeyEventData<K> {
    /// The key's place in the framework's list of keys.
    pub code: i32,
    /// The key's number in the native interface.
    pub native_code: u32,
    pub action: KeyAction,
    pub device_id: i64,
    /// The key's meaning by the key table.
    pub logical_key: Key<K>,
    /// The key's location by the key table.
    pub location: KeyLocation,
}

/// Whether the on-screen keyboard is shown.
#[derive(Clone, Copy, Debug, PartialEq, Eq, Structural)]
pub enum KeyboardStatus {
    NoStatus,
    Hide,
    Show,
}

/// An event of the input method.
#[derive(Debug, PartialEq)]
pub enum ImeEvent {
    TextInputEvent(String),
    BackspaceEvent(i32),
    EnterEvent,
    ImeStatusEvent(KeyboardStatus),
}

/// An event of an input device.
#[derive(Debug, PartialEq)]
pub enum InputEvent<K> {
    TouchEvent(TouchEventData),
    MouseEvent(MouseEventData),
    AxisEvent(AxisEventData),
    KeyEvent(KeyEventData<K>),
    ImeEvent(ImeEvent),
    Unknown,
}

/// Why the content area changed.
#[derive(Clone, Copy, Debug, PartialEq, Eq, Structural)]
pub enum RectChangeReason {
    Undefined,
    Maximize,
    Recover,
    Move,
    Drag,
    DragStart,
    DragEnd,
}

impl RectChangeReason {
    /// The reason's number in the ability framework.
    pub open spec fn number(self) -> u32 {
        match self {
            RectChangeReason::Undefined => 0,
            RectChangeReason::Maximize => 1,
            RectChangeReason::Recover => 2,
            RectChangeReason::Move => 3,
            RectChangeReason::Drag => 4,
            RectChangeReason::DragStart => 5,
            RectChangeReason::DragEnd => 6,
        }
    }

    /// The reason's number in the ability framework.
    pub fn to_number(&self) -> (n: u32)
        ensures
            n == self.number(),
    {
        match self {
            RectChangeReason::Undefined => 0,
            RectChangeReason::Maximize => 1,
            RectChangeReason::Recover => 2,
            RectChangeReason::Move => 3,
            RectChangeReason::Drag => 4,
            RectChangeReason::DragStart => 5,
            RectChangeReason::DragEnd => 6,
        }
    }
}

/// An event of the application's main ability.
#[derive(Debug, PartialEq)]
pub enum MainEvent<K> {
    SurfaceCreate,
    SurfaceDestroy,
    WindowResize(Size),
    WindowRedraw,
    ContentRectChange { rect: Rect, reason: RectChangeReason },
    GainedFocus,
    LostFocus,
    /// The configuration changed; carries the content area and the display scale read then.
    ConfigChanged { content_rect: Rect, scale: Binary64 },
    Start,
    Resume,
    SaveState,
    Pause,
    WindowDestroy,
    Destroy,
    Input(InputEvent<K>),
    /// The application was launched again, with the address it was asked to open.
    NewWant { uri: String },
    UserEvent,
    /// Any event that the application is not told of.
    Unknown,
}

/// The reasons are numbered from zero in the order undefined, maximize, recover, move, drag, drag
/// start, drag end, and no two have one number.
pub proof fn law_reasons_have_numbers(reason: RectChangeReason, other: RectChangeReason)
    ensures
        reason.number() == 0 <==> reason is Undefined,
        reason.number() == 1 <==> reason is Maximize,
        reason.number() == 2 <==> reason is Recover,
        reason.number() == 3 <==> reason is Move,
        reason.number() == 4 <==> reason is Drag,
        reason.number() == 5 <==> reason is DragStart,
        reason.number() == 6 <==> reason is DragEnd,
        reason.number() == other.number() ==> reason == other,
{
}

} // verus!
