//! Windows: opening them, and what they answer.
use crate::binary64::Binary64;
use crate::color::{
    color_mode_of, law_color_is_as_asked, ohos_color, rgba_to_ohos_color, theme_to_color_mode,
    ColorMode, Theme, RGBA,
};
use crate::event_loop::{EventLoopWindowTarget, FocusState};
use crate::geometry::{PhysicalPosition, PhysicalSize, Rect};
use crate::handles::{display_handle, window_handle, window_handle_of};
use crate::ids::{ExternalError, NotSupportedError, OsError, WindowId};
use crate::links::text_of;
use crate::monitor::{monitors_of, MonitorHandle, VideoMode};
use raw_window_handle::{HandleError, RawDisplayHandle, RawWindowHandle};
use std::collections::VecDeque;
use vstd::prelude::*;

verus! {

// ---------------------------------------------------------------------------------------------
// Opening a window
// ---------------------------------------------------------------------------------------------

/// Whether a window takes over the container of the UI ability or floats above it.
///
/// There can be only one window of the first kind, which is also the kind of a window that names
/// none. A window that is to float has to say so.
#[derive(Clone, Copy, Debug, PartialEq, Eq, Structural)]
pub enum OHOSWindowKind {
    UIAbility,
    Float,
}

/// What an application asks of a window on this platform alone.
#[derive(Debug, PartialEq, Eq)]
pub struct PlatformSpecificWindowBuilderAttributes {
    pub label: Option<String>,
    pub window_kind: Option<OHOSWindowKind>,
}

impl Default for PlatformSpecificWindowBuilderAttributes {
    fn default() -> (attributes: PlatformSpecificWindowBuilderAttributes)
        ensures
            attributes.label is None,
            attributes.window_kind is None,
    {
        PlatformSpecificWindowBuilderAttributes { label: None, window_kind: None }
    }
}

impl Clone for PlatformSpecificWindowBuilderAttributes {
    fn clone(&self) -> (other: PlatformSpecificWindowBuilderAttributes)
        ensures
            text_of(other.label) == text_of(self.label),
            other.window_kind == self.window_kind,
    {
        PlatformSpecificWindowBuilderAttributes {
            label: self.label.clone(),
            window_kind: self.window_kind,
        }
    }
}

/// What an application asks of a window.
#[derive(Debug, PartialEq, Eq)]
pub struct WindowAttributes {
    pub title: String,
    pub decorations: bool,
    pub transparent: bool,
    pub background_color: Option<RGBA>,
}

/// The number of the platform's type of floating windows.
pub const TYPE_FLOAT: i32 = 8;

/// What the platform needs to open a floating window.
#[derive(Debug, PartialEq, Eq)]
pub struct WindowCreateParams {
    pub name: String,
    pub window_type: i32,
    pub decorations: bool,
    pub transparent: bool,
    pub background_color: Option<u32>,
}

/// Whether the container of the UI ability has been given to a window.
#[derive(Debug, PartialEq, Eq)]
pub struct UiAbilitySlot {
    created: bool,
}

impl UiAbilitySlot {
    /// Whether a window has the container.
    pub closed spec fn taken(&self) -> bool {
        self.created
    }

    /// The container is free.
    pub fn new() -> (slot: UiAbilitySlot)
        ensures
            !slot.taken(),
    {
        UiAbilitySlot { created: false }
    }
}

/// Whether a window of the given kind asks for the container of the UI ability. Every window
/// does that is not made to float.
pub open spec fn wants_ui_ability(kind: Option<OHOSWindowKind>) -> bool {
    match kind {
        Some(OHOSWindowKind::UIAbility) => true,
        Some(OHOSWindowKind::Float) => false,
        None => true,
    }
}

/// Whether a window of the given kind is refused: the container of the UI ability, which it asks
/// for, has been given away.
pub open spec fn is_refused(kind: Option<OHOSWindowKind>, taken: bool) -> bool {
    wants_ui_ability(kind) && taken
}

/// A window that is about to be opened.
#[derive(Clone, Copy, Debug, PartialEq, Eq, Structural)]
pub struct WindowPlan {
    /// Whether the window has the container of the UI ability.
    pub is_main_window: bool,
    pub decorations: bool,
    pub transparent: bool,
}

/// The name that a floating window is opened under: its label, or else its title.
pub open spec fn window_name(
    window_attrs: WindowAttributes,
    pl_attrs: PlatformSpecificWindowBuilderAttributes,
) -> String {
    match pl_attrs.label {
        Some(label) => label,
        None => window_attrs.title,
    }
}

/// What the platform needs to open the window as a floating one.
pub open spec fn float_params(
    window_attrs: WindowAttributes,
    pl_attrs: PlatformSpecificWindowBuilderAttributes,
) -> WindowCreateParams {
    WindowCreateParams {
        name: window_name(window_attrs, pl_attrs),
        window_type: TYPE_FLOAT,
        decorations: window_attrs.decorations,
        transparent: window_attrs.transparent,
        background_color: ohos_color(window_attrs.transparent, window_attrs.background_color),
    }
}

impl UiAbilitySlot {
    /// Decides how a window is opened. A floating window has to be created with the parameters
    /// given. The error comes for a second window that asks for the container of the UI ability, and
    /// no floating window takes its place.
    pub fn prepare_window(
        &mut self,
        window_attrs: WindowAttributes,
        pl_attrs: PlatformSpecificWindowBuilderAttributes,
    ) -> (prepared: Result<(WindowPlan, Option<WindowCreateParams>), OsError>)
        ensures
            final(self).taken() == (old(self).taken() || wants_ui_ability(pl_attrs.window_kind)),
            prepared is Err <==> is_refused(pl_attrs.window_kind, old(self).taken()),
            prepared matches Ok((plan, params)) ==> {
                &&& plan.is_main_window == wants_ui_ability(pl_attrs.window_kind)
                &&& plan.decorations == window_attrs.decorations
                &&& plan.transparent == window_attrs.transparent
                &&& params == if plan.is_main_window {
                    None
                } else {
                    Some(float_params(window_attrs, pl_attrs))
                }
                &&& params is Some <==> pl_attrs.window_kind == Some(OHOSWindowKind::Float)
            },
            prepared matches Ok((plan, Some(params))) ==> {
                &&& params.decorations == window_attrs.decorations
                &&& params.transparent == window_attrs.transparent
                &&& params.window_type == 8
                &&& pl_attrs.label matches Some(label) ==> params.name == label
                &&& pl_attrs.label is None ==> params.name == window_attrs.title
                &&& window_attrs.transparent ==> params.background_color == Some(0u32)
                &&& !window_attrs.transparent ==> (params.background_color is Some
                    <==> window_attrs.background_color is Some)
            },
    {
        let is_main_window = match pl_attrs.window_kind {
            Some(OHOSWindowKind::UIAbility) => true,
            Some(OHOSWindowKind::Float) => false,
            None => true,
        };
        if is_main_window {
            let created = self.created;
            self.created = true;
            if created {
                return Err(OsError);
            }
        }
        let plan = WindowPlan {
            is_main_window,
            decorations: window_attrs.decorations,
            transparent: window_attrs.transparent,
        };
        let params = if is_main_window {
            None
        } else {
            let name = match pl_attrs.label {
                Some(label) => label,
                None => window_attrs.title,
            };
            Some(
                WindowCreateParams {
                    name,
                    window_type: TYPE_FLOAT,
                    decorations: window_attrs.decorations,
                    transparent: window_attrs.transparent,
                    background_color: rgba_to_ohos_color(
                        window_attrs.transparent,
                        window_attrs.background_color,
                    ),
                },
            )
        };
        Ok((plan, params))
    }
}

/// A change to a window that the platform has to be told of.
#[derive(Clone, Copy, Debug, PartialEq, Eq, Structural)]
pub enum WindowCommand {
    SetDecorations { window_id: i64, decorations: bool },
    SetBackgroundColor { window_id: i64, color: u32 },
}

/// The state of an open window.
pub struct WindowState {
    /// The window's number: 0 for the container of the UI ability, and the one that the platform
    /// gave, if any, for a floating window.
    pub window_id: Option<i64>,
    pub theme: Theme,
    pub decorations: bool,
    pub transparent: bool,
}

/// An open window; `A` is the type of the application's handle.
#[derive(Debug)]
pub struct Window<A> {
    app: A,
    window_id: Option<i64>,
    theme: Theme,
    decorations: bool,
    transparent: bool,
}

impl<A> View for Window<A> {
    type V = WindowState;

    closed spec fn view(&self) -> WindowState {
        WindowState {
            window_id: self.window_id,
            theme: self.theme,
            decorations: self.decorations,
            transparent: self.transparent,
        }
    }
}

/// The state of a window that has just been opened; `created` is the number that the platform
/// gave a floating window.
pub open spec fn opened_state(plan: WindowPlan, created: Option<i64>) -> WindowState {
    WindowState {
        window_id: if plan.is_main_window {
            Some(0i64)
        } else {
            created
        },
        theme: Theme::Light,
        decorations: plan.decorations,
        transparent: plan.transparent,
    }
}

/// The state of a window whose decorations have been shown or hidden.
pub open spec fn decorated(state: WindowState, decorations: bool) -> WindowState {
    WindowState { decorations, ..state }
}

/// The state of a window that was asked for a theme. Without one the window is light.
pub open spec fn themed(state: WindowState, theme: Option<Theme>) -> WindowState {
    WindowState {
        theme: match theme {
            Some(theme) => theme,
            None => Theme::Light,
        },
        ..state
    }
}

/// What the platform is told when the decorations of a window are shown or hidden.
pub open spec fn decoration_command(state: WindowState, decorations: bool) -> Option<
    WindowCommand,
> {
    match state.window_id {
        Some(window_id) => Some(WindowCommand::SetDecorations { window_id, decorations }),
        None => None,
    }
}

/// The number of the colour behind a window's contents: white if no colour is asked for.
pub open spec fn background(color: Option<RGBA>) -> u32 {
    match ohos_color(false, color) {
        Some(argb) => argb,
        None => 0xFFFFFFFF,
    }
}

/// What the platform is told when the colour behind a window's contents is set: nothing if the
/// window is transparent or has no number.
pub open spec fn background_command(state: WindowState, color: Option<RGBA>) -> Option<
    WindowCommand,
> {
    match state.window_id {
        Some(window_id) => if state.transparent {
            None
        } else {
            Some(WindowCommand::SetBackgroundColor { window_id, color: background(color) })
        },
        None => None,
    }
}

/// The size of a window, given the rectangles of its contents and of itself. A window whose own
/// rectangle has not been reported is as large as its contents.
pub open spec fn outer_size_of(content: Rect, window: Rect) -> PhysicalSize {
    if window.has_area() {
        window.size()
    } else {
        content.size()
    }
}

/// What full-screen display a window has.
#[derive(Debug, PartialEq, Eq, Hash)]
pub enum Fullscreen<A> {
    Exclusive(VideoMode<A>),
    Borderless(Option<MonitorHandle<A>>),
}

/// How urgently the user's attention is asked for.
#[derive(Clone, Copy, Debug, PartialEq, Eq, Structural)]
pub enum UserAttentionType {
    Critical,
    Informational,
}

/// The side or corner that a window is resized by.
#[derive(Clone, Copy, Debug, PartialEq, Eq, Structural)]
pub enum ResizeDirection {
    East,
    North,
    NorthEast,
    NorthWest,
    South,
    SouthEast,
    SouthWest,
    West,
}

impl<A: Clone> Window<A> {
    /// The handle of the application.
    pub closed spec fn application(&self) -> A {
        self.app
    }

    /// Opens a window as planned; `created` is the number that the platform gave a floating
    /// window, if it gave one. The container of the UI ability has decorations of its own, so
    /// that a window without any has to have them taken away.
    pub fn new(el: &EventLoopWindowTarget<A>, plan: WindowPlan, created: Option<i64>) -> (opened: (
        Window<A>,
        Option<WindowCommand>,
    ))
        ensures
            opened.0@ == opened_state(plan, created),
            cloned(el.app, opened.0.application()),
            opened.1 == if plan.is_main_window && !plan.decorations {
                Some(WindowCommand::SetDecorations { window_id: 0, decorations: false })
            } else {
                None
            },
    {
        let window_id = if plan.is_main_window {
            Some(0)
        } else {
            created
        };
        let window = Window {
            app: el.app.clone(),
            window_id,
            theme: Theme::Light,
            decorations: plan.decorations,
            transparent: plan.transparent,
        };
        let command = if plan.is_main_window && !plan.decorations {
            Some(WindowCommand::SetDecorations { window_id: 0, decorations: false })
        } else {
            None
        };
        (window, command)
    }

    // -----------------------------------------------------------------------------------------
    // Appearance
    // -----------------------------------------------------------------------------------------

    /// Shows or hides the decorations; gives what the platform has to be told.
    pub fn set_decorations(&mut self, decorations: bool) -> (command: Option<WindowCommand>)
        ensures
            final(self)@ == decorated(old(self)@, decorations),
            final(self).application() == old(self).application(),
            command == decoration_command(old(self)@, decorations),
    {
        self.decorations = decorations;
        if let Some(window_id) = self.window_id {
            Some(WindowCommand::SetDecorations { window_id, decorations })
        } else {
            None
        }
    }

    /// Whether the window has decorations.
    pub fn is_decorated(&self) -> (decorated: bool)
        ensures
            decorated == self@.decorations,
    {
        self.decorations
    }

    /// Sets the colour behind the window's contents, white if there is none; gives what the
    /// platform has to be told. A transparent window keeps its transparency.
    pub fn set_background_color(&self, color: Option<RGBA>) -> (command: Option<WindowCommand>)
        ensures
            command == background_command(self@, color),
    {
        if self.transparent {
            return None;
        }
        let color = match rgba_to_ohos_color(false, color) {
            Some(argb) => argb,
            None => 0xFFFFFFFF,
        };
        if let Some(window_id) = self.window_id {
            Some(WindowCommand::SetBackgroundColor { window_id, color })
        } else {
            None
        }
    }

    /// The theme.
    pub fn theme(&self) -> (theme: Theme)
        ensures
            theme == self@.theme,
    {
        self.theme
    }

    /// Sets the theme, a light one if none is asked for; gives the colour mode that the ability
    /// has to be set to.
    pub fn set_theme(&mut self, theme: Option<Theme>) -> (mode: ColorMode)
        ensures
            final(self)@ == themed(old(self)@, theme),
            final(self).application() == old(self).application(),
            mode == color_mode_of(theme),
    {
        self.theme = theme.unwrap_or(Theme::Light);
        theme_to_color_mode(theme)
    }

    // -----------------------------------------------------------------------------------------
    // Place and size
    // -----------------------------------------------------------------------------------------

    /// The position of the content area on the screen: the window's position and, from there,
    /// that of the content area.
    pub fn inner_position(&self, content: &Rect, window: &Rect) -> (position: Result<
        PhysicalPosition<i32>,
        NotSupportedError,
    >)
        requires
            i32::MIN <= window.left + content.left <= i32::MAX,
            i32::MIN <= window.top + content.top <= i32::MAX,
        ensures
            position matches Ok(at) && at.x == window.left + content.left && at.y == window.top
                + content.top,
    {
        Ok(PhysicalPosition { x: window.left + content.left, y: window.top + content.top })
    }

    /// The size of the content area.
    pub fn inner_size(&self, content: &Rect) -> (size: PhysicalSize)
        ensures
            size == content.size(),
    {
        content.physical_size()
    }

    /// The position of the window on the screen.
    pub fn outer_position(&self, window: &Rect) -> (position: Result<
        PhysicalPosition<i32>,
        NotSupportedError,
    >)
        ensures
            position == Ok::<PhysicalPosition<i32>, NotSupportedError>(
                PhysicalPosition { x: window.left, y: window.top },
            ),
    {
        Ok(PhysicalPosition { x: window.left, y: window.top })
    }

    /// The size of the window. As long as the platform has not reported the window's rectangle,
    /// the content area stands in for it.
    pub fn outer_size(&self, content: &Rect, window: &Rect) -> (size: PhysicalSize)
        ensures
            size == outer_size_of(*content, *window),
    {
        if window.width > 0 && window.height > 0 {
            window.physical_size()
        } else {
            content.physical_size()
        }
    }

    // -----------------------------------------------------------------------------------------
    // Identity and surroundings
    // -----------------------------------------------------------------------------------------

    /// The identifier that the window's events carry.
    pub fn id(&self) -> (id: WindowId)
        ensures
            id == WindowId,
    {
        WindowId
    }

    /// The window's number on the platform.
    pub fn window_id(&self) -> (window_id: Option<i64>)
        ensures
            window_id == self@.window_id,
    {
        self.window_id
    }

    /// Whether the application has the focus.
    pub fn is_focused(&self, focus: &FocusState) -> (focused: bool)
        ensures
            focused == focus.focused,
    {
        focus.focused
    }

    /// The displays: the only one.
    pub fn available_monitors(&self) -> (monitors: VecDeque<MonitorHandle<A>>)
        ensures
            monitors@.len() == 1,
            cloned(self.application(), monitors@[0].app),
    {
        monitors_of(&self.app)
    }

    /// The display that the window is on.
    pub fn current_monitor(&self) -> (monitor: Option<MonitorHandle<A>>)
        ensures
            monitor matches Some(m) && cloned(self.application(), m.app),
    {
        Some(MonitorHandle::new(self.app.clone()))
    }

    /// The main display.
    pub fn primary_monitor(&self) -> (monitor: Option<MonitorHandle<A>>)
        ensures
            monitor matches Some(m) && cloned(self.application(), m.app),
    {
        Some(MonitorHandle::new(self.app.clone()))
    }

    /// The display at a point. The platform does not tell.
    pub fn monitor_from_point(&self, _x: Binary64, _y: Binary64) -> (monitor: Option<
        MonitorHandle<A>,
    >)
        ensures
            monitor is None,
    {
        None
    }

    /// The position of the cursor, given the bits of its two coordinates.
    pub fn cursor_position(&self, x_bits: u64, y_bits: u64) -> (position: Result<
        PhysicalPosition<Binary64>,
        ExternalError,
    >)
        ensures
            position == Ok::<PhysicalPosition<Binary64>, ExternalError>(
                PhysicalPosition { x: Binary64 { bits: x_bits }, y: Binary64 { bits: y_bits } },
            ),
    {
        Ok(PhysicalPosition { x: Binary64 { bits: x_bits }, y: Binary64 { bits: y_bits } })
    }

    /// The handle of the window, given the native window, if there is one, by the handle it gives.
    pub fn raw_window_handle_rwh_06(
        &self,
        native_window: Option<Option<RawWindowHandle>>,
    ) -> (handle: Result<RawWindowHandle, HandleError>)
        ensures
            handle == window_handle_of(native_window),
    {
        window_handle(native_window)
    }

    /// The handle of the display.
    pub fn raw_display_handle_rwh_06(&self) -> (handle: Result<RawDisplayHandle, HandleError>)
        ensures
            handle matches Ok(raw) && raw is Ohos,
    {
        display_handle()
    }

    /// The title. The platform does not show one.
    pub fn title(&self) -> (title: String)
        ensures
            title@ == Seq::<char>::empty(),
    {
        String::new()
    }

    /// The full-screen display of the window. There is none.
    pub fn fullscreen(&self) -> (fullscreen: Option<Fullscreen<A>>)
        ensures
            fullscreen is None,
    {
        None
    }

    // -----------------------------------------------------------------------------------------
    // What the platform does not offer
    // -----------------------------------------------------------------------------------------

    /// Whether the window is minimized: never.
    pub fn is_minimized(&self) -> (answer: bool)
        ensures
            !answer,
    {
        false
    }

    /// Whether the window is maximized: never.
    pub fn is_maximized(&self) -> (answer: bool)
        ensures
            !answer,
    {
        false
    }

    /// Whether the window is kept above others: not known here.
    pub fn is_always_on_top(&self) -> (answer: bool)
        ensures
            !answer,
    {
        false
    }

    /// Whether the window is visible: not known here.
    pub fn is_visible(&self) -> (answer: bool)
        ensures
            !answer,
    {
        false
    }

    /// Whether the user can resize the window: not here.
    pub fn is_resizable(&self) -> (answer: bool)
        ensures
            !answer,
    {
        false
    }

    /// Whether the user can minimize the window: not here.
    pub fn is_minimizable(&self) -> (answer: bool)
        ensures
            !answer,
    {
        false
    }

    /// Whether the user can maximize the window: not here.
    pub fn is_maximizable(&self) -> (answer: bool)
        ensures
            !answer,
    {
        false
    }

    /// Whether the user can close the window: not here.
    pub fn is_closable(&self) -> (answer: bool)
        ensures
            !answer,
    {
        false
    }

    /// Confines the cursor to the window. Not supported.
    pub fn set_cursor_grab(&self, _grab: bool) -> (done: Result<(), ExternalError>)
        ensures
            done == Err::<(), ExternalError>(ExternalError::NotSupported(NotSupportedError)),
    {
        Err(ExternalError::NotSupported(NotSupportedError))
    }

    /// Moves the cursor. Not supported.
    pub fn set_cursor_position<P>(&self, _position: P) -> (done: Result<(), ExternalError>)
        ensures
            done == Err::<(), ExternalError>(ExternalError::NotSupported(NotSupportedError)),
    {
        Err(ExternalError::NotSupported(NotSupportedError))
    }

    /// Lets cursor events pass through the window. Not supported.
    pub fn set_ignore_cursor_events(&self, _ignore: bool) -> (done: Result<(), ExternalError>)
        ensures
            done == Err::<(), ExternalError>(ExternalError::NotSupported(NotSupportedError)),
    {
        Err(ExternalError::NotSupported(NotSupportedError))
    }

    /// Moves the window with the mouse. Not supported.
    pub fn drag_window(&self) -> (done: Result<(), ExternalError>)
        ensures
            done == Err::<(), ExternalError>(ExternalError::NotSupported(NotSupportedError)),
    {
        Err(ExternalError::NotSupported(NotSupportedError))
    }

    /// Resizes the window with the mouse. Not supported.
    pub fn drag_resize_window(&self, _direction: ResizeDirection) -> (done: Result<(), ExternalError>)
        ensures
            done == Err::<(), ExternalError>(ExternalError::NotSupported(NotSupportedError)),
    {
        Err(ExternalError::NotSupported(NotSupportedError))
    }

    /// Asks for the window to be drawn again. The platform draws each frame anyway.
    pub fn request_redraw(&self) {
    }

    /// Has no effect: the platform sizes the window.
    pub fn set_inner_size<S>(&self, _size: S) {
    }

    /// Has no effect: the platform sizes the window.
    pub fn set_inner_size_constraints<C>(&self, _constraints: C) {
    }

    /// Has no effect: the platform sizes the window.
    pub fn set_min_inner_size<S>(&self, _size: Option<S>) {
    }

    /// Has no effect: the platform sizes the window.
    pub fn set_max_inner_size<S>(&self, _size: Option<S>) {
    }

    /// Has no effect: the platform places the window.
    pub fn set_outer_position<P>(&self, _position: P) {
    }

    /// Has no effect: the platform shows no title.
    pub fn set_title(&self, _title: &str) {
    }

    /// Has no effect.
    pub fn set_visible(&self, _visibility: bool) {
    }

    /// Has no effect.
    pub fn set_focus(&self) {
    }

    /// Has no effect.
    pub fn set_focusable(&self, _focusable: bool) {
    }

    /// Has no effect.
    pub fn set_resizable(&self, _resizable: bool) {
    }

    /// Has no effect.
    pub fn set_minimizable(&self, _minimizable: bool) {
    }

    /// Has no effect.
    pub fn set_maximizable(&self, _maximizable: bool) {
    }

    /// Has no effect.
    pub fn set_closable(&self, _closable: bool) {
    }

    /// Has no effect.
    pub fn set_minimized(&self, _minimized: bool) {
    }

    /// Has no effect.
    pub fn set_maximized(&self, _maximized: bool) {
    }

    /// Has no effect.
    pub fn set_fullscreen(&self, _fullscreen: Option<Fullscreen<A>>) {
    }

    /// Has no effect.
    pub fn set_always_on_bottom(&self, _always_on_bottom: bool) {
    }

    /// Has no effect.
    pub fn set_always_on_top(&self, _always_on_top: bool) {
    }

    /// Has no effect.
    pub fn set_ime_position<P>(&self, _position: P) {
    }

    /// Has no effect.
    pub fn set_window_icon<I>(&self, _icon: Option<I>) {
    }

    /// Has no effect.
    pub fn set_cursor_icon<C>(&self, _cursor: C) {
    }

    /// Has no effect.
    pub fn set_cursor_visible(&self, _visible: bool) {
    }

    /// Has no effect.
    pub fn request_user_attention(&self, _request: Option<UserAttentionType>) {
    }
}

// ---------------------------------------------------------------------------------------------
// Laws
// ---------------------------------------------------------------------------------------------

/// How many of a series of windows, by their kinds, are granted the container of the UI ability,
/// when that has been given away before or not.
pub open spec fn main_windows(kinds: Seq<Option<OHOSWindowKind>>, taken: bool) -> nat
    decreases kinds.len(),
{
    if kinds.len() == 0 {
        0
    } else {
        let wants = wants_ui_ability(kinds[0]);
        let granted: nat = if wants && !taken {
            1
        } else {
            0
        };
        granted + main_windows(kinds.drop_first(), taken || wants)
    }
}

/// At most one window ever has the container of the UI ability. As long as that is free, one of a
/// series of windows gets it exactly if they are not all floating.
pub proof fn law_single_main_window(kinds: Seq<Option<OHOSWindowKind>>, taken: bool)
    ensures
        taken ==> main_windows(kinds, taken) == 0,
        !taken ==> main_windows(kinds, taken) == if exists|i: int|
            0 <= i < kinds.len() && #[trigger] kinds[i] != Some(OHOSWindowKind::Float) {
            1nat
        } else {
            0nat
        },
    decreases kinds.len(),
{
    if kinds.len() > 0 {
        let rest = kinds.drop_first();
        law_single_main_window(rest, taken || wants_ui_ability(kinds[0]));
        assert(forall|i: int| 0 <= i < rest.len() ==> #[trigger] rest[i] == kinds[i + 1]);
        if !taken && kinds[0] == Some(OHOSWindowKind::Float) {
            assert forall|i: int|
                0 <= i < kinds.len() && #[trigger] kinds[i] != Some(
                    OHOSWindowKind::Float,
                ) implies exists|j: int|
                0 <= j < rest.len() && #[trigger] rest[j] != Some(OHOSWindowKind::Float) by {
                assert(rest[i - 1] == kinds[i]);
            }
        }
    }
}

/// Once the container of the UI ability has been given away, a window is refused unless it is
/// made to float. Before that, none is, and one made to float never is.
pub proof fn law_only_floating_is_never_refused(kind: Option<OHOSWindowKind>, taken: bool)
    ensures
        is_refused(kind, taken) <==> kind != Some(OHOSWindowKind::Float) && taken,
{
}

/// A window has the theme it was last asked for, and a light one if it was last asked for none.
/// Neither the theme nor the decorations disturb each other or anything else.
pub proof fn law_theme_and_decorations(
    state: WindowState,
    theme: Option<Theme>,
    earlier: Option<Theme>,
    decorations: bool,
)
    ensures
        theme matches Some(t) ==> themed(state, theme).theme == t,
        theme is None ==> themed(state, theme).theme == Theme::Light,
        themed(themed(state, earlier), theme) == themed(state, theme),
        decorated(state, decorations).decorations == decorations,
        decorated(themed(state, theme), decorations) == themed(
            decorated(state, decorations),
            theme,
        ),
        themed(state, theme).decorations == state.decorations,
        themed(state, theme).window_id == state.window_id,
        themed(state, theme).transparent == state.transparent,
        decorated(state, decorations).theme == state.theme,
        decorated(state, decorations).window_id == state.window_id,
        decorated(state, decorations).transparent == state.transparent,
{
}

/// A change that an open window can undergo.
pub enum WindowChange {
    Theme(Option<Theme>),
    Decorations(bool),
}

/// The state of a window after a series of changes, oldest first.
pub open spec fn changed_by(state: WindowState, changes: Seq<WindowChange>) -> WindowState
    decreases changes.len(),
{
    if changes.len() == 0 {
        state
    } else {
        let before = changed_by(state, changes.drop_last());
        match changes.last() {
            WindowChange::Theme(theme) => themed(before, theme),
            WindowChange::Decorations(decorations) => decorated(before, decorations),
        }
    }
}

/// Whatever an open window undergoes, it keeps its number and its transparency. No colour asked of
/// a transparent window at any time reaches the platform.
pub proof fn law_number_and_transparency_last(
    state: WindowState,
    changes: Seq<WindowChange>,
    color: Option<RGBA>,
)
    ensures
        changed_by(state, changes).window_id == state.window_id,
        changed_by(state, changes).transparent == state.transparent,
        state.transparent ==> background_command(changed_by(state, changes), color) is None,
        background_command(changed_by(state, changes), color) == background_command(state, color),
    decreases changes.len(),
{
    if changes.len() > 0 {
        law_number_and_transparency_last(state, changes.drop_last(), color);
    }
}

/// A colour is the same number to the platform whether a window is opened with it or given it
/// later.
pub proof fn law_color_on_opening_and_later(
    window_attrs: WindowAttributes,
    pl_attrs: PlatformSpecificWindowBuilderAttributes,
    color: RGBA,
)
    requires
        !window_attrs.transparent,
        window_attrs.background_color == Some(color),
    ensures
        float_params(window_attrs, pl_attrs).background_color == Some(background(Some(color))),
{
}

/// A floating window is opened with the decorations, the transparency and the colour asked for,
/// under its label or else its title, and as one of type eight.
pub proof fn law_floating_window_is_as_asked(
    slot: &mut UiAbilitySlot,
    window_attrs: WindowAttributes,
    pl_attrs: PlatformSpecificWindowBuilderAttributes,
    prepared: Result<(WindowPlan, Option<WindowCreateParams>), OsError>,
)
    requires
        call_ensures(UiAbilitySlot::prepare_window, (slot, window_attrs, pl_attrs), prepared),
        pl_attrs.window_kind == Some(OHOSWindowKind::Float),
    ensures
        final(slot).taken() == old(slot).taken(),
        prepared matches Ok((plan, Some(params))) && {
            &&& !plan.is_main_window
            &&& plan.decorations == window_attrs.decorations
            &&& plan.transparent == window_attrs.transparent
            &&& params.decorations == window_attrs.decorations
            &&& params.transparent == window_attrs.transparent
            &&& params.window_type == 8
            &&& params.name == match pl_attrs.label {
                Some(label) => label,
                None => window_attrs.title,
            }
            &&& window_attrs.transparent ==> params.background_color == Some(0u32)
            &&& !window_attrs.transparent && window_attrs.background_color is None
                ==> params.background_color is None
            &&& !window_attrs.transparent && window_attrs.background_color is Some ==> {
                let asked = window_attrs.background_color->0;
                &&& params.background_color matches Some(told) && {
                    &&& told as int / 0x100_0000 == asked.3
                    &&& told as int / 0x1_0000 % 0x100 == asked.0
                    &&& told as int / 0x100 % 0x100 == asked.1
                    &&& told as int % 0x100 == asked.2
                }
            }
        },
{
    if let Some((r, g, b, a)) = window_attrs.background_color {
        law_color_is_as_asked(r, g, b, a);
    }
}

/// A window that is not made to float gets the container of the UI ability, with the decorations
/// and the transparency asked for, as long as that is free, and then it is no longer free. Once it
/// is given away such a window is refused. Nothing is created for it either way.
pub proof fn law_main_window_is_as_asked(
    slot: &mut UiAbilitySlot,
    window_attrs: WindowAttributes,
    pl_attrs: PlatformSpecificWindowBuilderAttributes,
    prepared: Result<(WindowPlan, Option<WindowCreateParams>), OsError>,
)
    requires
        call_ensures(UiAbilitySlot::prepare_window, (slot, window_attrs, pl_attrs), prepared),
        pl_attrs.window_kind != Some(OHOSWindowKind::Float),
    ensures
        final(slot).taken(),
        prepared is Ok <==> !old(slot).taken(),
        prepared matches Ok((plan, params)) ==> {
            &&& plan.is_main_window
            &&& plan.decorations == window_attrs.decorations
            &&& plan.transparent == window_attrs.transparent
            &&& params is None
        },
{
}

/// A window that has been opened is as planned: the main window has number zero, and a floating
/// one the number that the platform gave it. It is light. The decorations are taken away from a
/// main window without any, and nothing else is asked of the platform.
pub proof fn law_window_opens_as_planned<A: Clone>(
    el: EventLoopWindowTarget<A>,
    plan: WindowPlan,
    created: Option<i64>,
    opened: (Window<A>, Option<WindowCommand>),
)
    requires
        call_ensures(Window::<A>::new, (&el, plan, created), opened),
    ensures
        plan.is_main_window ==> opened.0@.window_id == Some(0i64),
        !plan.is_main_window ==> opened.0@.window_id == created,
        opened.0@.theme is Light,
        opened.0@.decorations == plan.decorations,
        opened.0@.transparent == plan.transparent,
        opened.1 is Some <==> plan.is_main_window && !plan.decorations,
        opened.1 matches Some(command) ==> command matches WindowCommand::SetDecorations {
            window_id,
            decorations,
        } && window_id == 0 && !decorations,
        cloned(el.app, opened.0.application()),
{
}

/// A window whose decorations are shown or hidden has them or not from then on, and is otherwise as
/// before. The platform is told the same of the window's number, unless it has none.
pub proof fn law_decorations_are_as_asked<A: Clone>(
    window: &mut Window<A>,
    asked: bool,
    command: Option<WindowCommand>,
)
    requires
        call_ensures(Window::<A>::set_decorations, (window, asked), command),
    ensures
        final(window)@.decorations == asked,
        final(window)@.window_id == old(window)@.window_id,
        final(window)@.theme == old(window)@.theme,
        final(window)@.transparent == old(window)@.transparent,
        final(window).application() == old(window).application(),
        command is Some <==> old(window)@.window_id is Some,
        command matches Some(told) ==> told matches WindowCommand::SetDecorations {
            window_id,
            decorations,
        } && old(window)@.window_id == Some(window_id) && decorations == asked,
{
}

/// A window that was asked for a theme has it from then on, or a light one if it was asked for
/// none, and is otherwise as before. The ability follows: it is dark or light exactly if that was
/// asked for, and left to the system if nothing was.
pub proof fn law_theme_is_as_asked<A: Clone>(
    window: &mut Window<A>,
    asked: Option<Theme>,
    mode: ColorMode,
)
    requires
        call_ensures(Window::<A>::set_theme, (window, asked), mode),
    ensures
        final(window)@.theme is Dark <==> asked == Some(Theme::Dark),
        mode is Dark <==> asked == Some(Theme::Dark),
        mode is Light <==> asked == Some(Theme::Light),
        mode is NoSet <==> asked is None,
        final(window)@.window_id == old(window)@.window_id,
        final(window)@.decorations == old(window)@.decorations,
        final(window)@.transparent == old(window)@.transparent,
        final(window).application() == old(window).application(),
{
}

/// A theme sets the same colour mode whether it is asked of a window or of the event loop.
pub proof fn law_theme_of_window_and_loop_agree<A: Clone>(
    window: &mut Window<A>,
    target: EventLoopWindowTarget<A>,
    asked: Option<Theme>,
    of_window: ColorMode,
    of_target: ColorMode,
)
    requires
        call_ensures(Window::<A>::set_theme, (window, asked), of_window),
        call_ensures(EventLoopWindowTarget::<A>::set_theme, (&target, asked), of_target),
    ensures
        of_window == of_target,
        of_target is Dark <==> asked == Some(Theme::Dark),
        of_target is Light <==> asked == Some(Theme::Light),
        of_target is NoSet <==> asked is None,
{
}

/// The platform is told of a colour exactly if the window has a number and is not transparent. It
/// is told the window's number and, from the highest byte to the lowest, the opacity, the red, the
/// green and the blue asked for, or white if no colour is.
pub proof fn law_background_is_as_asked<A: Clone>(
    window: Window<A>,
    asked: Option<RGBA>,
    command: Option<WindowCommand>,
)
    requires
        call_ensures(Window::<A>::set_background_color, (&window, asked), command),
    ensures
        command is Some <==> window@.window_id is Some && !window@.transparent,
        command matches Some(told) ==> told matches WindowCommand::SetBackgroundColor {
            window_id,
            color,
        } && {
            &&& window@.window_id == Some(window_id)
            &&& asked is None ==> color == 0xFFFF_FFFF
            &&& asked matches Some(rgba) ==> {
                &&& color as int / 0x100_0000 == rgba.3
                &&& color as int / 0x1_0000 % 0x100 == rgba.0
                &&& color as int / 0x100 % 0x100 == rgba.1
                &&& color as int % 0x100 == rgba.2
            }
        },
{
    if let Some((r, g, b, a)) = asked {
        law_color_is_as_asked(r, g, b, a);
    }
}

/// The contents lie in the window: from its position theirs is as far as reported. Both sizes are
/// as reported, and the contents' stands for the window's until that is known.
pub proof fn law_places_and_sizes_are_as_reported<A: Clone>(
    it: Window<A>,
    content: Rect,
    window: Rect,
    inner: PhysicalPosition<i32>,
    outer: PhysicalPosition<i32>,
    inner_size: PhysicalSize,
    outer_size: PhysicalSize,
)
    requires
        call_ensures(Window::<A>::inner_position, (&it, &content, &window), Ok(inner)),
        call_ensures(Window::<A>::outer_position, (&it, &window), Ok(outer)),
        call_ensures(Window::<A>::inner_size, (&it, &content), inner_size),
        call_ensures(Window::<A>::outer_size, (&it, &content, &window), outer_size),
    ensures
        outer.x == window.left,
        outer.y == window.top,
        inner.x - outer.x == content.left,
        inner.y - outer.y == content.top,
        content.width >= 0 ==> inner_size.width == content.width,
        content.width < 0 ==> inner_size.width == content.width + 0x1_0000_0000,
        content.height >= 0 ==> inner_size.height == content.height,
        content.height < 0 ==> inner_size.height == content.height + 0x1_0000_0000,
        window.width > 0 && window.height > 0 ==> outer_size.width == window.width
            && outer_size.height == window.height,
        window.width <= 0 || window.height <= 0 ==> outer_size == inner_size,
{
}

/// What a window answers of itself is what it was last asked for.
pub proof fn law_window_answers_its_state<A: Clone>(
    window: Window<A>,
    decorated: bool,
    theme: Theme,
    window_id: Option<i64>,
)
    requires
        call_ensures(Window::<A>::is_decorated, (&window,), decorated),
        call_ensures(Window::<A>::theme, (&window,), theme),
        call_ensures(Window::<A>::window_id, (&window,), window_id),
    ensures
        decorated == window@.decorations,
        theme == window@.theme,
        window_id == window@.window_id,
{
}

/// The window has the handle that the native window gives, and none if there is no native window
/// or it gives none.
pub proof fn law_window_has_the_native_handle<A: Clone>(
    window: Window<A>,
    native_window: Option<Option<RawWindowHandle>>,
    handle: Result<RawWindowHandle, HandleError>,
)
    requires
        call_ensures(Window::<A>::raw_window_handle_rwh_06, (&window, native_window), handle),
    ensures
        native_window matches Some(Some(given)) ==> handle == Ok::<RawWindowHandle, HandleError>(
            given,
        ),
        native_window is None || native_window == Some(None::<RawWindowHandle>) ==> (
        handle matches Err(error) && error is Unavailable),
{
}

/// A window has the focus exactly if the application has.
pub proof fn law_window_has_the_application_focus<A: Clone>(
    window: Window<A>,
    focus: FocusState,
    focused: bool,
)
    requires
        call_ensures(Window::<A>::is_focused, (&window, &focus), focused),
    ensures
        focused == focus.focused,
{
}

/// The window and the target of the event loop tell of one cursor, at the place reported.
pub proof fn law_cursor_is_where_reported<A: Clone>(
    window: Window<A>,
    target: EventLoopWindowTarget<A>,
    x: u64,
    y: u64,
    of_window: Result<PhysicalPosition<Binary64>, ExternalError>,
    of_target: Result<PhysicalPosition<Binary64>, ExternalError>,
)
    requires
        call_ensures(Window::<A>::cursor_position, (&window, x, y), of_window),
        call_ensures(EventLoopWindowTarget::<A>::cursor_position, (&target, x, y), of_target),
    ensures
        of_window == of_target,
        of_window matches Ok(at) && at.x.bits == x && at.y.bits == y,
{
}

} // verus!
