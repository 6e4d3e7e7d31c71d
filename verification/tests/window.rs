use raw_window_handle::{HandleError, OhosNdkWindowHandle, RawDisplayHandle, RawWindowHandle};
use tao_ohos::binary64::Binary64;
use tao_ohos::color::{ColorMode, Theme};
use tao_ohos::event_loop::{EventLoopWindowTarget, FocusState};
use tao_ohos::geometry::{PhysicalPosition, PhysicalSize, Rect};
use tao_ohos::ids::{ExternalError, NotSupportedError, OsError, WindowId};
use tao_ohos::monitor::MonitorHandle;
use tao_ohos::window::{
    OHOSWindowKind, PlatformSpecificWindowBuilderAttributes, ResizeDirection, UiAbilitySlot,
    Window, WindowAttributes, WindowCommand, WindowCreateParams, WindowPlan,
};

fn attributes(decorations: bool, transparent: bool) -> WindowAttributes {
    WindowAttributes {
        title: "title".to_string(),
        decorations,
        transparent,
        background_color: Some((1, 2, 3, 255)),
    }
}

fn kind(window_kind: Option<OHOSWindowKind>) -> PlatformSpecificWindowBuilderAttributes {
    PlatformSpecificWindowBuilderAttributes { label: None, window_kind }
}

fn target() -> EventLoopWindowTarget<char> {
    EventLoopWindowTarget { app: 'A', exit: false }
}

fn open(is_main_window: bool, transparent: bool, created: Option<i64>) -> Window<char> {
    let plan = WindowPlan { is_main_window, decorations: true, transparent };
    Window::new(&target(), plan, created).0
}

#[test]
fn the_first_window_has_the_ability_and_others_float_when_asked_to() {
    let mut slot = UiAbilitySlot::new();
    let (plan, params) = slot.prepare_window(attributes(true, false), kind(None)).unwrap();
    assert_eq!(plan, WindowPlan { is_main_window: true, decorations: true, transparent: false });
    assert_eq!(params, None);
    let float = Some(OHOSWindowKind::Float);
    let (plan, params) = slot.prepare_window(attributes(false, false), kind(float)).unwrap();
    assert!(!plan.is_main_window);
    assert_eq!(
        params,
        Some(WindowCreateParams {
            name: "title".to_string(),
            window_type: 8,
            decorations: false,
            transparent: false,
            background_color: Some(0xFF010203),
        })
    );
}

#[test]
fn a_second_ability_window_is_refused() {
    let mut slot = UiAbilitySlot::new();
    let ability = Some(OHOSWindowKind::UIAbility);
    assert!(slot.prepare_window(attributes(true, false), kind(ability)).is_ok());
    assert_eq!(slot.prepare_window(attributes(true, false), kind(ability)), Err(OsError));
    assert_eq!(slot.prepare_window(attributes(true, false), kind(ability)), Err(OsError));
    assert_eq!(slot.prepare_window(attributes(true, false), kind(None)), Err(OsError));
}

#[test]
fn a_window_of_no_kind_never_floats() {
    let mut slot = UiAbilitySlot::new();
    let (plan, params) = slot.prepare_window(attributes(true, false), kind(None)).unwrap();
    assert!(plan.is_main_window);
    assert_eq!(params, None);
    assert_eq!(slot.prepare_window(attributes(true, false), kind(None)), Err(OsError));
    let ability = Some(OHOSWindowKind::UIAbility);
    assert_eq!(slot.prepare_window(attributes(true, false), kind(ability)), Err(OsError));
    let float = Some(OHOSWindowKind::Float);
    assert!(slot.prepare_window(attributes(true, false), kind(float)).is_ok());
}

#[test]
fn floating_windows_leave_the_ability_free() {
    let mut slot = UiAbilitySlot::new();
    let float = PlatformSpecificWindowBuilderAttributes {
        label: Some("label".to_string()),
        window_kind: Some(OHOSWindowKind::Float),
    };
    let (plan, params) = slot.prepare_window(attributes(true, true), float.clone()).unwrap();
    assert_eq!(plan, WindowPlan { is_main_window: false, decorations: true, transparent: true });
    let params = params.unwrap();
    assert_eq!(params.name, "label");
    assert_eq!(params.background_color, Some(0));
    assert!(params.transparent);
    assert!(slot.prepare_window(attributes(true, false), float).is_ok());
    let (plan, _) = slot.prepare_window(attributes(true, false), kind(None)).unwrap();
    assert!(plan.is_main_window);
}

#[test]
fn attributes_start_empty() {
    let attributes = PlatformSpecificWindowBuilderAttributes::default();
    assert_eq!(attributes.label, None);
    assert_eq!(attributes.window_kind, None);
}

#[test]
fn opening_settles_number_and_decorations() {
    let plan = WindowPlan { is_main_window: true, decorations: false, transparent: false };
    let (window, command) = Window::new(&target(), plan, Some(9));
    assert_eq!(window.window_id(), Some(0));
    assert!(!window.is_decorated());
    assert_eq!(window.theme(), Theme::Light);
    assert_eq!(
        command,
        Some(WindowCommand::SetDecorations { window_id: 0, decorations: false })
    );
    let plan = WindowPlan { is_main_window: false, decorations: false, transparent: false };
    let (window, command) = Window::new(&target(), plan, Some(9));
    assert_eq!(window.window_id(), Some(9));
    assert_eq!(command, None);
    assert_eq!(open(false, false, None).window_id(), None);
    let plan = WindowPlan { is_main_window: true, decorations: true, transparent: false };
    assert_eq!(Window::new(&target(), plan, None).1, None);
}

#[test]
fn decorations_are_kept_and_passed_on() {
    let mut window = open(false, false, Some(4));
    assert_eq!(
        window.set_decorations(false),
        Some(WindowCommand::SetDecorations { window_id: 4, decorations: false })
    );
    assert!(!window.is_decorated());
    let mut window = open(false, false, None);
    assert_eq!(window.set_decorations(false), None);
    assert!(!window.is_decorated());
}

#[test]
fn background_color_is_white_by_default() {
    let window = open(false, false, Some(4));
    assert_eq!(
        window.set_background_color(None),
        Some(WindowCommand::SetBackgroundColor { window_id: 4, color: 0xFFFFFFFF })
    );
    assert_eq!(
        window.set_background_color(Some((1, 2, 3, 4))),
        Some(WindowCommand::SetBackgroundColor { window_id: 4, color: 0x04010203 })
    );
    assert_eq!(open(false, false, None).set_background_color(Some((1, 2, 3, 4))), None);
}

#[test]
fn transparent_windows_take_no_color() {
    let mut window = open(true, true, None);
    assert_eq!(window.set_background_color(Some((1, 2, 3, 4))), None);
    window.set_theme(Some(Theme::Dark));
    window.set_decorations(false);
    assert_eq!(window.set_background_color(None), None);
}

#[test]
fn themes_are_kept() {
    let mut window = open(true, false, None);
    assert_eq!(window.set_theme(Some(Theme::Dark)), ColorMode::Dark);
    assert_eq!(window.theme(), Theme::Dark);
    assert_eq!(window.set_theme(Some(Theme::Light)), ColorMode::Light);
    assert_eq!(window.theme(), Theme::Light);
    window.set_theme(Some(Theme::Dark));
    assert_eq!(window.set_theme(None), ColorMode::NoSet);
    assert_eq!(window.theme(), Theme::Light);
}

#[test]
fn places_and_sizes() {
    let window = open(true, false, None);
    let content = Rect { top: 10, left: 20, width: 300, height: 400 };
    let outer = Rect { top: -1, left: 5, width: 310, height: 420 };
    assert_eq!(
        window.inner_position(&content, &outer),
        Ok(PhysicalPosition { x: 25, y: 9 })
    );
    assert_eq!(window.inner_size(&content), PhysicalSize { width: 300, height: 400 });
    assert_eq!(window.outer_position(&outer), Ok(PhysicalPosition { x: 5, y: -1 }));
    assert_eq!(window.outer_size(&content, &outer), PhysicalSize { width: 310, height: 420 });
    for unset in [
        Rect { top: 0, left: 0, width: 0, height: 0 },
        Rect { top: 0, left: 0, width: 5, height: 0 },
        Rect { top: 0, left: 0, width: -5, height: 6 },
    ] {
        assert_eq!(window.outer_size(&content, &unset), PhysicalSize { width: 300, height: 400 });
    }
}

#[test]
fn identity_and_surroundings() {
    let window = open(true, false, None);
    assert_eq!(window.id(), WindowId);
    assert!(window.is_focused(&FocusState { focused: true }));
    assert!(!window.is_focused(&FocusState { focused: false }));
    assert_eq!(window.available_monitors().len(), 1);
    assert_eq!(window.available_monitors()[0], MonitorHandle::new('A'));
    assert_eq!(window.current_monitor(), Some(MonitorHandle::new('A')));
    assert_eq!(window.primary_monitor(), Some(MonitorHandle::new('A')));
    let zero = Binary64 { bits: 0 };
    assert_eq!(window.monitor_from_point(zero, zero), None);
    assert_eq!(
        window.cursor_position(3, 4),
        Ok(PhysicalPosition { x: Binary64 { bits: 3 }, y: Binary64 { bits: 4 } })
    );
    assert_eq!(window.title(), "");
    assert_eq!(window.fullscreen(), None);
}

#[test]
fn handles_come_from_the_native_window() {
    let window = open(true, false, None);
    let mut surface = 0u8;
    let pointer = std::ptr::NonNull::from(&mut surface).cast();
    let handle = RawWindowHandle::OhosNdk(OhosNdkWindowHandle::new(pointer));
    assert_eq!(window.raw_window_handle_rwh_06(Some(Some(handle))).unwrap(), handle);
    assert!(matches!(
        window.raw_window_handle_rwh_06(Some(None)),
        Err(HandleError::Unavailable)
    ));
    assert!(matches!(window.raw_window_handle_rwh_06(None), Err(HandleError::Unavailable)));
    assert!(matches!(window.raw_display_handle_rwh_06(), Ok(RawDisplayHandle::Ohos(_))));
}

#[test]
fn the_display_has_one_mode() {
    let monitor = MonitorHandle::new("app");
    let content = Rect { top: 0, left: 0, width: 1080, height: 2340 };
    assert_eq!(monitor.name().unwrap(), "OpenHarmony Device");
    assert_eq!(monitor.size(&content), PhysicalSize { width: 1080, height: 2340 });
    assert_eq!(monitor.position(), PhysicalPosition { x: 0, y: 0 });
    let modes = monitor.video_modes(&content);
    assert_eq!(modes.len(), 1);
    assert_eq!(modes[0].size(), PhysicalSize { width: 1080, height: 2340 });
    assert_eq!(modes[0].bit_depth(), 32);
    assert_eq!(modes[0].refresh_rate(), 60);
    assert_eq!(modes[0].monitor(), monitor);
    assert_eq!(modes[0].clone(), modes[0]);
}

#[test]
fn what_the_platform_does_not_offer() {
    let window = open(true, false, None);
    for answer in [
        window.is_minimized(),
        window.is_maximized(),
        window.is_always_on_top(),
        window.is_visible(),
        window.is_resizable(),
        window.is_minimizable(),
        window.is_maximizable(),
        window.is_closable(),
    ] {
        assert!(!answer);
    }
    let unsupported = Err(ExternalError::NotSupported(NotSupportedError));
    assert_eq!(window.set_cursor_grab(true), unsupported);
    assert_eq!(window.set_cursor_position((1, 2)), unsupported);
    assert_eq!(window.set_ignore_cursor_events(true), unsupported);
    assert_eq!(window.drag_window(), unsupported);
    assert_eq!(window.drag_resize_window(ResizeDirection::East), unsupported);
    window.set_visible(true);
    window.set_title("other");
    window.set_minimized(true);
    assert!(!window.is_visible());
    assert!(!window.is_minimized());
    assert_eq!(window.title(), "");
}
