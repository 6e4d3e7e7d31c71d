use tao_ohos::binary64::Binary64;
use tao_ohos::color::{rgba_to_ohos_color, theme_to_color_mode, ColorMode, Theme};
use tao_ohos::geometry::{PhysicalSize, Rect};
use tao_ohos::ids::{DeviceId, OsError, WindowId};
use tao_ohos::keyboard::{keycode_from_scancode, keycode_to_scancode, KeyCode, NativeKeyCode};

fn number(x: f64) -> Binary64 {
    Binary64 { bits: x.to_bits() }
}

#[test]
fn comparisons_agree_with_the_numbers() {
    let samples = [
        0.0,
        -0.0,
        1.0,
        -1.0,
        f64::MIN_POSITIVE,
        f64::MIN_POSITIVE / 2.0,
        5e-324,
        -5e-324,
        0.5,
        0.999_999_999_999_999_9,
        1.000_000_000_000_000_2,
        1.5,
        2.0,
        -2.0,
        1e300,
        f64::MAX,
        f64::MIN,
        f64::INFINITY,
        f64::NEG_INFINITY,
        f64::NAN,
        -f64::NAN,
        f32::MAX as f64,
        1.1f32 as f64,
    ];
    for x in samples {
        assert_eq!(number(x).is_zero(), x == 0.0, "{x}");
        assert_eq!(number(x).is_one(), x == 1.0, "{x}");
        assert_eq!(number(x).exceeds_one(), x > 1.0, "{x}");
    }
}

#[test]
fn named_patterns_are_the_numbers() {
    assert_eq!(tao_ohos::binary64::ZERO_BITS, 0.0f64.to_bits());
    assert_eq!(tao_ohos::binary64::MINUS_ZERO_BITS, (-0.0f64).to_bits());
    assert_eq!(tao_ohos::binary64::ONE_BITS, 1.0f64.to_bits());
    assert_eq!(tao_ohos::binary64::MINUS_ONE_BITS, (-1.0f64).to_bits());
    assert_eq!(tao_ohos::binary64::INFINITY_BITS, f64::INFINITY.to_bits());
}

#[test]
fn negative_extents_wrap_around() {
    let size = PhysicalSize::from_extents(-1, i32::MIN);
    assert_eq!(size, PhysicalSize { width: u32::MAX, height: 0x8000_0000 });
    let rect = Rect { top: 1, left: 2, width: 30, height: 40 };
    assert_eq!(rect.physical_size(), PhysicalSize { width: 30, height: 40 });
}

#[test]
fn device_numbers_keep_their_low_bits() {
    for n in [0, 7, -1, i32::MAX as i64, i32::MIN as i64, 0x1_0000_0005, -0x1_0000_0000, i64::MIN] {
        assert_eq!(DeviceId::from_native(n), DeviceId(n as i32));
    }
    assert_eq!(DeviceId::dummy(), DeviceId(0));
}

#[test]
fn window_id_is_always_the_same() {
    assert_eq!(u64::from(WindowId::dummy()), 0);
    assert_eq!(WindowId::from(17u64), WindowId);
    assert_eq!(u64::from(WindowId::from(17u64)), 0);
}

#[test]
fn os_error_has_its_message() {
    assert_eq!(OsError.to_string(), "OpenHarmony OS Error");
}

#[test]
fn scancodes_are_unknown() {
    assert_eq!(keycode_to_scancode(KeyCode::Enter), None);
    assert_eq!(
        keycode_from_scancode(28),
        KeyCode::Unidentified(NativeKeyCode::Unidentified)
    );
    assert_eq!(keycode_to_scancode(keycode_from_scancode(28)), None);
}

#[test]
fn colors_are_packed_with_opacity_first() {
    assert_eq!(rgba_to_ohos_color(false, Some((0x11, 0x22, 0x33, 0x44))), Some(0x44112233));
    assert_eq!(rgba_to_ohos_color(false, Some((255, 255, 255, 255))), Some(0xFFFFFFFF));
    assert_eq!(rgba_to_ohos_color(false, Some((0, 0, 1, 0))), Some(1));
    assert_eq!(rgba_to_ohos_color(false, None), None);
    assert_eq!(rgba_to_ohos_color(true, None), Some(0));
    assert_eq!(rgba_to_ohos_color(true, Some((1, 2, 3, 4))), Some(0));
}

#[test]
fn themes_become_color_modes() {
    assert_eq!(theme_to_color_mode(Some(Theme::Dark)), ColorMode::Dark);
    assert_eq!(theme_to_color_mode(Some(Theme::Light)), ColorMode::Light);
    assert_eq!(theme_to_color_mode(None), ColorMode::NoSet);
}
