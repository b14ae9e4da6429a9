use tao_ohos::device::{form_factor, FormFactor};
use tao_ohos::dpi::{
    to_low32, to_saturated32, to_unsigned32, to_unsigned64, PhysicalSize, Rect, Size,
};
use tao_ohos::error::OsError;
use tao_ohos::ids::{DeviceId, KeyEventExtra, WindowId};
use tao_ohos::keyboard::{
    keycode_from_scancode, keycode_to_scancode, KeyCode, ModifiersState, NativeKeyCode,
};
use tao_ohos::theme::{color_mode, rgba_to_ohos_color, ColorMode, Theme};

#[test]
fn casts_match_the_processor() {
    for x in [0i32, 1, -1, i32::MAX, i32::MIN, 640] {
        assert_eq!(to_unsigned32(x), x as u32);
        assert_eq!(to_unsigned64(x), x as u64);
    }
    for x in [
        0i64,
        1,
        -1,
        i64::MAX,
        i64::MIN,
        0x7fff_ffff,
        0x8000_0000,
        0x1_0000_0005,
        -0x8000_0001,
    ] {
        assert_eq!(to_low32(x), x as i32);
    }
}

#[test]
fn large_sizes_saturate() {
    for x in [0u32, 1, 640, 0x7fff_ffff, 0x8000_0000, u32::MAX] {
        assert_eq!(to_saturated32(x), f64::from(x) as i32);
    }
    let scaled = PhysicalSize { width: -3, height: 4 };
    assert_eq!(Size::Scaled(scaled).to_pixels(), scaled);
}

#[test]
fn size_of_a_rectangle() {
    let rect = Rect { top: 1, left: 2, width: 640, height: -1 };
    assert_eq!(rect.size(), PhysicalSize { width: 640, height: u32::MAX });
}

#[test]
fn every_window_has_the_same_number() {
    assert_eq!(u64::from(WindowId::dummy()), 0);
    assert_eq!(WindowId::from(17u64), WindowId::dummy());
    assert_eq!(WindowId::from(u64::from(WindowId)), WindowId);
}

#[test]
fn dummy_device() {
    assert_eq!(DeviceId::dummy(), DeviceId(0));
    assert_eq!(KeyEventExtra {}, KeyEventExtra {}.clone());
}

#[test]
fn no_scancodes() {
    assert_eq!(keycode_to_scancode(KeyCode::Enter), None);
    assert_eq!(
        keycode_from_scancode(28),
        KeyCode::Unidentified(NativeKeyCode::Unidentified)
    );
}

#[test]
fn modifiers() {
    assert!(!ModifiersState::empty().control);
    assert!(ModifiersState::control().control);
    assert!(!ModifiersState::control().shift);
}

#[test]
fn os_error_in_words() {
    assert_eq!(OsError::default().message(), "OpenHarmony OS Error");
}

#[test]
fn color_modes_on_the_bridge() {
    assert_eq!(color_mode(Some(Theme::Dark)), ColorMode::Dark);
    assert_eq!(color_mode(Some(Theme::Dark)).code(), 0);
    assert_eq!(color_mode(Some(Theme::Light)).code(), 1);
    assert_eq!(color_mode(None).code(), 2);
}

#[test]
fn colors_are_packed_from_opacity_down() {
    assert_eq!(rgba_to_ohos_color(false, Some((0x11, 0x22, 0x33, 0x44))), Some(0x4411_2233));
    assert_eq!(rgba_to_ohos_color(false, Some((255, 255, 255, 255))), Some(0xffff_ffff));
    assert_eq!(rgba_to_ohos_color(false, Some((0, 0, 0, 0))), Some(0));
    assert_eq!(rgba_to_ohos_color(false, None), None);
}

#[test]
fn transparency_beats_color() {
    assert_eq!(rgba_to_ohos_color(true, Some((0x11, 0x22, 0x33, 0x44))), Some(0));
    assert_eq!(rgba_to_ohos_color(true, None), Some(0));
}

#[test]
fn different_colors_pack_differently() {
    assert_ne!(
        rgba_to_ohos_color(false, Some((1, 0, 0, 0))),
        rgba_to_ohos_color(false, Some((0, 1, 0, 0)))
    );
}

#[test]
fn kind_of_device() {
    let ohos = || "ohos".to_string();
    assert_eq!(form_factor(ohos(), Some("desktop".to_string())), Some(FormFactor::Desktop));
    assert_eq!(form_factor(ohos(), Some("tablet".to_string())), Some(FormFactor::Mobile));
    assert_eq!(form_factor(ohos(), None), Some(FormFactor::Mobile));
    assert_eq!(form_factor("gnu".to_string(), Some("desktop".to_string())), None);
    assert_eq!(FormFactor::Desktop.flag(), "desktop");
    assert_eq!(FormFactor::Mobile.flag(), "mobile");
}
