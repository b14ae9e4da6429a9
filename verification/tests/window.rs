use tao_ohos::dpi::{PhysicalPosition, PhysicalSize, Rect, Size};
use tao_ohos::error::{ExternalError, HandleError, NotSupportedError};
use tao_ohos::event_loop::EventLoopWindowTarget;
use tao_ohos::float::{Float32, Float64};
use tao_ohos::ids::WindowId;
use tao_ohos::monitor::{AppSnapshot, MonitorHandle};
use tao_ohos::state::PlatformState;
use tao_ohos::theme::Theme;
use tao_ohos::window::{
    Fullscreen, OHOSWindowKind, OHOSWindowType, PlatformSpecificWindowBuilderAttributes, Window,
    WindowAttributes, WindowCommand, WindowCreateParams, WindowPlan,
};

fn wide(x: f64) -> Float64 {
    Float64 { bits: x.to_bits() }
}

fn attributes() -> WindowAttributes {
    WindowAttributes {
        title: "title".to_string(),
        inner_size: None,
        position: None,
        decorations: true,
        transparent: false,
        background_color: None,
    }
}

fn platform(kind: Option<OHOSWindowKind>) -> PlatformSpecificWindowBuilderAttributes {
    PlatformSpecificWindowBuilderAttributes { label: None, window_kind: kind }
}

fn window(id: i64) -> Window {
    Window {
        window_id: Some(id),
        client_ready: true,
        maximized: false,
        minimized: false,
        theme: Theme::Light,
        decorations: true,
        transparent: false,
    }
}

fn unreachable_window() -> Window {
    Window { client_ready: false, ..window(3) }
}

fn view_without_window() -> Window {
    Window { window_id: None, ..window(3) }
}

fn snapshot() -> AppSnapshot {
    AppSnapshot {
        content_rect: Rect { top: 40, left: 5, width: 790, height: 560 },
        window_rect: Rect { top: 20, left: 10, width: 800, height: 600 },
        scale: Float32 { bits: 2.5f32.to_bits() },
        display_width: 1920,
        display_height: 1080,
        refresh_rate: 65_536 + 60,
    }
}

#[test]
fn first_window_takes_the_container() {
    let mut state = PlatformState::new();
    let plan = Window::plan(&mut state, attributes(), platform(None)).unwrap();
    assert_eq!(plan, WindowPlan::Reuse { decorations: true, transparent: false });
    assert!(state.ui_ability_created);
    assert!(Window::plan(&mut state, attributes(), platform(None)).is_err());
    assert!(Window::plan(&mut state, attributes(), platform(Some(OHOSWindowKind::UIAbility)))
        .is_err());
    assert!(state.ui_ability_created);
    let plan =
        Window::plan(&mut state, attributes(), platform(Some(OHOSWindowKind::Float))).unwrap();
    assert!(matches!(plan, WindowPlan::Create { .. }));
}

#[test]
fn which_window_is_the_main_one() {
    assert!(Window::is_main(None));
    assert!(Window::is_main(Some(OHOSWindowKind::UIAbility)));
    assert!(!Window::is_main(Some(OHOSWindowKind::Float)));
}

#[test]
fn floating_window_leaves_the_container() {
    let mut state = PlatformState::new();
    let plan =
        Window::plan(&mut state, attributes(), platform(Some(OHOSWindowKind::Float))).unwrap();
    assert!(matches!(plan, WindowPlan::Create { .. }));
    assert!(!state.ui_ability_created);
    assert!(Window::plan(&mut state, attributes(), platform(Some(OHOSWindowKind::UIAbility)))
        .is_ok());
}

#[test]
fn floating_window_has_defaults() {
    let mut state = PlatformState::new();
    let plan =
        Window::plan(&mut state, attributes(), platform(Some(OHOSWindowKind::Float))).unwrap();
    assert_eq!(
        plan,
        WindowPlan::Create {
            params: WindowCreateParams {
                name: "title".to_string(),
                window_type: 8,
                width: 800,
                height: 600,
                x: 100,
                y: 100,
                decorations: true,
                transparent: false,
                background_color: None,
            }
        }
    );
}

#[test]
fn floating_window_is_as_asked() {
    let mut state = PlatformState::new();
    let plan = Window::plan(
        &mut state,
        WindowAttributes {
            title: "title".to_string(),
            inner_size: Some(Size::Physical(PhysicalSize { width: 320, height: 200 })),
            position: Some(PhysicalPosition { x: -5, y: 7 }),
            decorations: false,
            transparent: false,
            background_color: Some((1, 2, 3, 4)),
        },
        PlatformSpecificWindowBuilderAttributes {
            label: Some("label".to_string()),
            window_kind: Some(OHOSWindowKind::Float),
        },
    )
    .unwrap();
    assert_eq!(
        plan,
        WindowPlan::Create {
            params: WindowCreateParams {
                name: "label".to_string(),
                window_type: 8,
                width: 320,
                height: 200,
                x: -5,
                y: 7,
                decorations: false,
                transparent: false,
                background_color: Some(0x0401_0203),
            }
        }
    );
    let (made, commands) = Window::new(plan, Some(4), true).unwrap();
    assert_eq!(made, Window { decorations: false, ..window(4) });
    assert!(commands.is_empty());
}

#[test]
fn transparent_floating_window_has_a_clear_background() {
    let mut state = PlatformState::new();
    let plan = Window::plan(
        &mut state,
        WindowAttributes {
            transparent: true,
            background_color: Some((1, 2, 3, 4)),
            ..attributes()
        },
        platform(Some(OHOSWindowKind::Float)),
    )
    .unwrap();
    match plan {
        WindowPlan::Create { params } => assert_eq!(params.background_color, Some(0)),
        other => panic!("not floating: {:?}", other),
    }
}

#[test]
fn a_window_that_the_system_refuses() {
    let mut state = PlatformState::new();
    let plan =
        Window::plan(&mut state, attributes(), platform(Some(OHOSWindowKind::Float))).unwrap();
    assert!(Window::new(plan, None, true).is_err());
}

#[test]
fn main_window_loses_its_decorations() {
    let plan = || WindowPlan::Reuse { decorations: false, transparent: false };
    let (made, commands) = Window::new(plan(), None, true).unwrap();
    assert_eq!(made, Window { decorations: false, ..window(0) });
    assert_eq!(
        commands,
        vec![WindowCommand::SetDecorations { window_id: 0, decorations: false }]
    );
    let (made, commands) = Window::new(plan(), None, false).unwrap();
    assert!(!made.client_ready);
    assert!(commands.is_empty());
    let decorated = WindowPlan::Reuse { decorations: true, transparent: true };
    let (made, commands) = Window::new(decorated, Some(9), true).unwrap();
    assert_eq!(made, Window { transparent: true, ..window(0) });
    assert!(commands.is_empty());
}

#[test]
fn window_types() {
    assert_eq!(OHOSWindowType::TypeApp.code(), 0);
    assert_eq!(OHOSWindowType::TypeSystemAlert.code(), 1);
    assert_eq!(OHOSWindowType::TypeFloat.code(), 8);
    assert_eq!(OHOSWindowType::TypeDialog.code(), 16);
    assert_eq!(OHOSWindowType::TypeMain.code(), 32);
}

#[test]
fn default_attributes() {
    let attributes = PlatformSpecificWindowBuilderAttributes::default();
    assert_eq!(attributes.label, None);
    assert_eq!(attributes.window_kind, None);
}

#[test]
fn moving_and_resizing() {
    assert_eq!(
        window(2).set_inner_size(Size::Scaled(PhysicalSize { width: 10, height: -20 })),
        vec![WindowCommand::Resize { window_id: 2, width: 10, height: -20 }]
    );
    assert_eq!(
        window(2).set_inner_size(Size::Physical(PhysicalSize { width: 10, height: u32::MAX })),
        vec![WindowCommand::Resize { window_id: 2, width: 10, height: 2_147_483_647 }]
    );
    assert_eq!(
        window(0).set_outer_position(PhysicalPosition { x: -1, y: i32::MAX }),
        vec![WindowCommand::MoveTo { window_id: 0, x: -1, y: 2_147_483_647 }]
    );
    assert!(unreachable_window()
        .set_inner_size(Size::Physical(PhysicalSize { width: 10, height: 20 }))
        .is_empty());
    assert!(view_without_window()
        .set_outer_position(PhysicalPosition { x: 1, y: 2 })
        .is_empty());
}

#[test]
fn saved_size_is_restored() {
    let size = window(0).inner_size(snapshot());
    assert_eq!(size, PhysicalSize { width: 800, height: 600 });
    assert_eq!(
        window(0).set_inner_size(Size::Physical(size)),
        vec![WindowCommand::Resize { window_id: 0, width: 800, height: 600 }]
    );
}

#[test]
fn places_and_sizes() {
    let app = snapshot();
    assert_eq!(
        window(0).inner_position(app),
        Ok(PhysicalPosition { x: 15, y: 60 })
    );
    assert_eq!(
        window(0).outer_position(app),
        Ok(PhysicalPosition { x: 10, y: 20 })
    );
    assert_eq!(window(0).outer_size(app), PhysicalSize { width: 800, height: 600 });
    let unreported = AppSnapshot {
        window_rect: Rect { top: 0, left: 0, width: 0, height: 0 },
        ..app
    };
    assert_eq!(window(0).outer_size(unreported), PhysicalSize { width: 790, height: 560 });
    assert_eq!(window(0).inner_size(unreported), PhysicalSize { width: 0, height: 0 });
    assert_eq!(window(0).content_rect(app), app.content_rect);
    assert_eq!(window(0).scale_factor(app), wide(2.5));
}

#[test]
fn hiding_counts_as_minimizing() {
    let mut shown = window(6);
    assert_eq!(shown.set_visible(false), vec![WindowCommand::Minimize { window_id: 6 }]);
    assert!(shown.is_minimized());
    assert_eq!(
        shown.set_visible(true),
        vec![
            WindowCommand::Restore { window_id: 6 },
            WindowCommand::Show { window_id: 6 },
        ]
    );
    assert!(!shown.is_minimized());
    assert_eq!(shown.set_minimized(true), vec![WindowCommand::Minimize { window_id: 6 }]);
    assert!(shown.is_minimized());
    assert_eq!(shown.set_minimized(false), vec![WindowCommand::Restore { window_id: 6 }]);
    assert!(!shown.is_minimized());
}

#[test]
fn requests_without_a_bridge_are_remembered_only() {
    let mut hidden = unreachable_window();
    assert!(hidden.set_visible(false).is_empty());
    assert!(!hidden.is_minimized());
    assert!(hidden.set_minimized(true).is_empty());
    assert!(hidden.is_minimized());
    assert!(hidden.set_maximized(true).is_empty());
    assert!(hidden.is_maximized());
    assert!(hidden.set_decorations(false).is_empty());
    assert!(!hidden.is_decorated());
    assert!(hidden.set_focus().is_empty());
    assert!(hidden.set_background_color(None).is_empty());
}

#[test]
fn filling_the_display_maximizes() {
    let mut full = window(1);
    assert_eq!(full.set_maximized(true), vec![WindowCommand::Maximize { window_id: 1 }]);
    assert_eq!(full.set_maximized(false), vec![WindowCommand::Recover { window_id: 1 }]);
    assert!(!full.is_maximized());
    assert_eq!(
        full.set_fullscreen(Some(Fullscreen::Borderless(None))),
        vec![WindowCommand::SetFullscreen { window_id: 1, on: true }]
    );
    assert!(full.is_maximized());
    assert_eq!(full.fullscreen(), None);
    assert_eq!(
        full.set_fullscreen(None),
        vec![WindowCommand::SetFullscreen { window_id: 1, on: false }]
    );
    assert!(!full.is_maximized());
}

#[test]
fn focus_of_the_main_window_is_left_alone() {
    assert!(window(0).set_focus().is_empty());
    assert!(window(0).set_focusable(false).is_empty());
    assert_eq!(window(5).set_focus(), vec![WindowCommand::Focus { window_id: 5 }]);
    assert_eq!(
        window(5).set_focusable(false),
        vec![WindowCommand::SetFocusable { window_id: 5, focusable: false }]
    );
    let mut state = PlatformState::new();
    assert!(window(0).is_focused(&state));
    state.has_focus = false;
    assert!(!window(0).is_focused(&state));
}

#[test]
fn decorations_are_remembered() {
    let mut bare = window(0);
    assert_eq!(
        bare.set_decorations(false),
        vec![WindowCommand::SetDecorations { window_id: 0, decorations: false }]
    );
    assert!(!bare.is_decorated());
}

#[test]
fn background() {
    assert_eq!(
        window(2).set_background_color(Some((0x11, 0x22, 0x33, 0x44))),
        vec![WindowCommand::SetBackgroundColor { window_id: 2, color: 0x4411_2233 }]
    );
    assert_eq!(
        window(2).set_background_color(None),
        vec![WindowCommand::SetBackgroundColor { window_id: 2, color: 0xffff_ffff }]
    );
    let clear = Window { transparent: true, ..window(2) };
    assert!(clear.set_background_color(Some((1, 2, 3, 4))).is_empty());
    assert!(clear.set_background_color(None).is_empty());
}

#[test]
fn cursor_events_pass_through() {
    assert_eq!(
        window(0).set_ignore_cursor_events(true),
        Ok(vec![WindowCommand::SetTouchable { window_id: 0, touchable: false }])
    );
    assert_eq!(
        window(3).set_ignore_cursor_events(false),
        Ok(vec![WindowCommand::SetTouchable { window_id: 3, touchable: true }])
    );
    let error = Err(ExternalError::NotSupported(NotSupportedError));
    assert_eq!(unreachable_window().set_ignore_cursor_events(true), error);
    assert_eq!(view_without_window().set_ignore_cursor_events(true), error);
}

#[test]
fn theme_is_remembered() {
    let mut themed = window(0);
    assert_eq!(themed.theme(), Theme::Light);
    assert_eq!(themed.set_theme(Some(Theme::Dark)), 0);
    assert_eq!(themed.theme(), Theme::Dark);
    assert_eq!(themed.set_theme(None), 2);
    assert_eq!(themed.theme(), Theme::Light);
    assert_eq!(themed.set_theme(Some(Theme::Light)), 1);
    assert_eq!(themed.theme(), Theme::Light);
}

#[test]
fn what_the_platform_does_not_do() {
    let plain = window(4);
    assert!(plain.request_redraw().is_empty());
    assert!(plain.set_inner_size_constraints(()).is_empty());
    assert!(plain.set_min_inner_size(Some(1u32)).is_empty());
    assert!(plain.set_max_inner_size(None::<u32>).is_empty());
    assert!(plain.set_title("x").is_empty());
    assert!(plain.set_resizable(true).is_empty());
    assert!(plain.set_minimizable(true).is_empty());
    assert!(plain.set_maximizable(true).is_empty());
    assert!(plain.set_closable(true).is_empty());
    assert!(plain.set_always_on_bottom(true).is_empty());
    assert!(plain.set_always_on_top(true).is_empty());
    assert!(plain.set_ime_position((1, 2)).is_empty());
    assert!(plain.set_window_icon(Some(())).is_empty());
    assert!(plain.set_cursor_icon(()).is_empty());
    assert!(plain.request_user_attention(Some(())).is_empty());
    assert!(plain.set_cursor_visible(false).is_empty());
    assert!(!plain.is_always_on_top());
    assert!(!plain.is_visible());
    assert!(!plain.is_resizable());
    assert!(!plain.is_minimizable());
    assert!(!plain.is_maximizable());
    assert!(!plain.is_closable());
    assert_eq!(plain.title(), "");
    let error = Err(ExternalError::NotSupported(NotSupportedError));
    assert_eq!(plain.set_cursor_grab(true), error);
    assert_eq!(plain.set_cursor_position((1, 2)), error);
    assert_eq!(plain.drag_window(), error);
    assert_eq!(plain.drag_resize_window(()), error);
}

#[test]
fn handles() {
    let plain = window(0);
    assert_eq!(plain.raw_window_handle_rwh_06(Some(Some(9u32))), Ok(9));
    assert_eq!(
        plain.raw_window_handle_rwh_06(Some(None::<u32>)),
        Err(HandleError::Unavailable)
    );
    assert_eq!(
        plain.raw_window_handle_rwh_06(None::<Option<u32>>),
        Err(HandleError::Unavailable)
    );
    assert!(matches!(
        plain.raw_display_handle_rwh_06(),
        Ok(raw_window_handle::RawDisplayHandle::Ohos(_))
    ));
    assert!(matches!(
        EventLoopWindowTarget { exit: false }.raw_display_handle_rwh_06(),
        Ok(raw_window_handle::RawDisplayHandle::Ohos(_))
    ));
    assert_eq!(plain.id(), WindowId);
    assert_eq!(plain.window_id(), Some(0));
    assert_eq!(view_without_window().window_id(), None);
}

#[test]
fn displays() {
    let app = snapshot();
    let monitor = MonitorHandle::new(app);
    assert_eq!(monitor.name(), Some("OpenHarmony Device".to_string()));
    assert_eq!(monitor.size(), PhysicalSize { width: 1920, height: 1080 });
    assert_eq!(monitor.position(), PhysicalPosition { x: 0, y: 0 });
    assert_eq!(monitor.scale_factor(), wide(2.5));
    let target = EventLoopWindowTarget { exit: false };
    assert_eq!(window(0).available_monitors(app), [monitor]);
    assert_eq!(target.available_monitors(app), [monitor]);
    assert_eq!(window(0).current_monitor(app), Some(monitor));
    assert_eq!(window(0).primary_monitor(app), Some(monitor));
    assert_eq!(target.primary_monitor(app), Some(monitor));
    let unknown = AppSnapshot { display_width: 0, ..app };
    assert_eq!(
        MonitorHandle::new(unknown).size(),
        PhysicalSize { width: 790, height: 560 }
    );
}

#[test]
fn one_video_mode() {
    let monitor = MonitorHandle::new(snapshot());
    let modes = monitor.video_modes();
    assert_eq!(modes.len(), 1);
    assert_eq!(modes[0].size(), PhysicalSize { width: 1920, height: 1080 });
    assert_eq!(modes[0].bit_depth(), 32);
    assert_eq!(modes[0].refresh_rate(), 60);
    assert_eq!(modes[0].monitor(), monitor);
}

#[test]
fn display_at_a_point() {
    let app = snapshot();
    let target = EventLoopWindowTarget { exit: false };
    let here = Some(MonitorHandle::new(app));
    for (x, y, expected) in [
        (0.0, 0.0, here),
        (-0.0, 5.5, here),
        (1919.999, 1079.999, here),
        (1920.0, 0.0, None),
        (0.0, 1080.0, None),
        (-0.001, 0.0, None),
        (f64::NAN, 0.0, None),
        (0.0, f64::INFINITY, None),
    ] {
        assert_eq!(window(0).monitor_from_point(app, wide(x), wide(y)), expected);
        assert_eq!(target.monitor_from_point(app, wide(x), wide(y)), expected);
    }
    let unknown = AppSnapshot { display_height: 0, ..app };
    assert_eq!(window(0).monitor_from_point(unknown, wide(0.0), wide(0.0)), None);
}

#[test]
fn cursor_of_a_window() {
    let mut state = PlatformState::new();
    state.cursor = PhysicalPosition { x: wide(4.0), y: wide(5.0) };
    assert_eq!(window(0).cursor_position(&state), Ok(state.cursor));
}

#[test]
fn requests_keep_what_is_fixed() {
    let mut changed = Window { transparent: true, ..window(7) };
    changed.set_visible(false);
    changed.set_minimized(true);
    changed.set_maximized(true);
    changed.set_fullscreen(Some(Fullscreen::Borderless(None)));
    changed.set_decorations(false);
    changed.set_theme(Some(Theme::Dark));
    assert_eq!(changed.window_id(), Some(7));
    assert!(changed.transparent);
    assert!(changed.client_ready);
    assert!(changed.set_background_color(Some((1, 2, 3, 4))).is_empty());
}
