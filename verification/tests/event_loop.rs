use std::sync::mpsc;
use tao_ohos::address::{urls_from_parsed, urls_from_text};
use tao_ohos::channel::PeekableReceiver;
use tao_ohos::dpi::{PhysicalPosition, PhysicalSize, Rect};
use tao_ohos::event::{
    ElementState, Event, Force, KeyEvent, MouseButton, MouseScrollDelta, StartCause, Touch,
    TouchPhase, WindowEvent,
};
use tao_ohos::event_loop::{EventLoop, EventLoopWindowTarget, MainEvent};
use tao_ohos::float::{Float32, Float64};
use tao_ohos::ids::{DeviceId, KeyEventExtra, WindowId};
use tao_ohos::input::{
    ohos_mouse_button_to_tao, AxisEventData, ImeEvent, InputEvent, InputSource, KeyAction,
    KeyEventData, KeyboardStatus, MouseAction, MouseEventData, NativeMouseButton, TouchAction,
    TouchEventData, TouchPoint,
};
use tao_ohos::keyboard::{Key, KeyCode, KeyLocation, ModifiersState, NativeKeyCode};
use tao_ohos::state::PlatformState;
use tao_ohos::theme::Theme;

fn narrow(x: f32) -> Float32 {
    Float32 { bits: x.to_bits() }
}

fn wide(x: f64) -> Float64 {
    Float64 { bits: x.to_bits() }
}

fn idle_loop() -> EventLoop<u32> {
    let (_sender, receiver) = mpsc::channel();
    EventLoop::new(PeekableReceiver::from_recv(receiver))
}

fn running_loop() -> EventLoop<u32> {
    let mut event_loop = idle_loop();
    event_loop.run_return();
    event_loop
}

fn about(event: WindowEvent) -> Event<u32> {
    Event::WindowEvent { window_id: WindowId, event }
}

/// The calls for an event, from a fresh state, without those that say that the
/// main events are cleared.
fn events(event: MainEvent) -> Vec<Event<u32>> {
    let mut state = PlatformState::new();
    events_from(&mut state, event)
}

fn events_from(state: &mut PlatformState, event: MainEvent) -> Vec<Event<u32>> {
    let dispatch = running_loop().dispatch(state, event);
    assert_eq!(dispatch.calls.len() % 2, 0);
    let mut events = Vec::new();
    for (i, call) in dispatch.calls.into_iter().enumerate() {
        if i % 2 == 0 {
            events.push(call);
        } else {
            assert_eq!(call, Event::MainEventsCleared);
        }
    }
    events
}

fn mouse(x: f32, y: f32, action: MouseAction, button: NativeMouseButton) -> MainEvent {
    MainEvent::Input(InputEvent::Mouse(MouseEventData {
        x: narrow(x),
        y: narrow(y),
        action,
        button,
    }))
}

fn axis(source: InputSource, x: f32, y: f32, pinch: f32) -> MainEvent {
    MainEvent::Input(InputEvent::Axis(AxisEventData {
        source,
        delta_x: narrow(x),
        delta_y: narrow(y),
        pinch_scale: narrow(pinch),
    }))
}

fn key(action: KeyAction, key: i32) -> MainEvent {
    MainEvent::Input(InputEvent::Key(KeyEventData {
        action,
        key,
        native_code: 2000 + key as u32,
        device_id: 0x1_0000_0009,
        logical_key: Key::Other("a".to_string()),
        location: KeyLocation::Standard,
    }))
}

fn is_repeated(events: &[Event<u32>]) -> bool {
    assert_eq!(events.len(), 1);
    match &events[0] {
        Event::WindowEvent { event: WindowEvent::KeyboardInput { event, .. }, .. } => event.repeat,
        other => panic!("not a key event: {:?}", other),
    }
}

fn typed(logical_key: fn() -> Key, physical_key: KeyCode) -> Vec<Event<u32>> {
    [ElementState::Pressed, ElementState::Released]
        .into_iter()
        .map(|state| {
            about(WindowEvent::KeyboardInput {
                device_id: DeviceId(0),
                event: KeyEvent {
                    physical_key,
                    logical_key: logical_key(),
                    text: None,
                    location: KeyLocation::Standard,
                    state,
                    repeat: false,
                    platform_specific: KeyEventExtra {},
                },
                is_synthetic: false,
            })
        })
        .collect()
}

#[test]
fn surfaces_resume_and_suspend() {
    assert_eq!(
        events(MainEvent::SurfaceCreate),
        vec![Event::NewEvents(StartCause::Init), Event::Resumed]
    );
    assert_eq!(events(MainEvent::SurfaceDestroy), vec![Event::Suspended]);
    assert_eq!(events(MainEvent::Start), vec![Event::Resumed]);
    assert_eq!(events(MainEvent::Resume), vec![Event::Resumed]);
}

#[test]
fn each_event_is_followed_by_cleared() {
    let mut state = PlatformState::new();
    let dispatch = running_loop().dispatch(&mut state, MainEvent::SurfaceCreate);
    assert_eq!(
        dispatch.calls,
        vec![
            Event::NewEvents(StartCause::Init),
            Event::MainEventsCleared,
            Event::Resumed,
            Event::MainEventsCleared,
        ]
    );
    assert!(!dispatch.drain);
}

#[test]
fn dropped_events() {
    assert!(events(MainEvent::SaveState).is_empty());
    assert!(events(MainEvent::Pause).is_empty());
    assert!(events(MainEvent::Other).is_empty());
    assert!(events(MainEvent::Input(InputEvent::Unknown)).is_empty());
}

#[test]
fn resizing() {
    assert_eq!(
        events(MainEvent::WindowResize { width: 640, height: 480 }),
        vec![about(WindowEvent::Resized(PhysicalSize { width: 640, height: 480 }))]
    );
    assert_eq!(
        events(MainEvent::WindowResize { width: -1, height: 0 }),
        vec![about(WindowEvent::Resized(PhysicalSize { width: u32::MAX, height: 0 }))]
    );
    assert_eq!(
        events(MainEvent::ContentRectChange(Rect { top: 9, left: 8, width: 70, height: 60 })),
        vec![about(WindowEvent::Resized(PhysicalSize { width: 70, height: 60 }))]
    );
    assert_eq!(events(MainEvent::WindowRedraw), vec![Event::RedrawRequested(WindowId)]);
}

#[test]
fn configuration_changes_the_scale() {
    assert_eq!(
        events(MainEvent::ConfigChanged {
            content_rect: Rect { top: 0, left: 0, width: 300, height: 200 },
            scale: narrow(1.75),
        }),
        vec![about(WindowEvent::ScaleFactorChanged {
            scale_factor: wide(1.75),
            new_inner_size: PhysicalSize { width: 300, height: 200 },
        })]
    );
}

#[test]
fn closing() {
    assert_eq!(
        events(MainEvent::WindowDestroy),
        vec![about(WindowEvent::CloseRequested), about(WindowEvent::Destroyed)]
    );
    assert_eq!(events(MainEvent::Destroy), vec![Event::LoopDestroyed]);
}

#[test]
fn focus_is_as_last_changed() {
    let mut state = PlatformState::new();
    assert!(state.has_focus);
    assert_eq!(
        events_from(&mut state, MainEvent::LostFocus),
        vec![about(WindowEvent::Focused(false))]
    );
    assert!(!state.has_focus);
    events_from(&mut state, MainEvent::Start);
    assert!(!state.has_focus);
    assert_eq!(
        events_from(&mut state, MainEvent::GainedFocus),
        vec![about(WindowEvent::Focused(true))]
    );
    assert!(state.has_focus);
}

#[test]
fn state_is_kept_without_a_handler() {
    let mut state = PlatformState::new();
    let event_loop = idle_loop();
    assert!(event_loop.dispatch(&mut state, MainEvent::LostFocus).calls.is_empty());
    assert!(!state.has_focus);
    let moved = mouse(3.0, 4.0, MouseAction::Move, NativeMouseButton::NoButton);
    assert!(event_loop.dispatch(&mut state, moved).calls.is_empty());
    assert_eq!(state.cursor, PhysicalPosition { x: wide(3.0), y: wide(4.0) });
    assert!(event_loop.dispatch(&mut state, key(KeyAction::Down, 5)).calls.is_empty());
    assert!(is_repeated(&events_from(&mut state, key(KeyAction::Down, 5))));
    assert!(event_loop
        .dispatch(&mut state, MainEvent::NewWant { uri: String::new() })
        .calls
        .is_empty());
}

#[test]
fn cursor_is_at_the_last_move() {
    let mut state = PlatformState::new();
    let target = EventLoopWindowTarget { exit: false };
    assert_eq!(
        target.cursor_position(&state),
        Ok(PhysicalPosition { x: wide(0.0), y: wide(0.0) })
    );
    assert_eq!(
        events_from(
            &mut state,
            mouse(1.5, -2.25, MouseAction::Move, NativeMouseButton::NoButton)
        ),
        vec![about(WindowEvent::CursorMoved {
            device_id: DeviceId(0),
            position: PhysicalPosition { x: wide(1.5), y: wide(-2.25) },
            modifiers: ModifiersState::empty(),
        })]
    );
    events_from(
        &mut state,
        mouse(8.0, 8.0, MouseAction::Press, NativeMouseButton::LeftButton),
    );
    assert_eq!(
        target.cursor_position(&state),
        Ok(PhysicalPosition { x: wide(1.5), y: wide(-2.25) })
    );
}

#[test]
fn buttons() {
    let pressed = |state, button| {
        vec![about(WindowEvent::MouseInput {
            device_id: DeviceId(0),
            state,
            button,
            modifiers: ModifiersState::empty(),
        })]
    };
    assert_eq!(
        events(mouse(0.0, 0.0, MouseAction::Press, NativeMouseButton::LeftButton)),
        pressed(ElementState::Pressed, MouseButton::Left)
    );
    assert_eq!(
        events(mouse(0.0, 0.0, MouseAction::Release, NativeMouseButton::BackButton)),
        pressed(ElementState::Released, MouseButton::Other(4))
    );
    assert!(events(mouse(0.0, 0.0, MouseAction::Press, NativeMouseButton::NoButton)).is_empty());
    assert!(events(mouse(0.0, 0.0, MouseAction::Release, NativeMouseButton::Unknown)).is_empty());
    assert!(events(mouse(0.0, 0.0, MouseAction::NoAction, NativeMouseButton::LeftButton)).is_empty());
    assert_eq!(
        ohos_mouse_button_to_tao(NativeMouseButton::RightButton),
        Some(MouseButton::Right)
    );
    assert_eq!(
        ohos_mouse_button_to_tao(NativeMouseButton::MiddleButton),
        Some(MouseButton::Middle)
    );
    assert_eq!(
        ohos_mouse_button_to_tao(NativeMouseButton::ForwardButton),
        Some(MouseButton::Other(5))
    );
    assert_eq!(ohos_mouse_button_to_tao(NativeMouseButton::NoButton), None);
}

#[test]
fn hovering() {
    assert_eq!(
        events(mouse(0.0, 0.0, MouseAction::HoverEnter, NativeMouseButton::NoButton)),
        vec![about(WindowEvent::CursorEntered { device_id: DeviceId(0) })]
    );
    assert_eq!(
        events(mouse(0.0, 0.0, MouseAction::HoverLeave, NativeMouseButton::NoButton)),
        vec![about(WindowEvent::CursorLeft { device_id: DeviceId(0) })]
    );
}

#[test]
fn one_event_for_each_finger() {
    let touch = |action| {
        MainEvent::Input(InputEvent::Touch(TouchEventData {
            action,
            device_id: -7,
            points: vec![
                TouchPoint { id: 3, x: narrow(1.0), y: narrow(2.0), force: narrow(0.5) },
                TouchPoint { id: -1, x: narrow(5.0), y: narrow(6.0), force: narrow(0.25) },
            ],
        }))
    };
    let expected = |phase| {
        vec![
            about(WindowEvent::Touch(Touch {
                device_id: DeviceId(-7),
                phase,
                location: PhysicalPosition { x: wide(1.0), y: wide(2.0) },
                force: Some(Force::Normalized(wide(0.5))),
                id: 3,
            })),
            about(WindowEvent::Touch(Touch {
                device_id: DeviceId(-7),
                phase,
                location: PhysicalPosition { x: wide(5.0), y: wide(6.0) },
                force: Some(Force::Normalized(wide(0.25))),
                id: u64::MAX,
            })),
        ]
    };
    assert_eq!(events(touch(TouchAction::Down)), expected(TouchPhase::Started));
    assert_eq!(events(touch(TouchAction::Up)), expected(TouchPhase::Ended));
    assert_eq!(events(touch(TouchAction::Move)), expected(TouchPhase::Moved));
    assert_eq!(events(touch(TouchAction::Cancel)), expected(TouchPhase::Cancelled));
    assert!(events(touch(TouchAction::Unknown)).is_empty());
}

fn wheel(delta: MouseScrollDelta, modifiers: ModifiersState) -> Event<u32> {
    about(WindowEvent::MouseWheel {
        device_id: DeviceId(0),
        delta,
        phase: TouchPhase::Moved,
        modifiers,
    })
}

#[test]
fn scrolling_by_lines_and_pixels() {
    assert_eq!(
        events(axis(InputSource::Mouse, 0.0, -3.0, 0.0)),
        vec![wheel(
            MouseScrollDelta::LineDelta(narrow(0.0), narrow(-3.0)),
            ModifiersState::empty()
        )]
    );
    assert_eq!(
        events(axis(InputSource::Touchpad, 2.5, 0.0, 1.0)),
        vec![wheel(
            MouseScrollDelta::PixelDelta(PhysicalPosition { x: wide(2.5), y: wide(0.0) }),
            ModifiersState::empty()
        )]
    );
    assert_eq!(events(axis(InputSource::Other, f32::NAN, 0.0, 0.0)).len(), 1);
    assert!(events(axis(InputSource::Mouse, 0.0, -0.0, 0.0)).is_empty());
    assert!(events(axis(InputSource::Touchpad, 0.0, 0.0, 1.0)).is_empty());
}

#[test]
fn pinching_turns_the_wheel_with_control() {
    let zoom = |step| {
        vec![wheel(
            MouseScrollDelta::LineDelta(narrow(0.0), narrow(step)),
            ModifiersState::control(),
        )]
    };
    assert_eq!(events(axis(InputSource::Touchpad, 0.0, 0.0, 1.25)), zoom(1.0));
    assert_eq!(events(axis(InputSource::Touchpad, 0.0, 0.0, 0.75)), zoom(-1.0));
    assert_eq!(events(axis(InputSource::Touchpad, 0.0, 0.0, -1.0)), zoom(-1.0));
    assert_eq!(events(axis(InputSource::Touchpad, 0.0, 0.0, f32::INFINITY)), zoom(1.0));
    assert_eq!(events(axis(InputSource::Touchpad, 0.0, 0.0, f32::NAN)), zoom(-1.0));
}

#[test]
fn scroll_comes_before_pinch() {
    let both = events(axis(InputSource::Mouse, 1.0, 0.0, 2.0));
    assert_eq!(
        both,
        vec![
            wheel(
                MouseScrollDelta::LineDelta(narrow(1.0), narrow(0.0)),
                ModifiersState::empty()
            ),
            wheel(
                MouseScrollDelta::LineDelta(narrow(0.0), narrow(1.0)),
                ModifiersState::control()
            ),
        ]
    );
}

#[test]
fn key_event_carries_the_native_code() {
    assert_eq!(
        events(key(KeyAction::Down, 17)),
        vec![about(WindowEvent::KeyboardInput {
            device_id: DeviceId(9),
            event: KeyEvent {
                physical_key: KeyCode::Unidentified(NativeKeyCode::Ohos(2017)),
                logical_key: Key::Other("a".to_string()),
                text: None,
                location: KeyLocation::Standard,
                state: ElementState::Pressed,
                repeat: false,
                platform_specific: KeyEventExtra {},
            },
            is_synthetic: false,
        })]
    );
}

#[test]
fn repeat_means_held() {
    let mut state = PlatformState::new();
    assert!(!is_repeated(&events_from(&mut state, key(KeyAction::Down, 1))));
    assert!(is_repeated(&events_from(&mut state, key(KeyAction::Down, 1))));
    assert!(!is_repeated(&events_from(&mut state, key(KeyAction::Down, 2))));
    assert!(!is_repeated(&events_from(&mut state, key(KeyAction::Unknown, 1))));
    assert!(is_repeated(&events_from(&mut state, key(KeyAction::Down, 1))));
    assert!(!is_repeated(&events_from(&mut state, key(KeyAction::Up, 1))));
    assert!(!is_repeated(&events_from(&mut state, key(KeyAction::Down, 1))));
    assert!(is_repeated(&events_from(&mut state, key(KeyAction::Down, 2))));
}

#[test]
fn unknown_key_action_is_a_release() {
    match &events(key(KeyAction::Unknown, 4))[0] {
        Event::WindowEvent { event: WindowEvent::KeyboardInput { event, .. }, .. } => {
            assert_eq!(event.state, ElementState::Released)
        }
        other => panic!("not a key event: {:?}", other),
    }
}

#[test]
fn input_method() {
    assert_eq!(
        events(MainEvent::Input(InputEvent::Ime(ImeEvent::TextInput("abc".to_string())))),
        vec![about(WindowEvent::ReceivedImeText("abc".to_string()))]
    );
    assert_eq!(
        events(MainEvent::Input(InputEvent::Ime(ImeEvent::Backspace(1)))),
        typed(|| Key::Backspace, KeyCode::Backspace)
    );
    assert_eq!(
        events(MainEvent::Input(InputEvent::Ime(ImeEvent::Enter(0)))),
        typed(|| Key::Enter, KeyCode::Enter)
    );
    assert_eq!(
        events(MainEvent::Input(InputEvent::Ime(ImeEvent::Status(KeyboardStatus::Hide)))),
        typed(|| Key::Enter, KeyCode::Enter)
    );
    assert!(
        events(MainEvent::Input(InputEvent::Ime(ImeEvent::Status(KeyboardStatus::Show)))).is_empty()
    );
    assert!(events(MainEvent::Input(InputEvent::Ime(ImeEvent::Status(
        KeyboardStatus::NoStatus
    ))))
    .is_empty());
}

#[test]
fn new_want_always_opens() {
    let opened = |uri: &str| events(MainEvent::NewWant { uri: uri.to_string() });
    assert_eq!(opened(""), vec![Event::Opened { urls: vec![] }]);
    assert_eq!(opened("no address"), vec![Event::Opened { urls: vec![] }]);
    assert_eq!(
        opened("HTTPS://Example.com/a/../b"),
        vec![Event::Opened { urls: vec!["https://example.com/b".to_string()] }]
    );
}

#[test]
fn addresses_of_a_text() {
    assert_eq!(urls_from_text("myapp://open?x=1"), vec!["myapp://open?x=1".to_string()]);
    assert!(urls_from_text("::").is_empty());
    assert_eq!(urls_from_parsed("x", Some("y".to_string())), vec!["y".to_string()]);
    assert!(urls_from_parsed("", Some("y".to_string())).is_empty());
    assert!(urls_from_parsed("x", None).is_empty());
}

#[test]
fn user_events_are_drained() {
    let mut state = PlatformState::new();
    let dispatch = running_loop().dispatch(&mut state, MainEvent::UserEvent);
    assert!(dispatch.calls.is_empty());
    assert!(dispatch.drain);
    assert!(!idle_loop().dispatch(&mut state, MainEvent::UserEvent).drain);
}

#[test]
fn leaving_the_loop() {
    let mut event_loop = running_loop();
    let after = event_loop.after_dispatch();
    assert!(after.calls.is_empty());
    assert_eq!(after.terminate, None);
    event_loop.window_target.exit = true;
    let after = event_loop.after_dispatch();
    assert_eq!(after.calls, vec![Event::LoopDestroyed, Event::MainEventsCleared]);
    assert_eq!(after.terminate, Some(0));
    event_loop.handler_installed = false;
    let after = event_loop.after_dispatch();
    assert!(after.calls.is_empty());
    assert_eq!(after.terminate, None);
}

#[test]
fn theme_of_the_application() {
    let target = *running_loop().window_target();
    assert_eq!(target.set_theme(Some(Theme::Dark)), 0);
    assert_eq!(target.set_theme(Some(Theme::Light)), 1);
    assert_eq!(target.set_theme(None), 2);
}

#[test]
fn events_leave_the_container() {
    for created in [false, true] {
        let mut state = PlatformState::new();
        state.ui_ability_created = created;
        events_from(&mut state, MainEvent::SurfaceCreate);
        events_from(&mut state, MainEvent::WindowDestroy);
        events_from(&mut state, MainEvent::Destroy);
        events_from(&mut state, key(KeyAction::Down, 3));
        assert_eq!(state.ui_ability_created, created);
    }
}
