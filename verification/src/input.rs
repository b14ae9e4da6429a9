//! Input as the system reports it, and the events that it becomes.

use crate::dpi::{low32, unsigned64, PhysicalPosition};
use crate::event::{
    window_event, ElementState, Event, Force, KeyEvent, MouseButton, MouseScrollDelta, Touch,
    TouchPhase, WindowEvent,
};
use crate::float::{Float32, Float64};
use crate::ids::{DeviceId, KeyEventExtra};
use crate::keyboard::{Key, KeyCode, KeyLocation, ModifiersState, NativeKeyCode};
use crate::state::{is_repeat, keys_after, PlatformView};
use vstd::prelude::*;

verus! {

/// What a touch does.
#[derive(Clone, Copy, Debug, PartialEq, Eq)]
pub enum TouchAction {
    Down,
    Up,
    Move,
    Cancel,
    Unknown,
}

/// One finger of a touch.
#[derive(Clone, Copy, Debug, PartialEq, Eq)]
pub struct TouchPoint {
    pub id: i32,
    pub x: Float32,
    pub y: Float32,
    pub force: Float32,
}

/// A touch with all its fingers.
#[derive(Debug, PartialEq, Eq)]
pub struct TouchEventData {
    pub action: TouchAction,
    pub device_id: i64,
    pub points: Vec<TouchPoint>,
}

/// What a mouse does.
#[derive(Clone, Copy, Debug, PartialEq, Eq)]
pub enum MouseAction {
    NoAction,
    Press,
    Release,
    Move,
    HoverEnter,
    HoverLeave,
}

/// The button that the system reports.
#[derive(Clone, Copy, Debug, PartialEq, Eq)]
pub enum NativeMouseButton {
    NoButton,
    LeftButton,
    RightButton,
    MiddleButton,
    BackButton,
    ForwardButton,
    /// A button that the system does not name.
    Unknown,
}

/// An action of the mouse.
#[derive(Clone, Copy, Debug, PartialEq, Eq)]
pub struct MouseEventData {
    pub x: Float32,
    pub y: Float32,
    pub action: MouseAction,
    pub button: NativeMouseButton,
}

/// What turned or scrolled.
#[derive(Clone, Copy, Debug, PartialEq, Eq)]
pub enum InputSource {
    Mouse,
    Touchpad,
    Other,
}

/// A wheel turn, a scroll or a pinch. A pinch scale of zero means that there is
/// no pinch, and one that nothing changed.
#[derive(Clone, Copy, Debug, PartialEq, Eq)]
pub struct AxisEventData {
    pub source: InputSource,
    pub delta_x: Float32,
    pub delta_y: Float32,
    pub pinch_scale: Float32,
}

/// What a key does.
#[derive(Clone, Copy, Debug, PartialEq, Eq)]
pub enum KeyAction {
    Down,
    Up,
    Unknown,
}

/// An action of a key. What the key means, and where it is, comes from the key
/// table of the platform.
#[derive(Debug, PartialEq, Eq)]
pub struct KeyEventData {
    pub action: KeyAction,
    /// The number by which the key is told from others.
    pub key: i32,
    /// The code that the system has for the key.
    pub native_code: u32,
    pub device_id: i64,
    pub logical_key: Key,
    pub location: KeyLocation,
}

/// Whether the screen keyboard is shown.
#[derive(Clone, Copy, Debug, PartialEq, Eq)]
pub enum KeyboardStatus {
    NoStatus,
    Hide,
    Show,
}

/// An action of the input method.
#[derive(Debug, PartialEq, Eq)]
pub enum ImeEvent {
    TextInput(String),
    Backspace(i32),
    Enter(i32),
    Status(KeyboardStatus),
}

/// Input as the system reports it.
#[derive(Debug, PartialEq, Eq)]
pub enum InputEvent {
    Touch(TouchEventData),
    Mouse(MouseEventData),
    Axis(AxisEventData),
    Key(KeyEventData),
    Ime(ImeEvent),
    /// Input of a kind that is not handled.
    Unknown,
}

/// The phase that a touch action begins or continues; none for an unknown one.
pub open spec fn touch_phase(action: TouchAction) -> Option<TouchPhase> {
    match action {
        TouchAction::Down => Some(TouchPhase::Started),
        TouchAction::Up => Some(TouchPhase::Ended),
        TouchAction::Move => Some(TouchPhase::Moved),
        TouchAction::Cancel => Some(TouchPhase::Cancelled),
        TouchAction::Unknown => None,
    }
}

/// The event for one finger.
pub open spec fn touch_event<T>(device_id: i64, phase: TouchPhase, point: TouchPoint) -> Event<T> {
    window_event(
        WindowEvent::Touch(
            Touch {
                device_id: DeviceId(low32(device_id)),
                phase,
                location: PhysicalPosition { x: point.x.widened(), y: point.y.widened() },
                force: Some(Force::Normalized(point.force.widened())),
                id: unsigned64(point.id),
            },
        ),
    )
}

/// The events for a touch: one for each finger, in order, if the action is known.
pub open spec fn touch_events<T>(data: TouchEventData) -> Seq<Event<T>> {
    match touch_phase(data.action) {
        Some(phase) => Seq::new(
            data.points@.len(),
            |i: int| touch_event(data.device_id, phase, data.points@[i]),
        ),
        None => Seq::empty(),
    }
}

/// The portable button; none where the system reports no button or one that it
/// does not name.
pub open spec fn portable_button(button: NativeMouseButton) -> Option<MouseButton> {
    match button {
        NativeMouseButton::LeftButton => Some(MouseButton::Left),
        NativeMouseButton::RightButton => Some(MouseButton::Right),
        NativeMouseButton::MiddleButton => Some(MouseButton::Middle),
        NativeMouseButton::BackButton => Some(MouseButton::Other(4)),
        NativeMouseButton::ForwardButton => Some(MouseButton::Other(5)),
        NativeMouseButton::NoButton => None,
        NativeMouseButton::Unknown => None,
    }
}

/// Where the mouse is.
pub open spec fn mouse_position(data: MouseEventData) -> PhysicalPosition<Float64> {
    PhysicalPosition { x: data.x.widened(), y: data.y.widened() }
}

/// The events for a button: one if the button is a portable one.
pub open spec fn button_events<T>(state: ElementState, button: NativeMouseButton) -> Seq<Event<T>> {
    match portable_button(button) {
        Some(button) => seq![
            window_event(
                WindowEvent::MouseInput {
                    device_id: DeviceId(0),
                    state,
                    button,
                    modifiers: ModifiersState::none(),
                },
            ),
        ],
        None => Seq::empty(),
    }
}

/// The events for an action of the mouse.
pub open spec fn mouse_events<T>(data: MouseEventData) -> Seq<Event<T>> {
    match data.action {
        MouseAction::Move => seq![
            window_event(
                WindowEvent::CursorMoved {
                    device_id: DeviceId(0),
                    position: mouse_position(data),
                    modifiers: ModifiersState::none(),
                },
            ),
        ],
        MouseAction::Press => button_events(ElementState::Pressed, data.button),
        MouseAction::Release => button_events(ElementState::Released, data.button),
        MouseAction::HoverEnter => seq![
            window_event(WindowEvent::CursorEntered { device_id: DeviceId(0) }),
        ],
        MouseAction::HoverLeave => seq![
            window_event(WindowEvent::CursorLeft { device_id: DeviceId(0) }),
        ],
        MouseAction::NoAction => Seq::empty(),
    }
}

/// The shared state after an action of the mouse: a move is where the cursor was
/// last seen.
pub open spec fn state_after_mouse(state: PlatformView, data: MouseEventData) -> PlatformView {
    match data.action {
        MouseAction::Move => PlatformView { cursor: mouse_position(data), ..state },
        _ => state,
    }
}

/// The event for a wheel.
pub open spec fn wheel_event<T>(delta: MouseScrollDelta, modifiers: ModifiersState) -> Event<T> {
    window_event(
        WindowEvent::MouseWheel {
            device_id: DeviceId(0),
            delta,
            phase: TouchPhase::Moved,
            modifiers,
        },
    )
}

/// The event for a scroll, if there is one: by pixels for a touchpad, by lines
/// for anything else.
pub open spec fn scroll_events<T>(data: AxisEventData) -> Seq<Event<T>> {
    if data.delta_x.equals_zero() && data.delta_y.equals_zero() {
        Seq::empty()
    } else {
        let delta = if data.source is Touchpad {
            MouseScrollDelta::PixelDelta(
                PhysicalPosition { x: data.delta_x.widened(), y: data.delta_y.widened() },
            )
        } else {
            MouseScrollDelta::LineDelta(data.delta_x, data.delta_y)
        };
        seq![wheel_event(delta, ModifiersState::none())]
    }
}

/// Zero.
pub open spec fn zero() -> Float32 {
    Float32 { bits: 0 }
}

/// One line up for zooming in, one line down for zooming out.
pub open spec fn zoom_step(pinch_scale: Float32) -> Float32 {
    if pinch_scale.above_one() {
        Float32 { bits: 0x3f80_0000 }
    } else {
        Float32 { bits: 0xbf80_0000 }
    }
}

/// The event for a pinch, if there is one: a wheel turn with the control key.
pub open spec fn pinch_events<T>(data: AxisEventData) -> Seq<Event<T>> {
    if data.pinch_scale.equals_zero() || data.pinch_scale.equals_one() {
        Seq::empty()
    } else {
        seq![
            wheel_event(
                MouseScrollDelta::LineDelta(zero(), zoom_step(data.pinch_scale)),
                ModifiersState::control_only(),
            ),
        ]
    }
}

/// The events for an axis: the scroll, then the pinch.
pub open spec fn axis_events<T>(data: AxisEventData) -> Seq<Event<T>> {
    scroll_events(data) + pinch_events(data)
}

/// The event for a key.
pub open spec fn key_event<T>(pressed: Set<i32>, data: KeyEventData) -> Event<T> {
    window_event(
        WindowEvent::KeyboardInput {
            device_id: DeviceId(low32(data.device_id)),
            event: KeyEvent {
                physical_key: KeyCode::Unidentified(NativeKeyCode::Ohos(data.native_code)),
                logical_key: data.logical_key,
                text: None,
                location: data.location,
                state: if data.action is Down {
                    ElementState::Pressed
                } else {
                    ElementState::Released
                },
                repeat: is_repeat(pressed, data.action, data.key),
                platform_specific: KeyEventExtra {  },
            },
            is_synthetic: false,
        },
    )
}

/// The event for a key that the input method stands in for.
pub open spec fn stand_in_event<T>(key: Key, code: KeyCode, state: ElementState) -> Event<T> {
    window_event(
        WindowEvent::KeyboardInput {
            device_id: DeviceId(0),
            event: KeyEvent {
                physical_key: code,
                logical_key: key,
                text: None,
                location: KeyLocation::Standard,
                state,
                repeat: false,
                platform_specific: KeyEventExtra {  },
            },
            is_synthetic: false,
        },
    )
}

/// The events for a key that the input method stands in for: down, then up.
pub open spec fn stand_in_events<T>(key: Key, code: KeyCode) -> Seq<Event<T>> {
    seq![
        stand_in_event(key, code, ElementState::Pressed),
        stand_in_event(key, code, ElementState::Released),
    ]
}

/// The events for the input method. Hiding the screen keyboard counts as the
/// enter key, by which a text field learns that it loses the focus.
pub open spec fn ime_events<T>(event: ImeEvent) -> Seq<Event<T>> {
    match event {
        ImeEvent::TextInput(text) => seq![window_event(WindowEvent::ReceivedImeText(text))],
        ImeEvent::Backspace(_) => stand_in_events(Key::Backspace, KeyCode::Backspace),
        ImeEvent::Enter(_) => stand_in_events(Key::Enter, KeyCode::Enter),
        ImeEvent::Status(KeyboardStatus::Hide) => stand_in_events(Key::Enter, KeyCode::Enter),
        ImeEvent::Status(_) => Seq::empty(),
    }
}

/// The events for input.
pub open spec fn input_events<T>(state: PlatformView, event: InputEvent) -> Seq<Event<T>> {
    match event {
        InputEvent::Touch(data) => touch_events(data),
        InputEvent::Mouse(data) => mouse_events(data),
        InputEvent::Axis(data) => axis_events(data),
        InputEvent::Key(data) => seq![key_event(state.pressed_keys, data)],
        InputEvent::Ime(event) => ime_events(event),
        InputEvent::Unknown => Seq::empty(),
    }
}

/// The shared state after input.
pub open spec fn state_after_input(state: PlatformView, event: InputEvent) -> PlatformView {
    match event {
        InputEvent::Mouse(data) => state_after_mouse(state, data),
        InputEvent::Key(data) => PlatformView {
            pressed_keys: keys_after(state.pressed_keys, data.action, data.key),
            ..state
        },
        _ => state,
    }
}

/// The portable button for a button of the system.
pub fn ohos_mouse_button_to_tao(button: NativeMouseButton) -> (r: Option<MouseButton>)
    ensures
        r == portable_button(button),
{
    match button {
        NativeMouseButton::LeftButton => Some(MouseButton::Left),
        NativeMouseButton::RightButton => Some(MouseButton::Right),
        NativeMouseButton::MiddleButton => Some(MouseButton::Middle),
        NativeMouseButton::BackButton => Some(MouseButton::Other(4)),
        NativeMouseButton::ForwardButton => Some(MouseButton::Other(5)),
        NativeMouseButton::NoButton => None,
        NativeMouseButton::Unknown => None,
    }
}

} // verus!
