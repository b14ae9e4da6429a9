//! The events that the application's handler receives.

use crate::dpi::{PhysicalPosition, PhysicalSize};
use crate::float::{Float32, Float64};
use crate::ids::{DeviceId, KeyEventExtra, WindowId};
use crate::keyboard::{Key, KeyCode, KeyLocation, ModifiersState};
use vstd::prelude::*;

verus! {

/// Why a round of events begins.
#[derive(Clone, Copy, Debug, PartialEq, Eq)]
pub enum StartCause {
    Init,
}

/// Whether a key or a button is down.
#[derive(Clone, Copy, Debug, PartialEq, Eq, Hash)]
pub enum ElementState {
    Pressed,
    Released,
}

/// A button of a mouse.
#[derive(Clone, Copy, Debug, PartialEq, Eq, Hash)]
pub enum MouseButton {
    Left,
    Right,
    Middle,
    Other(u16),
}

/// Where a touch or a scroll is in its course.
#[derive(Clone, Copy, Debug, PartialEq, Eq, Hash)]
pub enum TouchPhase {
    Started,
    Moved,
    Ended,
    Cancelled,
}

/// How hard a touch presses.
#[derive(Clone, Copy, Debug, PartialEq, Eq)]
pub enum Force {
    Normalized(Float64),
}

/// One finger of a touch.
#[derive(Clone, Copy, Debug, PartialEq, Eq)]
pub struct Touch {
    pub device_id: DeviceId,
    pub phase: TouchPhase,
    pub location: PhysicalPosition<Float64>,
    pub force: Option<Force>,
    pub id: u64,
}

/// How far a wheel turned or a touchpad scrolled.
#[derive(Clone, Copy, Debug, PartialEq, Eq)]
pub enum MouseScrollDelta {
    LineDelta(Float32, Float32),
    PixelDelta(PhysicalPosition<Float64>),
}

/// A key going down or up.
#[derive(Debug, PartialEq, Eq)]
pub struct KeyEvent {
    pub physical_key: KeyCode,
    pub logical_key: Key,
    pub text: Option<String>,
    pub location: KeyLocation,
    pub state: ElementState,
    pub repeat: bool,
    pub platform_specific: KeyEventExtra,
}

/// An event of one window.
#[derive(Debug, PartialEq, Eq)]
pub enum WindowEvent {
    Resized(PhysicalSize<u32>),
    CloseRequested,
    Destroyed,
    ReceivedImeText(String),
    Focused(bool),
    KeyboardInput { device_id: DeviceId, event: KeyEvent, is_synthetic: bool },
    CursorMoved {
        device_id: DeviceId,
        position: PhysicalPosition<Float64>,
        modifiers: ModifiersState,
    },
    CursorEntered { device_id: DeviceId },
    CursorLeft { device_id: DeviceId },
    MouseWheel {
        device_id: DeviceId,
        delta: MouseScrollDelta,
        phase: TouchPhase,
        modifiers: ModifiersState,
    },
    MouseInput {
        device_id: DeviceId,
        state: ElementState,
        button: MouseButton,
        modifiers: ModifiersState,
    },
    Touch(Touch),
    ScaleFactorChanged { scale_factor: Float64, new_inner_size: PhysicalSize<u32> },
}

/// An event that the application's handler receives. The addresses of `Opened`
/// are in their serialized form.
#[derive(Debug, PartialEq, Eq)]
pub enum Event<T> {
    NewEvents(StartCause),
    WindowEvent { window_id: WindowId, event: WindowEvent },
    UserEvent(T),
    Suspended,
    Resumed,
    MainEventsCleared,
    RedrawRequested(WindowId),
    LoopDestroyed,
    Opened { urls: Vec<String> },
}

/// The event about the window.
pub open spec fn window_event<T>(event: WindowEvent) -> Event<T> {
    Event::WindowEvent { window_id: WindowId, event }
}

/// The calls of the handler for a series of events: after each event the handler
/// is told that the main events are cleared.
pub open spec fn handler_calls<T>(events: Seq<Event<T>>) -> Seq<Event<T>> {
    Seq::new(
        2 * events.len(),
        |i: int|
            if i % 2 == 0 {
                events[i / 2]
            } else {
                Event::MainEventsCleared
            },
    )
}

/// The calls for a series of events where a handler is installed, and none where
/// it is not.
pub open spec fn delivered<T>(installed: bool, events: Seq<Event<T>>) -> Seq<Event<T>> {
    if installed {
        handler_calls(events)
    } else {
        Seq::empty()
    }
}

/// Adds the calls for one more event.
pub(crate) fn call_handler<T>(calls: &mut Vec<Event<T>>, event: Event<T>, Ghost(events): Ghost<Seq<Event<T>>>)
    requires
        old(calls)@ == handler_calls(events),
    ensures
        final(calls)@ == handler_calls(events.push(event)),
{
    calls.push(event);
    calls.push(Event::MainEventsCleared);
    assert(calls@ =~= handler_calls(events.push(event)));
}

} // verus!
