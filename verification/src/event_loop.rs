//! The event loop: what the handler is called with for each event of the system.

use crate::address::{addresses, texts, url_parse, urls_from_text};
use crate::channel::{
    came_out, is_next, lemma_results_are_those_of_the_channel, PeekableReceiver,
};
use crate::dpi::{
    rect_size, to_low32, to_unsigned32, to_unsigned64, unsigned32, PhysicalPosition, PhysicalSize,
    Rect,
};
use crate::error::{ExternalError, HandleError};
use crate::event::{
    call_handler, delivered, handler_calls, window_event, ElementState, Event, Force, KeyEvent,
    MouseScrollDelta, StartCause, Touch, TouchPhase, WindowEvent,
};
use crate::float::{Float32, Float64};
use crate::handle::ohos_display_handle;
use crate::ids::{DeviceId, KeyEventExtra, WindowId};
use crate::input::{
    axis_events, button_events, ime_events, input_events, key_event, mouse_events,
    ohos_mouse_button_to_tao, pinch_events, scroll_events, stand_in_event, state_after_input,
    state_after_mouse, touch_events, touch_phase, wheel_event, AxisEventData, ImeEvent, InputEvent,
    InputSource, KeyAction, KeyEventData, KeyboardStatus, MouseAction, MouseEventData,
    NativeMouseButton, TouchAction, TouchEventData,
};
use crate::keyboard::{Key, KeyCode, KeyLocation, ModifiersState, NativeKeyCode};
use crate::monitor::{displays, find_monitor, monitor_at, AppSnapshot, MonitorHandle};
use crate::state::{seen_cursor, PlatformState, PlatformView};
use crate::theme::{color_mode, mode_of, Theme};
use raw_window_handle::RawDisplayHandle;
use std::collections::VecDeque;
use std::sync::mpsc::TryRecvError;
use vstd::prelude::*;

verus! {

/// An event of the system. A change of the configuration comes with the content
/// rectangle and the scale that hold after it.
#[derive(Debug, PartialEq, Eq)]
pub enum MainEvent {
    SurfaceCreate,
    SurfaceDestroy,
    WindowResize { width: i32, height: i32 },
    WindowRedraw,
    ContentRectChange(Rect),
    GainedFocus,
    LostFocus,
    ConfigChanged { content_rect: Rect, scale: Float32 },
    Start,
    Resume,
    SaveState,
    Pause,
    WindowDestroy,
    Destroy,
    Input(InputEvent),
    NewWant { uri: String },
    UserEvent,
    /// An event of a kind that is not handled.
    Other,
}

/// What an event of the system leads to.
#[derive(Debug, PartialEq, Eq)]
pub struct Dispatch<T> {
    /// The calls of the handler, in order.
    pub calls: Vec<Event<T>>,
    /// Whether the events that other threads sent are to be drained next.
    pub drain: bool,
}

/// What follows once an event of the system is dealt with.
#[derive(Debug, PartialEq, Eq)]
pub struct AfterDispatch<T> {
    /// The calls of the handler, in order.
    pub calls: Vec<Event<T>>,
    /// The code with which the application is to be terminated after them.
    pub terminate: Option<i32>,
}

/// What the handler wants of the loop. It is handed to each call of the handler,
/// which may change it.
#[derive(Clone, Copy, Debug, PartialEq, Eq)]
pub enum ControlFlow {
    Poll,
    Wait,
    ExitWithCode(i32),
}

impl Default for ControlFlow {
    fn default() -> (r: ControlFlow)
        ensures
            r is Poll,
    {
        ControlFlow::Poll
    }
}

/// The part of the event loop that windows are made from.
#[derive(Clone, Copy, Debug, PartialEq, Eq)]
pub struct EventLoopWindowTarget {
    /// Whether the loop is to end.
    pub exit: bool,
}

/// The event loop.
#[verifier::reject_recursive_types(T)]
pub struct EventLoop<T> {
    pub window_target: EventLoopWindowTarget,
    pub user_events_receiver: PeekableReceiver<T>,
    /// Whether the application's handler is installed.
    pub handler_installed: bool,
    /// What the handler finds at its next call.
    pub control_flow: ControlFlow,
}

/// The event loop once it runs with the application's handler.
pub open spec fn running<T>(event_loop: EventLoop<T>) -> EventLoop<T> {
    EventLoop { handler_installed: true, control_flow: ControlFlow::Poll, ..event_loop }
}

/// The event loop after a call of the handler, given what the call left.
pub open spec fn called<T>(event_loop: EventLoop<T>, left: ControlFlow) -> EventLoop<T> {
    EventLoop { control_flow: left, ..event_loop }
}

/// The events for an event of the system other than `NewWant`.
pub open spec fn main_events<T>(state: PlatformView, event: MainEvent) -> Seq<Event<T>> {
    match event {
        MainEvent::SurfaceCreate => seq![Event::NewEvents(StartCause::Init), Event::Resumed],
        MainEvent::SurfaceDestroy => seq![Event::Suspended],
        MainEvent::WindowResize { width, height } => seq![
            window_event(
                WindowEvent::Resized(
                    PhysicalSize { width: unsigned32(width), height: unsigned32(height) },
                ),
            ),
        ],
        MainEvent::WindowRedraw => seq![Event::RedrawRequested(WindowId)],
        MainEvent::ContentRectChange(rect) => seq![
            window_event(WindowEvent::Resized(rect_size(rect))),
        ],
        MainEvent::GainedFocus => seq![window_event(WindowEvent::Focused(true))],
        MainEvent::LostFocus => seq![window_event(WindowEvent::Focused(false))],
        MainEvent::ConfigChanged { content_rect, scale } => seq![
            window_event(
                WindowEvent::ScaleFactorChanged {
                    scale_factor: scale.widened(),
                    new_inner_size: rect_size(content_rect),
                },
            ),
        ],
        MainEvent::Start => seq![Event::Resumed],
        MainEvent::Resume => seq![Event::Resumed],
        MainEvent::WindowDestroy => seq![
            window_event(WindowEvent::CloseRequested),
            window_event(WindowEvent::Destroyed),
        ],
        MainEvent::Destroy => seq![Event::LoopDestroyed],
        MainEvent::Input(input) => input_events(state, input),
        MainEvent::SaveState => Seq::empty(),
        MainEvent::Pause => Seq::empty(),
        MainEvent::NewWant { .. } => Seq::empty(),
        MainEvent::UserEvent => Seq::empty(),
        MainEvent::Other => Seq::empty(),
    }
}

/// The shared state after an event of the system.
pub open spec fn state_after(state: PlatformView, event: MainEvent) -> PlatformView {
    match event {
        MainEvent::GainedFocus => PlatformView { has_focus: true, ..state },
        MainEvent::LostFocus => PlatformView { has_focus: false, ..state },
        MainEvent::Input(input) => state_after_input(state, input),
        _ => state,
    }
}

/// The calls tell the handler that the application is opened with what the text
/// parses to, also where that is nothing.
pub open spec fn is_opened<T>(installed: bool, calls: Seq<Event<T>>, text: Seq<char>) -> bool {
    if installed {
        &&& calls.len() == 2
        &&& calls[0] matches Event::Opened { urls } && texts(urls@) == addresses(
            text,
            url_parse(text),
        )
        &&& calls[1] is MainEventsCleared
    } else {
        calls.len() == 0
    }
}

/// The calls for an event of the system.
pub open spec fn is_dispatched<T>(
    installed: bool,
    state: PlatformView,
    event: MainEvent,
    calls: Seq<Event<T>>,
) -> bool {
    match event {
        MainEvent::NewWant { uri } => is_opened(installed, calls, uri@),
        _ => calls == delivered(installed, main_events::<T>(state, event)),
    }
}

/// The events for what was received from another thread.
pub open spec fn user_events<T, E>(received: Result<T, E>) -> Seq<Event<T>> {
    match received {
        Ok(value) => seq![Event::UserEvent(value)],
        Err(_) => Seq::empty(),
    }
}

/// The calls of one draining, given what its steps receive one after another: it
/// ends with the first step that leads to no call.
pub open spec fn drained<T, E>(installed: bool, received: Seq<Result<T, E>>) -> Seq<Event<T>>
    decreases received.len(),
{
    if received.len() == 0 {
        Seq::empty()
    } else {
        let calls = delivered(installed, user_events(received[0]));
        if calls.len() == 0 {
            Seq::empty()
        } else {
            calls + drained(installed, received.drop_first())
        }
    }
}

/// One draining takes all events that are waiting, in the order in which they
/// were sent.
pub proof fn lemma_draining_takes_all<T, E>(waiting: Seq<T>, nothing: E, later: Seq<Result<T, E>>)
    ensures
        drained(
            true,
            waiting.map_values(|value: T| Ok::<T, E>(value)) + seq![Err::<T, E>(nothing)] + later,
        ) == handler_calls(waiting.map_values(|value: T| Event::UserEvent(value))),
    decreases waiting.len(),
{
    let received = waiting.map_values(|value: T| Ok::<T, E>(value)) + seq![Err::<T, E>(nothing)]
        + later;
    let events = waiting.map_values(|value: T| Event::UserEvent(value));
    if waiting.len() == 0 {
        assert(received[0] is Err);
        assert(handler_calls(events) =~= Seq::empty());
    } else {
        let rest = waiting.drop_first();
        lemma_draining_takes_all(rest, nothing, later);
        assert(received.drop_first() =~= rest.map_values(|value: T| Ok::<T, E>(value)) + seq![
            Err::<T, E>(nothing),
        ] + later);
        let first = seq![Event::UserEvent(waiting[0])];
        assert(user_events(received[0]) =~= first);
        assert(handler_calls(events) =~= handler_calls(first) + handler_calls(
            rest.map_values(|value: T| Event::UserEvent(value)),
        ));
    }
}

/// Without a handler nothing is drained.
pub proof fn lemma_no_handler_no_draining<T, E>(received: Seq<Result<T, E>>)
    ensures
        drained(false, received).len() == 0,
{
}

/// The calls are those for the next result of the receiver.
pub open spec fn is_drained<T>(
    before: PeekableReceiver<T>,
    calls: Seq<Event<T>>,
    after: PeekableReceiver<T>,
) -> bool {
    exists|received: Result<T, TryRecvError>|
        #[trigger] is_next(before, received, after) && calls == delivered(
            true,
            user_events(received),
        )
}

/// A draining: it goes on until a step leads to no call. `calls` holds the calls of
/// each step, and `receivers` the receiver before each step and after the last.
pub open spec fn is_draining<T>(
    receivers: Seq<PeekableReceiver<T>>,
    calls: Seq<Seq<Event<T>>>,
) -> bool {
    &&& calls.len() > 0
    &&& receivers.len() == calls.len() + 1
    &&& forall|i: int|
        0 <= i < calls.len() ==> #[trigger] is_drained(receivers[i], calls[i], receivers[i + 1])
    &&& forall|i: int| 0 <= i < calls.len() - 1 ==> (#[trigger] calls[i]).len() > 0
    &&& calls.last().len() == 0
}

/// The calls that end the loop, if it is to end.
pub open spec fn closing_calls<T>(installed: bool, exit: bool) -> Seq<Event<T>> {
    if exit {
        delivered(installed, seq![Event::<T>::LoopDestroyed])
    } else {
        Seq::empty()
    }
}

/// The code with which the application is terminated, if it is.
pub open spec fn exit_code(installed: bool, exit: bool) -> Option<i32> {
    if exit && installed {
        Some(0i32)
    } else {
        None
    }
}

/// Events that other threads sent are drained after the event.
pub open spec fn drains(installed: bool, event: MainEvent) -> bool {
    installed && event is UserEvent
}

proof fn lemma_calls_of_a_draining<T, E>(calls: Seq<Seq<Event<T>>>, received: Seq<Result<T, E>>)
    requires
        calls.len() == received.len(),
        forall|i: int|
            0 <= i < calls.len() ==> #[trigger] calls[i] == delivered(
                true,
                user_events(received[i]),
            ),
        forall|i: int| 0 <= i < calls.len() - 1 ==> (#[trigger] calls[i]).len() > 0,
    ensures
        calls.flatten() == drained(true, received),
    decreases calls.len(),
{
    if calls.len() > 0 {
        let rest = calls.drop_first();
        assert forall|i: int| 0 <= i < rest.len() implies #[trigger] rest[i] == delivered(
            true,
            user_events(received.drop_first()[i]),
        ) by {
            assert(calls[i + 1] == delivered(true, user_events(received[i + 1])));
        }
        assert forall|i: int| 0 <= i < rest.len() - 1 implies (#[trigger] rest[i]).len() > 0 by {
            assert(calls[i + 1].len() > 0);
        }
        lemma_calls_of_a_draining(rest, received.drop_first());
        assert(calls[0] == delivered(true, user_events(received[0])));
        if calls[0].len() == 0 {
            assert(calls.len() == 1);
            assert(calls.flatten() =~= Seq::empty());
        }
    }
}

/// A draining delivers each value that came out of the receiver, once and in order,
/// and ends because nothing more was there.
pub proof fn lemma_draining_delivers_what_came_out<T>(
    receivers: Seq<PeekableReceiver<T>>,
    calls: Seq<Seq<Event<T>>>,
)
    requires
        is_draining(receivers, calls),
    ensures
        ({
            let out = came_out(receivers[0], receivers.last());
            &&& out.len() == calls.len()
            &&& out.last() is Err
            &&& forall|i: int| 0 <= i < out.len() - 1 ==> #[trigger] out[i] is Ok
            &&& calls.flatten() == drained(true, out)
            &&& calls.flatten() == handler_calls(
                Seq::new(
                    (out.len() - 1) as nat,
                    |i: int| Event::<T>::UserEvent(out[i]->Ok_0),
                ),
            )
        }),
{
    let n = calls.len();
    let out = Seq::new(
        n,
        |i: int|
            choose|received: Result<T, TryRecvError>|
                #[trigger] is_next(receivers[i], received, receivers[i + 1]) && calls[i]
                    == delivered(true, user_events(received)),
    );
    assert forall|i: int| 0 <= i < n implies #[trigger] is_next(
        receivers[i],
        out[i],
        receivers[i + 1],
    ) && calls[i] == delivered(true, user_events(out[i])) by {
        assert(is_drained(receivers[i], calls[i], receivers[i + 1]));
    }
    assert forall|i: int| 0 <= i < n implies #[trigger] calls[i] == delivered(
        true,
        user_events(out[i]),
    ) by {
        assert(is_next(receivers[i], out[i], receivers[i + 1]));
    }
    lemma_results_are_those_of_the_channel(receivers, out);
    lemma_calls_of_a_draining(calls, out);
    assert forall|i: int| 0 <= i < n - 1 implies #[trigger] out[i] is Ok by {
        assert(calls[i].len() > 0);
    }
    assert(calls[n - 1].len() == 0);
    assert(handler_calls(user_events(out[n - 1])).len() == 0);
    let values = Seq::new((n - 1) as nat, |i: int| out[i]->Ok_0);
    let nothing = out[n - 1]->Err_0;
    lemma_draining_takes_all(values, nothing, Seq::empty());
    assert(values.map_values(|value: T| Ok::<T, TryRecvError>(value)) + seq![
        Err::<T, TryRecvError>(nothing),
    ] + Seq::empty() =~= out);
    assert(values.map_values(|value: T| Event::UserEvent(value)) =~= Seq::new(
        (n - 1) as nat,
        |i: int| Event::<T>::UserEvent(out[i]->Ok_0),
    ));
}

/// The calls for no event.
fn deliver_none<T>() -> (r: Vec<Event<T>>)
    ensures
        forall|installed: bool| r@ == #[trigger] delivered::<T>(installed, Seq::empty()),
{
    let calls: Vec<Event<T>> = Vec::new();
    assert(calls@ =~= handler_calls(Seq::empty()));
    calls
}

/// The calls for one event.
fn deliver_one<T>(installed: bool, event: Event<T>) -> (r: Vec<Event<T>>)
    ensures
        r@ == delivered(installed, seq![event]),
{
    let mut calls: Vec<Event<T>> = deliver_none();
    if installed {
        assert(handler_calls(Seq::<Event<T>>::empty()) == delivered::<T>(true, Seq::empty()));
        call_handler(&mut calls, event, Ghost(Seq::empty()));
        assert(Seq::empty().push(event) =~= seq![event]);
    } else {
        assert(delivered::<T>(false, Seq::empty()) == Seq::<Event<T>>::empty());
    }
    calls
}

/// The calls for two events.
fn deliver_two<T>(installed: bool, first: Event<T>, second: Event<T>) -> (r: Vec<Event<T>>)
    ensures
        r@ == delivered(installed, seq![first, second]),
{
    let ghost events: Seq<Event<T>> = seq![first];
    let mut calls: Vec<Event<T>> = deliver_one(installed, first);
    if installed {
        call_handler(&mut calls, second, Ghost(events));
        assert(events.push(second) =~= seq![first, second]);
    }
    calls
}

/// An event about the window.
fn about_window<T>(event: WindowEvent) -> (r: Event<T>)
    ensures
        r == window_event::<T>(event),
{
    Event::WindowEvent { window_id: WindowId, event }
}

/// The event for a wheel.
fn wheel<T>(delta: MouseScrollDelta, modifiers: ModifiersState) -> (r: Event<T>)
    ensures
        r == wheel_event::<T>(delta, modifiers),
{
    about_window(
        WindowEvent::MouseWheel {
            device_id: DeviceId(0),
            delta,
            phase: TouchPhase::Moved,
            modifiers,
        },
    )
}

/// The event for a key that the input method stands in for.
fn stand_in<T>(key: Key, code: KeyCode, state: ElementState) -> (r: Event<T>)
    ensures
        r == stand_in_event::<T>(key, code, state),
{
    about_window(
        WindowEvent::KeyboardInput {
            device_id: DeviceId(0),
            event: KeyEvent {
                physical_key: code,
                logical_key: key,
                text: None,
                location: KeyLocation::Standard,
                state,
                repeat: false,
                platform_specific: KeyEventExtra {  },
            },
            is_synthetic: false,
        },
    )
}

impl EventLoopWindowTarget {
    /// The displays: one.
    pub fn available_monitors(&self, app: AppSnapshot) -> (r: VecDeque<MonitorHandle>)
        ensures
            r@ == seq![MonitorHandle { app }],
            r@ == displays(app),
    {
        let mut monitors: VecDeque<MonitorHandle> = VecDeque::with_capacity(1);
        monitors.push_back(MonitorHandle::new(app));
        assert(monitors@ =~= seq![MonitorHandle { app }]);
        monitors
    }

    /// The main display.
    pub fn primary_monitor(&self, app: AppSnapshot) -> (r: Option<MonitorHandle>)
        ensures
            r == Some(MonitorHandle { app }),
            r == Some(displays(app)[0]),
    {
        Some(MonitorHandle::new(app))
    }

    /// The display, if the point is on it.
    pub fn monitor_from_point(&self, app: AppSnapshot, x: Float64, y: Float64) -> (r: Option<
        MonitorHandle,
    >)
        ensures
            r == monitor_at(app, x, y),
    {
        find_monitor(app, x, y)
    }

    /// The handle of the display, which is one of OpenHarmony.
    pub fn raw_display_handle_rwh_06(&self) -> (r: Result<RawDisplayHandle, HandleError>)
        ensures
            r matches Ok(handle) && handle is Ohos,
    {
        Ok(ohos_display_handle())
    }

    /// Where the cursor was last seen.
    pub fn cursor_position(&self, state: &PlatformState) -> (r: Result<
        PhysicalPosition<Float64>,
        ExternalError,
    >)
        ensures
            r == Ok::<PhysicalPosition<Float64>, ExternalError>(state.cursor),
            r == Ok::<PhysicalPosition<Float64>, ExternalError>(seen_cursor(state@)),
    {
        Ok(state.cursor)
    }

    /// The number of the color mode that the system is asked for to show a theme.
    pub fn set_theme(&self, theme: Option<Theme>) -> (r: i32)
        ensures
            r == mode_of(theme).number(),
    {
        color_mode(theme).code()
    }
}

impl<T> EventLoop<T> {
    /// An event loop without a handler.
    pub fn new(user_events_receiver: PeekableReceiver<T>) -> (r: EventLoop<T>)
        ensures
            r.window_target == (EventLoopWindowTarget { exit: false }),
            r.user_events_receiver == user_events_receiver,
            !r.handler_installed,
            r.control_flow is Poll,
    {
        EventLoop {
            window_target: EventLoopWindowTarget { exit: false },
            user_events_receiver,
            handler_installed: false,
            control_flow: ControlFlow::Poll,
        }
    }

    /// The part of the loop that windows are made from.
    pub fn window_target(&self) -> (r: &EventLoopWindowTarget)
        ensures
            *r == self.window_target,
    {
        &self.window_target
    }

    /// Begins to run with the application's handler, and gives the code with which
    /// the loop returns.
    pub fn run_return(&mut self) -> (r: i32)
        ensures
            r == 0,
            *final(self) == running(*old(self)),
    {
        self.handler_installed = true;
        self.control_flow = ControlFlow::Poll;
        0
    }

    /// What the handler finds at its next call.
    pub fn control_flow(&self) -> (r: ControlFlow)
        ensures
            r == self.control_flow,
    {
        self.control_flow
    }

    /// Notes what a call of the handler left for the next one.
    pub fn set_control_flow(&mut self, control_flow: ControlFlow)
        ensures
            *final(self) == called(*old(self), control_flow),
    {
        self.control_flow = control_flow;
    }

    /// The calls for a touch.
    fn handle_touch_event(&self, data: TouchEventData) -> (r: Vec<Event<T>>)
        ensures
            r@ == delivered(self.handler_installed, touch_events::<T>(data)),
    {
        let phase: TouchPhase = match data.action {
            TouchAction::Down => TouchPhase::Started,
            TouchAction::Up => TouchPhase::Ended,
            TouchAction::Move => TouchPhase::Moved,
            TouchAction::Cancel => TouchPhase::Cancelled,
            TouchAction::Unknown => {
                return deliver_none();
            },
        };
        let mut calls: Vec<Event<T>> = deliver_none();
        let ghost mut events: Seq<Event<T>> = Seq::empty();
        let installed = self.handler_installed;
        assert(calls@ == delivered::<T>(installed, Seq::empty()));
        let mut i: usize = 0;
        while i < data.points.len()
            invariant
                i <= data.points.len(),
                touch_phase(data.action) == Some(phase),
                events =~= touch_events::<T>(data).take(i as int),
                calls@ == delivered(installed, events),
            decreases data.points.len() - i,
        {
            let point = data.points[i];
            if installed {
                let event = about_window(
                    WindowEvent::Touch(
                        Touch {
                            device_id: DeviceId(to_low32(data.device_id)),
                            phase,
                            location: PhysicalPosition { x: point.x.widen(), y: point.y.widen() },
                            force: Some(Force::Normalized(point.force.widen())),
                            id: to_unsigned64(point.id),
                        },
                    ),
                );
                call_handler(&mut calls, event, Ghost(events));
            }
            proof {
                events = events.push(touch_events::<T>(data)[i as int]);
            }
            i = i + 1;
        }
        assert(events =~= touch_events::<T>(data));
        calls
    }

    /// The calls for an action of a button.
    fn handle_button(&self, state: ElementState, button: NativeMouseButton) -> (r: Vec<Event<T>>)
        ensures
            r@ == delivered(self.handler_installed, button_events::<T>(state, button)),
    {
        match ohos_mouse_button_to_tao(button) {
            Some(button) => deliver_one(
                self.handler_installed,
                about_window(
                    WindowEvent::MouseInput {
                        device_id: DeviceId(0),
                        state,
                        button,
                        modifiers: ModifiersState::empty(),
                    },
                ),
            ),
            None => deliver_none(),
        }
    }

    /// The calls for an action of the mouse. A move is noted as the place where
    /// the cursor was last seen, whether or not a handler is installed.
    pub fn handle_mouse_event(&self, state: &mut PlatformState, data: MouseEventData) -> (r: Vec<
        Event<T>,
    >)
        ensures
            r@ == delivered(self.handler_installed, mouse_events::<T>(data)),
            final(state)@ == state_after_mouse(old(state)@, data),
    {
        let installed = self.handler_installed;
        match data.action {
            MouseAction::Move => {
                let position = PhysicalPosition { x: data.x.widen(), y: data.y.widen() };
                state.cursor = position;
                deliver_one(
                    installed,
                    about_window(
                        WindowEvent::CursorMoved {
                            device_id: DeviceId(0),
                            position,
                            modifiers: ModifiersState::empty(),
                        },
                    ),
                )
            },
            MouseAction::Press => self.handle_button(ElementState::Pressed, data.button),
            MouseAction::Release => self.handle_button(ElementState::Released, data.button),
            MouseAction::HoverEnter => deliver_one(
                installed,
                about_window(WindowEvent::CursorEntered { device_id: DeviceId(0) }),
            ),
            MouseAction::HoverLeave => deliver_one(
                installed,
                about_window(WindowEvent::CursorLeft { device_id: DeviceId(0) }),
            ),
            MouseAction::NoAction => deliver_none(),
        }
    }

    /// The calls for a wheel turn, a scroll or a pinch.
    pub fn handle_axis_event(&self, data: AxisEventData) -> (r: Vec<Event<T>>)
        ensures
            r@ == delivered(self.handler_installed, axis_events::<T>(data)),
    {
        let mut calls: Vec<Event<T>> = deliver_none();
        let ghost mut events: Seq<Event<T>> = Seq::empty();
        assert(calls@ == delivered::<T>(self.handler_installed, events));
        if !self.handler_installed {
            return calls;
        }
        if !(data.delta_x.is_zero() && data.delta_y.is_zero()) {
            let touchpad = match data.source {
                InputSource::Touchpad => true,
                _ => false,
            };
            let delta = if touchpad {
                MouseScrollDelta::PixelDelta(
                    PhysicalPosition { x: data.delta_x.widen(), y: data.delta_y.widen() },
                )
            } else {
                MouseScrollDelta::LineDelta(data.delta_x, data.delta_y)
            };
            call_handler(&mut calls, wheel(delta, ModifiersState::empty()), Ghost(events));
        }
        proof {
            events = scroll_events::<T>(data);
            assert(scroll_events::<T>(data).len() == 1 ==> Seq::<Event<T>>::empty().push(
                scroll_events::<T>(data)[0],
            ) =~= scroll_events::<T>(data));
        }
        if !data.pinch_scale.is_zero() && !data.pinch_scale.is_one() {
            let step = if data.pinch_scale.is_above_one() {
                Float32 { bits: 0x3f80_0000 }
            } else {
                Float32 { bits: 0xbf80_0000 }
            };
            let delta = MouseScrollDelta::LineDelta(Float32 { bits: 0 }, step);
            call_handler(&mut calls, wheel(delta, ModifiersState::control()), Ghost(events));
        }
        proof {
            assert(pinch_events::<T>(data).len() == 1 ==> events.push(pinch_events::<T>(data)[0])
                =~= axis_events::<T>(data));
            assert(pinch_events::<T>(data).len() == 0 ==> events =~= axis_events::<T>(data));
        }
        calls
    }

    /// The calls for an action of a key. The key is noted as down or up, whether
    /// or not a handler is installed.
    fn handle_key_event(&self, state: &mut PlatformState, data: KeyEventData) -> (r: Vec<Event<T>>)
        ensures
            r@ == delivered(
                self.handler_installed,
                seq![key_event::<T>(old(state)@.pressed_keys, data)],
            ),
            final(state)@ == state_after_input(old(state)@, InputEvent::Key(data)),
    {
        let element_state = match data.action {
            KeyAction::Down => ElementState::Pressed,
            KeyAction::Up => ElementState::Released,
            KeyAction::Unknown => ElementState::Released,
        };
        let repeat = state.track_key(data.action, data.key);
        deliver_one(
            self.handler_installed,
            about_window(
                WindowEvent::KeyboardInput {
                    device_id: DeviceId(to_low32(data.device_id)),
                    event: KeyEvent {
                        physical_key: KeyCode::Unidentified(NativeKeyCode::Ohos(data.native_code)),
                        logical_key: data.logical_key,
                        text: None,
                        location: data.location,
                        state: element_state,
                        repeat,
                        platform_specific: KeyEventExtra {  },
                    },
                    is_synthetic: false,
                },
            ),
        )
    }

    /// The calls for the input method.
    fn handle_ime_event(&self, event: ImeEvent) -> (r: Vec<Event<T>>)
        ensures
            r@ == delivered(self.handler_installed, ime_events::<T>(event)),
    {
        let installed = self.handler_installed;
        match event {
            ImeEvent::TextInput(text) => deliver_one(
                installed,
                about_window(WindowEvent::ReceivedImeText(text)),
            ),
            ImeEvent::Backspace(_) => deliver_two(
                installed,
                stand_in(Key::Backspace, KeyCode::Backspace, ElementState::Pressed),
                stand_in(Key::Backspace, KeyCode::Backspace, ElementState::Released),
            ),
            ImeEvent::Enter(_) => deliver_two(
                installed,
                stand_in(Key::Enter, KeyCode::Enter, ElementState::Pressed),
                stand_in(Key::Enter, KeyCode::Enter, ElementState::Released),
            ),
            ImeEvent::Status(status) => match status {
                KeyboardStatus::Hide => deliver_two(
                    installed,
                    stand_in(Key::Enter, KeyCode::Enter, ElementState::Pressed),
                    stand_in(Key::Enter, KeyCode::Enter, ElementState::Released),
                ),
                _ => deliver_none(),
            },
        }
    }

    /// The calls for input.
    pub fn handle_input_event(&self, state: &mut PlatformState, event: InputEvent) -> (r: Vec<
        Event<T>,
    >)
        ensures
            r@ == delivered(self.handler_installed, input_events::<T>(old(state)@, event)),
            final(state)@ == state_after_input(old(state)@, event),
    {
        match event {
            InputEvent::Touch(data) => self.handle_touch_event(data),
            InputEvent::Mouse(data) => self.handle_mouse_event(state, data),
            InputEvent::Axis(data) => self.handle_axis_event(data),
            InputEvent::Key(data) => self.handle_key_event(state, data),
            InputEvent::Ime(event) => self.handle_ime_event(event),
            InputEvent::Unknown => deliver_none(),
        }
    }

    /// The calls for an event of the system.
    pub fn dispatch(&self, state: &mut PlatformState, event: MainEvent) -> (r: Dispatch<T>)
        ensures
            is_dispatched(self.handler_installed, old(state)@, event, r.calls@),
            r.drain == (self.handler_installed && event is UserEvent),
            r.drain == drains(self.handler_installed, event),
            final(state)@ == state_after(old(state)@, event),
    {
        let installed = self.handler_installed;
        let mut drain = false;
        let calls: Vec<Event<T>> = match event {
            MainEvent::SurfaceCreate => deliver_two(
                installed,
                Event::NewEvents(StartCause::Init),
                Event::Resumed,
            ),
            MainEvent::SurfaceDestroy => deliver_one(installed, Event::Suspended),
            MainEvent::WindowResize { width, height } => deliver_one(
                installed,
                about_window(
                    WindowEvent::Resized(
                        PhysicalSize {
                            width: to_unsigned32(width),
                            height: to_unsigned32(height),
                        },
                    ),
                ),
            ),
            MainEvent::WindowRedraw => deliver_one(installed, Event::RedrawRequested(WindowId)),
            MainEvent::ContentRectChange(rect) => deliver_one(
                installed,
                about_window(WindowEvent::Resized(rect.size())),
            ),
            MainEvent::GainedFocus => {
                state.has_focus = true;
                deliver_one(installed, about_window(WindowEvent::Focused(true)))
            },
            MainEvent::LostFocus => {
                state.has_focus = false;
                deliver_one(installed, about_window(WindowEvent::Focused(false)))
            },
            MainEvent::ConfigChanged { content_rect, scale } => deliver_one(
                installed,
                about_window(
                    WindowEvent::ScaleFactorChanged {
                        scale_factor: scale.widen(),
                        new_inner_size: content_rect.size(),
                    },
                ),
            ),
            MainEvent::Start => deliver_one(installed, Event::Resumed),
            MainEvent::Resume => deliver_one(installed, Event::Resumed),
            MainEvent::SaveState => deliver_none(),
            MainEvent::Pause => deliver_none(),
            MainEvent::WindowDestroy => deliver_two(
                installed,
                about_window(WindowEvent::CloseRequested),
                about_window(WindowEvent::Destroyed),
            ),
            MainEvent::Destroy => deliver_one(installed, Event::LoopDestroyed),
            MainEvent::Input(input) => self.handle_input_event(state, input),
            MainEvent::NewWant { uri } => {
                let urls = urls_from_text(uri.as_str());
                deliver_one(installed, Event::Opened { urls })
            },
            MainEvent::UserEvent => {
                drain = installed;
                deliver_none()
            },
            MainEvent::Other => deliver_none(),
        };
        Dispatch { calls, drain }
    }

    /// The calls for what was received from another thread; none once nothing
    /// was, which ends the draining.
    pub fn user_event_calls<E>(&self, received: Result<T, E>) -> (r: Vec<Event<T>>)
        ensures
            r@ == delivered(self.handler_installed, user_events(received)),
    {
        match received {
            Ok(value) => deliver_one(self.handler_installed, Event::UserEvent(value)),
            Err(_) => deliver_none(),
        }
    }

    /// Receives one event that another thread sent, and gives the calls for it.
    /// No calls means that nothing more is waiting, or that no handler is
    /// installed; without a handler nothing is received.
    pub fn drain_step(&mut self) -> (r: Vec<Event<T>>)
        ensures
            !old(self).handler_installed ==> r@.len() == 0 && *final(self) == *old(self),
            old(self).handler_installed ==> is_drained(
                old(self).user_events_receiver,
                r@,
                final(self).user_events_receiver,
            ),
            final(self).handler_installed == old(self).handler_installed,
            final(self).window_target == old(self).window_target,
            final(self).control_flow == old(self).control_flow,
    {
        if !self.handler_installed {
            return Vec::new();
        }
        let received = self.user_events_receiver.try_recv();
        assert(is_next(old(self).user_events_receiver, received, self.user_events_receiver));
        self.user_event_calls(received)
    }

    /// The calls of one draining, given what is received one after another.
    pub fn drain_calls<E>(&self, received: Vec<Result<T, E>>) -> (r: Vec<Event<T>>)
        ensures
            r@ == drained(self.handler_installed, received@),
    {
        let ghost installed = self.handler_installed;
        let ghost all = received@;
        let mut waiting = received;
        let mut calls: Vec<Event<T>> = Vec::new();
        assert(calls@ + drained(installed, waiting@) =~= drained(installed, all));
        while waiting.len() > 0
            invariant
                installed == self.handler_installed,
                all == received@,
                calls@ + drained(installed, waiting@) == drained(installed, all),
            decreases waiting.len(),
        {
            let ghost before = waiting@;
            let ghost done = calls@;
            let mut step = self.user_event_calls(waiting.remove(0));
            assert(waiting@ =~= before.drop_first());
            if step.len() == 0 {
                assert(done + Seq::empty() =~= done);
                return calls;
            }
            let ghost new = step@;
            calls.append(&mut step);
            assert(calls@ + drained(installed, waiting@) =~= done + (new + drained(
                installed,
                waiting@,
            )));
        }
        assert(calls@ + Seq::empty() =~= calls@);
        calls
    }

    /// What follows once an event of the system is dealt with: where the loop is
    /// to end, the handler learns it and the application is terminated.
    pub fn after_dispatch(&self) -> (r: AfterDispatch<T>)
        ensures
            r.calls@ == closing_calls::<T>(self.handler_installed, self.window_target.exit),
            r.terminate == exit_code(self.handler_installed, self.window_target.exit),
            r.terminate == (if self.window_target.exit && self.handler_installed {
                Some(0i32)
            } else {
                None
            }),
    {
        if self.window_target.exit && self.handler_installed {
            AfterDispatch { calls: deliver_one(true, Event::LoopDestroyed), terminate: Some(0) }
        } else {
            AfterDispatch { calls: Vec::new(), terminate: None }
        }
    }
}

} // verus!
