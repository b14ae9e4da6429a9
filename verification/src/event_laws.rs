//! What the handler learns of each event of the system, said of the calls that it
//! gets and of what the system reported.

use crate::dpi::{lemma_casts_keep_the_low_bits, Rect};
use crate::event::{
    delivered, handler_calls, ElementState, Event, Force, KeyEvent, MouseButton, MouseScrollDelta,
    StartCause, WindowEvent,
};
use crate::event_loop::{
    closing_calls, drains, exit_code, is_dispatched, main_events, state_after, MainEvent,
};
use crate::float::{
    lemma_comparisons_by_bits, lemma_widening_keeps_the_number, same_number, Float32,
};
use crate::ids::{DeviceId, WindowId};
use crate::input::{
    AxisEventData, ImeEvent, InputEvent, KeyAction, KeyEventData, KeyboardStatus, MouseEventData,
    TouchEventData,
};
use crate::keyboard::{Key, KeyCode, ModifiersState, NativeKeyCode};
use crate::state::{seen_cursor, seen_focused, PlatformView};
use vstd::prelude::*;

verus! {

/// The event at the given place among the calls, which every other call tells.
pub open spec fn said<T>(calls: Seq<Event<T>>, i: int) -> Event<T> {
    calls[2 * i]
}

/// The calls tell the given number of events about windows, each followed by the
/// call that says that the main events are cleared.
pub open spec fn tells<T>(calls: Seq<Event<T>>, count: nat) -> bool {
    &&& calls.len() == 2 * count
    &&& forall|i: int|
        0 <= i < count ==> #[trigger] said(calls, i) is WindowEvent && calls[2 * i
            + 1] is MainEventsCleared
}

/// The event about a window that the calls tell at the given place.
pub open spec fn told<T>(calls: Seq<Event<T>>, i: int) -> WindowEvent {
    said(calls, i)->event
}

/// No modifier key is held.
pub open spec fn unmodified(modifiers: ModifiersState) -> bool {
    !modifiers.shift && !modifiers.control && !modifiers.alt && !modifiers.super_key
}

proof fn lemma_calls_by_place<T>(events: Seq<Event<T>>)
    ensures
        handler_calls(events).len() == 2 * events.len(),
        forall|i: int|
            0 <= i < events.len() ==> #[trigger] said(handler_calls(events), i) == events[i]
                && handler_calls(events)[2 * i + 1] is MainEventsCleared,
{
}

/// The handler gets the events in order, none left out and none added, each followed
/// by the call that says that the main events are cleared; without a handler it
/// gets nothing.
pub proof fn lemma_events_are_delivered_in_order<T>(events: Seq<Event<T>>, i: int)
    requires
        0 <= i < events.len(),
    ensures
        delivered(true, events).len() == 2 * events.len(),
        delivered(true, events)[2 * i] == events[i],
        delivered(true, events)[2 * i + 1] is MainEventsCleared,
        delivered(true, Seq::<Event<T>>::empty()).len() == 0,
        delivered(false, events).len() == 0,
{
    lemma_calls_by_place(events);
    assert(said(handler_calls(events), i) == events[i]);
}

/// A key is reported as pressed exactly where it goes down, so that one that goes up
/// is reported as released. The report names the key by what the system reported of
/// it and comes from the device that the system named.
pub proof fn lemma_key_is_pressed_iff_it_goes_down<T>(
    state: PlatformView,
    data: KeyEventData,
    calls: Seq<Event<T>>,
)
    requires
        is_dispatched(true, state, MainEvent::Input(InputEvent::Key(data)), calls),
    ensures
        tells(calls, 1),
        told(calls, 0) matches WindowEvent::KeyboardInput { device_id, event, is_synthetic } && {
            &&& event.state is Pressed <==> data.action is Down
            &&& event.state is Released <==> !(data.action is Down)
            &&& event.physical_key == KeyCode::Unidentified(NativeKeyCode::Ohos(data.native_code))
            &&& event.logical_key == data.logical_key
            &&& event.location == data.location
            &&& event.text is None
            &&& event.repeat <==> data.action is Down && state.pressed_keys.contains(data.key)
            &&& (device_id.0 - data.device_id) % 0x1_0000_0000 == 0
            &&& !is_synthetic
        },
{
    lemma_calls_by_place(main_events::<T>(state, MainEvent::Input(InputEvent::Key(data))));
    lemma_casts_keep_the_low_bits(0, data.device_id);
    assert(said(calls, 0) is WindowEvent);
}

/// Of two actions of one key, one down and one up, the reports differ in nothing but
/// the state and, where the key was held, the repeat.
pub proof fn lemma_key_goes_up_as_it_went_down<T>(
    state: PlatformView,
    down: KeyEventData,
    up: KeyEventData,
    down_calls: Seq<Event<T>>,
    up_calls: Seq<Event<T>>,
)
    requires
        down.action is Down,
        up == (KeyEventData { action: KeyAction::Up, ..down }),
        is_dispatched(true, state, MainEvent::Input(InputEvent::Key(down)), down_calls),
        is_dispatched(
            true,
            state_after(state, MainEvent::Input(InputEvent::Key(down))),
            MainEvent::Input(InputEvent::Key(up)),
            up_calls,
        ),
    ensures
        told(down_calls, 0) matches WindowEvent::KeyboardInput { device_id, event, is_synthetic }
            && told(up_calls, 0) == (WindowEvent::KeyboardInput {
            device_id,
            event: KeyEvent { state: ElementState::Released, repeat: false, ..event },
            is_synthetic,
        }),
        told(down_calls, 0)->KeyboardInput_event.state is Pressed,
        !state_after(
            state_after(state, MainEvent::Input(InputEvent::Key(down))),
            MainEvent::Input(InputEvent::Key(up)),
        ).pressed_keys.contains(down.key),
{
    let between = state_after(state, MainEvent::Input(InputEvent::Key(down)));
    lemma_key_is_pressed_iff_it_goes_down(state, down, down_calls);
    lemma_key_is_pressed_iff_it_goes_down(between, up, up_calls);
    lemma_calls_by_place(main_events::<T>(state, MainEvent::Input(InputEvent::Key(down))));
    lemma_calls_by_place(main_events::<T>(between, MainEvent::Input(InputEvent::Key(up))));
    assert(said(down_calls, 0) is WindowEvent);
    assert(said(up_calls, 0) is WindowEvent);
}

/// The event tells a scroll by what the system reported: the same number of pixels on
/// each axis for a touchpad, and the same number of lines for anything else.
pub open spec fn tells_scroll(event: WindowEvent, data: AxisEventData) -> bool {
    event matches WindowEvent::MouseWheel { device_id, delta, phase, modifiers } && {
        &&& device_id == DeviceId(0)
        &&& phase is Moved
        &&& unmodified(modifiers)
        &&& data.source is Touchpad ==> delta is PixelDelta && same_number(
            data.delta_x,
            delta->PixelDelta_0.x,
        ) && same_number(data.delta_y, delta->PixelDelta_0.y)
        &&& !(data.source is Touchpad) ==> delta == MouseScrollDelta::LineDelta(
            data.delta_x,
            data.delta_y,
        )
    }
}

/// The event tells a zoom: a turn by one line with the control key held, up for a scale
/// above one and down for any other.
pub open spec fn tells_zoom(event: WindowEvent, data: AxisEventData) -> bool {
    event matches WindowEvent::MouseWheel { device_id, delta, phase, modifiers } && {
        &&& device_id == DeviceId(0)
        &&& phase is Moved
        &&& modifiers.control && !modifiers.shift && !modifiers.alt && !modifiers.super_key
        &&& delta is LineDelta
        &&& delta->LineDelta_0.bits == 0
        &&& delta->LineDelta_1.bits == if 0x3f80_0000 < data.pinch_scale.bits <= 0x7f80_0000 {
            0x3f80_0000u32
        } else {
            0xbf80_0000u32
        }
    }
}

/// A turn of a wheel, a scroll or a pinch leads to a scroll event unless both deltas
/// are zero, and then to a zoom event unless the scale is zero or one.
pub proof fn lemma_axis_tells_scroll_then_zoom<T>(
    state: PlatformView,
    data: AxisEventData,
    calls: Seq<Event<T>>,
)
    requires
        is_dispatched(true, state, MainEvent::Input(InputEvent::Axis(data)), calls),
    ensures
        ({
            let scrolls = data.delta_x.bits % 0x8000_0000 != 0 || data.delta_y.bits % 0x8000_0000
                != 0;
            let zooms = data.pinch_scale.bits % 0x8000_0000 != 0 && data.pinch_scale.bits
                != 0x3f80_0000;
            &&& scrolls && zooms ==> tells(calls, 2) && tells_scroll(told(calls, 0), data)
                && tells_zoom(told(calls, 1), data)
            &&& scrolls && !zooms ==> tells(calls, 1) && tells_scroll(told(calls, 0), data)
            &&& !scrolls && zooms ==> tells(calls, 1) && tells_zoom(told(calls, 0), data)
            &&& !scrolls && !zooms ==> calls.len() == 0
        }),
{
    let events = main_events::<T>(state, MainEvent::Input(InputEvent::Axis(data)));
    lemma_calls_by_place(events);
    lemma_comparisons_by_bits(data.delta_x);
    lemma_comparisons_by_bits(data.delta_y);
    lemma_comparisons_by_bits(data.pinch_scale);
    lemma_widening_keeps_the_number(data.delta_x);
    lemma_widening_keeps_the_number(data.delta_y);
    assert(calls.len() > 0 ==> said(calls, 0) == events[0]);
    assert(calls.len() > 2 ==> said(calls, 1) == events[1]);
}

/// For each button that the system names, a press and a release lead to one event
/// each. The two name one button and differ in their state alone. A button that the
/// system does not name leads to none.
pub proof fn lemma_press_and_release_are_paired<T>(
    before_press: PlatformView,
    before_release: PlatformView,
    press: MouseEventData,
    release: MouseEventData,
    press_calls: Seq<Event<T>>,
    release_calls: Seq<Event<T>>,
)
    requires
        press.action is Press,
        release.action is Release,
        press.button == release.button,
        is_dispatched(true, before_press, MainEvent::Input(InputEvent::Mouse(press)), press_calls),
        is_dispatched(
            true,
            before_release,
            MainEvent::Input(InputEvent::Mouse(release)),
            release_calls,
        ),
    ensures
        press.button is NoButton || press.button is Unknown ==> press_calls.len() == 0
            && release_calls.len() == 0,
        !(press.button is NoButton || press.button is Unknown) ==> {
            &&& tells(press_calls, 1)
            &&& tells(release_calls, 1)
            &&& told(press_calls, 0) matches WindowEvent::MouseInput {
                device_id,
                state,
                button,
                modifiers,
            } && {
                &&& state is Pressed
                &&& device_id == DeviceId(0)
                &&& unmodified(modifiers)
                &&& button is Left <==> press.button is LeftButton
                &&& button is Right <==> press.button is RightButton
                &&& button is Middle <==> press.button is MiddleButton
                &&& button == MouseButton::Other(4) <==> press.button is BackButton
                &&& button == MouseButton::Other(5) <==> press.button is ForwardButton
                &&& told(release_calls, 0) == (WindowEvent::MouseInput {
                    device_id,
                    state: ElementState::Released,
                    button,
                    modifiers,
                })
            }
        },
{
    lemma_calls_by_place(
        main_events::<T>(before_press, MainEvent::Input(InputEvent::Mouse(press))),
    );
    lemma_calls_by_place(
        main_events::<T>(before_release, MainEvent::Input(InputEvent::Mouse(release))),
    );
    assert(press_calls.len() > 0 ==> said(press_calls, 0) is WindowEvent);
    assert(release_calls.len() > 0 ==> said(release_calls, 0) is WindowEvent);
}

/// A move is told with the place that the system reported, and the cursor is there
/// afterwards. The cursor enters and leaves as the system says.
pub proof fn lemma_moves_and_hovers_are_told<T>(
    state: PlatformView,
    data: MouseEventData,
    calls: Seq<Event<T>>,
)
    requires
        is_dispatched(true, state, MainEvent::Input(InputEvent::Mouse(data)), calls),
    ensures
        data.action is Move ==> {
            &&& tells(calls, 1)
            &&& told(calls, 0) matches WindowEvent::CursorMoved { device_id, position, modifiers }
                && {
                &&& device_id == DeviceId(0)
                &&& unmodified(modifiers)
                &&& same_number(data.x, position.x)
                &&& same_number(data.y, position.y)
                &&& state_after(state, MainEvent::Input(InputEvent::Mouse(data))).cursor
                    == position
            }
        },
        data.action is HoverEnter ==> tells(calls, 1) && told(calls, 0)
            == (WindowEvent::CursorEntered { device_id: DeviceId(0) }),
        data.action is HoverLeave ==> tells(calls, 1) && told(calls, 0)
            == (WindowEvent::CursorLeft { device_id: DeviceId(0) }),
        data.action is NoAction ==> calls.len() == 0,
        !(data.action is Move) ==> state_after(
            state,
            MainEvent::Input(InputEvent::Mouse(data)),
        ).cursor == state.cursor,
{
    lemma_calls_by_place(main_events::<T>(state, MainEvent::Input(InputEvent::Mouse(data))));
    lemma_widening_keeps_the_number(data.x);
    lemma_widening_keeps_the_number(data.y);
    assert(calls.len() > 0 ==> said(calls, 0) is WindowEvent);
}

/// The event for a finger says of it what the system reported: the number that tells
/// it from others, its place and how hard it presses, and the phase of the touch.
pub open spec fn tells_finger(event: WindowEvent, data: TouchEventData, i: int) -> bool {
    event matches WindowEvent::Touch(touch) && {
        &&& touch.phase is Started <==> data.action is Down
        &&& touch.phase is Moved <==> data.action is Move
        &&& touch.phase is Ended <==> data.action is Up
        &&& touch.phase is Cancelled <==> data.action is Cancel
        &&& same_number(data.points@[i].x, touch.location.x)
        &&& same_number(data.points@[i].y, touch.location.y)
        &&& touch.force matches Some(Force::Normalized(force)) && same_number(
            data.points@[i].force,
            force,
        )
        &&& (touch.id - data.points@[i].id) % 0x1_0000_0000_0000_0000 == 0
        &&& (touch.device_id.0 - data.device_id) % 0x1_0000_0000 == 0
    }
}

/// A touch is told finger by finger, in order; one of an unknown kind not at all.
pub proof fn lemma_touch_tells_each_finger<T>(
    state: PlatformView,
    data: TouchEventData,
    calls: Seq<Event<T>>,
)
    requires
        is_dispatched(true, state, MainEvent::Input(InputEvent::Touch(data)), calls),
    ensures
        data.action is Unknown ==> calls.len() == 0,
        !(data.action is Unknown) ==> tells(calls, data.points@.len()),
        !(data.action is Unknown) ==> forall|i: int|
            0 <= i < data.points@.len() ==> tells_finger(#[trigger] told(calls, i), data, i),
{
    let events = main_events::<T>(state, MainEvent::Input(InputEvent::Touch(data)));
    lemma_calls_by_place(events);
    if !(data.action is Unknown) {
        assert forall|i: int| 0 <= i < data.points@.len() implies tells_finger(
            #[trigger] told(calls, i),
            data,
            i,
        ) by {
            assert(said(calls, i) == events[i]);
            lemma_widening_keeps_the_number(data.points@[i].x);
            lemma_widening_keeps_the_number(data.points@[i].y);
            lemma_widening_keeps_the_number(data.points@[i].force);
            lemma_casts_keep_the_low_bits(data.points@[i].id, data.device_id);
        }
    }
}

/// The event says that the given key is pressed or released, once and by nobody.
pub open spec fn tells_key(event: WindowEvent, key: Key, code: KeyCode, down: bool) -> bool {
    event matches WindowEvent::KeyboardInput { device_id, event, is_synthetic } && {
        &&& device_id == DeviceId(0)
        &&& event.logical_key == key
        &&& event.physical_key == code
        &&& event.state is Pressed <==> down
        &&& event.location is Standard
        &&& event.text is None
        &&& !event.repeat
        &&& !is_synthetic
    }
}

/// The input method's text is passed on as it is. Its backspace and its enter, and the
/// hiding of the screen keyboard as an enter, are told as a key that is pressed and
/// then released, whatever else they say; other changes of the screen keyboard are not
/// told.
pub proof fn lemma_input_method_is_told<T>(
    state: PlatformView,
    event: ImeEvent,
    calls: Seq<Event<T>>,
)
    requires
        is_dispatched(true, state, MainEvent::Input(InputEvent::Ime(event)), calls),
    ensures
        event matches ImeEvent::TextInput(text) ==> tells(calls, 1) && told(calls, 0)
            == WindowEvent::ReceivedImeText(text),
        event is Backspace ==> tells(calls, 2) && tells_key(
            told(calls, 0),
            Key::Backspace,
            KeyCode::Backspace,
            true,
        ) && tells_key(told(calls, 1), Key::Backspace, KeyCode::Backspace, false),
        event is Enter || event == ImeEvent::Status(KeyboardStatus::Hide) ==> tells(calls, 2)
            && tells_key(told(calls, 0), Key::Enter, KeyCode::Enter, true) && tells_key(
            told(calls, 1),
            Key::Enter,
            KeyCode::Enter,
            false,
        ),
        event is Status && event != ImeEvent::Status(KeyboardStatus::Hide) ==> calls.len() == 0,
{
    let events = main_events::<T>(state, MainEvent::Input(InputEvent::Ime(event)));
    lemma_calls_by_place(events);
    assert(calls.len() > 0 ==> said(calls, 0) == events[0]);
    assert(calls.len() > 2 ==> said(calls, 1) == events[1]);
}

/// A size as an event tells it is the one that the system reported, a negative side
/// taken modulo 2^32.
pub open spec fn tells_size(event: WindowEvent, width: i32, height: i32) -> bool {
    event matches WindowEvent::Resized(size) && {
        &&& (size.width - width) % 0x1_0000_0000 == 0
        &&& (size.height - height) % 0x1_0000_0000 == 0
        &&& width >= 0 ==> size.width == width
        &&& height >= 0 ==> size.height == height
    }
}

/// Each new size, of the window or of its content, is told as it is.
pub proof fn lemma_sizes_are_told<T>(
    state: PlatformView,
    width: i32,
    height: i32,
    rect: Rect,
    resize_calls: Seq<Event<T>>,
    content_calls: Seq<Event<T>>,
)
    requires
        is_dispatched(true, state, MainEvent::WindowResize { width, height }, resize_calls),
        is_dispatched(true, state, MainEvent::ContentRectChange(rect), content_calls),
    ensures
        tells(resize_calls, 1),
        tells_size(told(resize_calls, 0), width, height),
        tells(content_calls, 1),
        tells_size(told(content_calls, 0), rect.width, rect.height),
{
    lemma_calls_by_place(main_events::<T>(state, MainEvent::WindowResize { width, height }));
    lemma_calls_by_place(main_events::<T>(state, MainEvent::ContentRectChange(rect)));
    lemma_casts_keep_the_low_bits(width, 0);
    lemma_casts_keep_the_low_bits(height, 0);
    lemma_casts_keep_the_low_bits(rect.width, 0);
    lemma_casts_keep_the_low_bits(rect.height, 0);
    assert(said(resize_calls, 0) is WindowEvent);
    assert(said(content_calls, 0) is WindowEvent);
}

/// A change of the configuration tells the scale that the system reports, and the size
/// that a change of the content alone would tell.
pub proof fn lemma_scale_is_told<T>(
    state: PlatformView,
    content_rect: Rect,
    scale: Float32,
    calls: Seq<Event<T>>,
    content_calls: Seq<Event<T>>,
)
    requires
        is_dispatched(true, state, MainEvent::ConfigChanged { content_rect, scale }, calls),
        is_dispatched(true, state, MainEvent::ContentRectChange(content_rect), content_calls),
    ensures
        tells(calls, 1),
        told(calls, 0) matches WindowEvent::ScaleFactorChanged { scale_factor, new_inner_size }
            && same_number(scale, scale_factor) && told(content_calls, 0) == WindowEvent::Resized(
            new_inner_size,
        ) && tells_size(
            WindowEvent::Resized(new_inner_size),
            content_rect.width,
            content_rect.height,
        ),
{
    lemma_calls_by_place(
        main_events::<T>(state, MainEvent::ConfigChanged { content_rect, scale }),
    );
    lemma_calls_by_place(main_events::<T>(state, MainEvent::ContentRectChange(content_rect)));
    lemma_widening_keeps_the_number(scale);
    lemma_casts_keep_the_low_bits(content_rect.width, 0);
    lemma_casts_keep_the_low_bits(content_rect.height, 0);
    assert(said(calls, 0) is WindowEvent);
    assert(said(content_calls, 0) is WindowEvent);
}

/// The calls tell one event that is about no window in particular.
pub open spec fn tells_only<T>(calls: Seq<Event<T>>, event: Event<T>) -> bool {
    calls.len() == 2 && calls[0] == event && calls[1] is MainEventsCleared
}

/// What becomes of the application is told in every state: its surface comes and goes,
/// it resumes, its window gains and loses the focus, is drawn and is closed, and the
/// loop ends. What the application cannot be told of leads to no call.
pub proof fn lemma_life_of_the_application_is_told<T>(
    state: PlatformView,
    event: MainEvent,
    calls: Seq<Event<T>>,
)
    requires
        is_dispatched(true, state, event, calls),
    ensures
        event is SurfaceCreate ==> calls.len() == 4 && calls[0] == Event::<T>::NewEvents(
            StartCause::Init,
        ) && calls[1] is MainEventsCleared && calls[2] is Resumed && calls[3] is MainEventsCleared,
        event is SurfaceDestroy ==> tells_only(calls, Event::Suspended),
        event is Start || event is Resume ==> tells_only(calls, Event::Resumed),
        event is Destroy ==> tells_only(calls, Event::LoopDestroyed),
        event is WindowRedraw ==> tells_only(calls, Event::RedrawRequested(WindowId)),
        event is GainedFocus ==> tells(calls, 1) && told(calls, 0) == WindowEvent::Focused(true)
            && state_after(state, event).has_focus,
        event is LostFocus ==> tells(calls, 1) && told(calls, 0) == WindowEvent::Focused(false)
            && !state_after(state, event).has_focus,
        event is WindowDestroy ==> tells(calls, 2) && told(calls, 0) is CloseRequested && told(
            calls,
            1,
        ) is Destroyed,
        event is SaveState || event is Pause || event is UserEvent || event is Other || event
            == MainEvent::Input(InputEvent::Unknown) ==> calls.len() == 0,
{
    let events = main_events::<T>(state, event);
    if !(event is NewWant) {
        lemma_calls_by_place(events);
        assert(calls.len() > 0 ==> said(calls, 0) == events[0]);
        assert(calls.len() > 2 ==> said(calls, 1) == events[1]);
    }
}

/// The application sees the focus as the handler was told of it, and the cursor where the
/// handler was told that it moved.
pub proof fn lemma_what_is_told_is_seen<T>(
    state: PlatformView,
    event: MainEvent,
    calls: Seq<Event<T>>,
)
    requires
        is_dispatched(true, state, event, calls),
    ensures
        event is GainedFocus || event is LostFocus ==> tells(calls, 1) && told(calls, 0)
            == WindowEvent::Focused(seen_focused(state_after(state, event))),
        event is GainedFocus ==> seen_focused(state_after(state, event)),
        event is LostFocus ==> !seen_focused(state_after(state, event)),
        event matches MainEvent::Input(InputEvent::Mouse(data)) && data.action is Move ==> {
            &&& tells(calls, 1)
            &&& told(calls, 0)->position == seen_cursor(state_after(state, event))
            &&& same_number(
                event->Input_0->Mouse_0.x,
                seen_cursor(state_after(state, event)).x,
            )
            &&& same_number(
                event->Input_0->Mouse_0.y,
                seen_cursor(state_after(state, event)).y,
            )
        },
{
    if let MainEvent::Input(InputEvent::Mouse(data)) = event {
        lemma_moves_and_hovers_are_told(state, data, calls);
    } else {
        lemma_life_of_the_application_is_told(state, event, calls);
    }
}

/// What the handler learns depends on the shared state for keys alone.
pub proof fn lemma_only_keys_depend_on_the_state<T>(
    a: PlatformView,
    b: PlatformView,
    event: MainEvent,
)
    ensures
        !(event matches MainEvent::Input(InputEvent::Key(_))) ==> main_events::<T>(a, event)
            == main_events::<T>(b, event),
        a.pressed_keys == b.pressed_keys ==> main_events::<T>(a, event) == main_events::<T>(
            b,
            event,
        ),
{
}

/// An event changes the focus, the cursor and the keys each by its own kind alone, and
/// of the keys only the one that it is about.
pub proof fn lemma_state_changes_by_its_own_event(state: PlatformView, event: MainEvent)
    ensures
        ({
            let after = state_after(state, event);
            &&& event is GainedFocus ==> after.has_focus
            &&& event is LostFocus ==> !after.has_focus
            &&& !(event is GainedFocus || event is LostFocus) ==> after.has_focus
                == state.has_focus
            &&& !(event matches MainEvent::Input(InputEvent::Mouse(_))) ==> after.cursor
                == state.cursor
            &&& !(event matches MainEvent::Input(InputEvent::Key(_))) ==> after.pressed_keys
                == state.pressed_keys
            &&& event matches MainEvent::Input(InputEvent::Key(data)) ==> {
                &&& data.action is Down ==> after.pressed_keys.contains(data.key)
                &&& data.action is Up ==> !after.pressed_keys.contains(data.key)
                &&& data.action is Unknown ==> after.pressed_keys == state.pressed_keys
                &&& forall|key: i32|
                    key != data.key ==> (#[trigger] after.pressed_keys.contains(key)
                        <==> state.pressed_keys.contains(key))
            }
            &&& after.ui_ability_created == state.ui_ability_created
        }),
{
}

/// Events that other threads sent are drained exactly where the system says that there
/// are some and a handler is there to get them.
pub proof fn lemma_draining_follows_a_wake(installed: bool, event: MainEvent)
    ensures
        drains(installed, event) ==> event is UserEvent && installed,
        event is UserEvent && installed ==> drains(installed, event),
{
}

/// The application is terminated exactly where the handler was told that the loop ends,
/// and with the code for success.
pub proof fn lemma_termination_follows_the_end<T>(installed: bool, exit: bool)
    ensures
        exit_code(installed, exit) is Some <==> closing_calls::<T>(installed, exit).len() > 0,
        exit_code(installed, exit) is Some <==> installed && exit,
        exit_code(installed, exit) matches Some(code) ==> code == 0,
        installed && exit ==> tells_only(closing_calls::<T>(installed, exit), Event::LoopDestroyed),
{
    lemma_calls_by_place(seq![Event::<T>::LoopDestroyed]);
    assert(said(handler_calls(seq![Event::<T>::LoopDestroyed]), 0) is LoopDestroyed);
}

} // verus!
