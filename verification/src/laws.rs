//! What holds across many events, many windows and many requests.

use crate::address::{texts, url_parse};
use crate::channel::{came_out, PeekableReceiver};
use crate::dpi::{lemma_sides_are_kept, rect_size, Size};
use crate::event::{handler_calls, Event};
use crate::event_loop::{
    called, closing_calls, is_dispatched, is_draining, lemma_draining_delivers_what_came_out,
    main_events, running, state_after, ControlFlow, EventLoop, MainEvent,
};
use crate::float::Float64;
use crate::ids::WindowId;
use crate::input::{mouse_position, InputEvent, KeyAction, KeyEventData};
use crate::monitor::{
    display_known, display_size, monitor_at, on_display, AppSnapshot, MonitorHandle,
};
use crate::state::PlatformView;
use crate::theme::Theme;
use crate::window::{
    commands_for, created_after, is_planned, is_refused, planned_window, reachable,
    takes_container, window_after, OHOSWindowKind, PlatformSpecificWindowBuilderAttributes, Window,
    WindowAttributes, WindowCommand, WindowPlan, WindowRequest,
};
use vstd::prelude::*;
use vstd::std_specs::convert::FromSpec;

verus! {

/// The shared state after a series of events of the system.
pub open spec fn state_after_all(state: PlatformView, events: Seq<MainEvent>) -> PlatformView
    decreases events.len(),
{
    if events.len() == 0 {
        state
    } else {
        state_after(state_after_all(state, events.drop_last()), events.last())
    }
}

/// The event moves the cursor.
pub open spec fn moves_cursor(event: MainEvent) -> bool {
    event matches MainEvent::Input(InputEvent::Mouse(data)) && data.action is Move
}

/// The event gives or takes the focus.
pub open spec fn changes_focus(event: MainEvent) -> bool {
    event is GainedFocus || event is LostFocus
}

/// The event is the given action of the key.
pub open spec fn is_key_action(event: MainEvent, action: KeyAction, key: i32) -> bool {
    event matches MainEvent::Input(InputEvent::Key(data)) && data.action == action && data.key
        == key
}

/// The key went down at the given place in the series and did not go up since.
pub open spec fn held_since(events: Seq<MainEvent>, key: i32, i: int) -> bool {
    &&& 0 <= i < events.len()
    &&& is_key_action(events[i], KeyAction::Down, key)
    &&& forall|j: int|
        i < j < events.len() ==> !is_key_action(#[trigger] events[j], KeyAction::Up, key)
}

/// The key went down and did not go up since.
pub open spec fn is_held(events: Seq<MainEvent>, key: i32) -> bool {
    exists|i: int| #[trigger] held_since(events, key, i)
}

/// After each event the handler is told that the main events are cleared, and
/// before each such call there is an event.
pub proof fn lemma_each_event_is_followed_by_cleared<T>(
    state: PlatformView,
    event: MainEvent,
    calls: Seq<Event<T>>,
)
    requires
        is_dispatched(true, state, event, calls),
    ensures
        calls.len() % 2 == 0,
        forall|i: int| 0 <= i < calls.len() && i % 2 == 1 ==> #[trigger] calls[i] is MainEventsCleared,
        forall|i: int|
            0 <= i < calls.len() && i % 2 == 0 ==> !(#[trigger] calls[i] is MainEventsCleared),
        !(event is NewWant) ==> calls.len() == 2 * main_events::<T>(state, event).len(),
{
    assert(calls.len() % 2 == 0);
    assert forall|i: int| 0 <= i < calls.len() && i % 2 == 0 implies !(
    #[trigger] calls[i] is MainEventsCleared) by {
        if !(event is NewWant) {
            assert(calls[i] == main_events::<T>(state, event)[i / 2]);
        }
    }
}

/// One round of a run with a handler: what an event of the system leads to.
#[verifier::reject_recursive_types(T)]
pub struct Round<T> {
    /// The shared state before the round.
    pub state: PlatformView,
    pub event: MainEvent,
    /// The calls for the event itself.
    pub dispatched: Seq<Event<T>>,
    /// The receiver before each step of the draining and after the last.
    pub receivers: Seq<PeekableReceiver<T>>,
    /// The calls of each step of the draining.
    pub drained: Seq<Seq<Event<T>>>,
    /// Whether the loop is to end after the round.
    pub exit: bool,
    /// The calls that end the loop.
    pub closing: Seq<Event<T>>,
}

/// The parts of a round fit together: there is a draining exactly where other
/// threads sent events, and the loop is ended where it is to end.
pub open spec fn is_round<T>(round: Round<T>) -> bool {
    &&& is_dispatched(true, round.state, round.event, round.dispatched)
    &&& if round.event is UserEvent {
        is_draining(round.receivers, round.drained)
    } else {
        round.drained.len() == 0
    }
    &&& round.closing == closing_calls::<T>(true, round.exit)
}

/// The calls of a round, in order: those for the event itself, those of the
/// draining, and those that end the loop.
pub open spec fn round_calls<T>(round: Round<T>) -> Seq<Event<T>> {
    round.dispatched + round.drained.flatten() + round.closing
}

/// The calls of a run, round by round.
pub open spec fn run_calls<T>(rounds: Seq<Round<T>>) -> Seq<Event<T>>
    decreases rounds.len(),
{
    if rounds.len() == 0 {
        Seq::empty()
    } else {
        run_calls(rounds.drop_last()) + round_calls(rounds.last())
    }
}

/// Each event is followed by the call that says that the main events are cleared,
/// and there is no such call but those.
pub open spec fn alternates<T>(calls: Seq<Event<T>>) -> bool {
    &&& calls.len() % 2 == 0
    &&& forall|i: int|
        0 <= i < calls.len() ==> (#[trigger] calls[i] is MainEventsCleared <==> i % 2 == 1)
}

proof fn lemma_alternation_joins<T>(a: Seq<Event<T>>, b: Seq<Event<T>>)
    requires
        alternates(a),
        alternates(b),
    ensures
        alternates(a + b),
{
    assert forall|i: int| 0 <= i < (a + b).len() implies (#[trigger] (a + b)[i] is MainEventsCleared
        <==> i % 2 == 1) by {
        if i < a.len() {
            assert((a + b)[i] == a[i]);
        } else {
            assert((a + b)[i] == b[i - a.len()]);
        }
    }
}

/// In one round each event is followed by the call that says that the main events
/// are cleared.
pub proof fn lemma_round_alternates<T>(round: Round<T>)
    requires
        is_round(round),
    ensures
        alternates(round_calls(round)),
{
    lemma_each_event_is_followed_by_cleared(round.state, round.event, round.dispatched);
    if round.event is UserEvent {
        lemma_draining_delivers_what_came_out(round.receivers, round.drained);
        let out = came_out(round.receivers[0], round.receivers.last());
        let events = Seq::new((out.len() - 1) as nat, |i: int| Event::<T>::UserEvent(out[i]->Ok_0));
        let calls = round.drained.flatten();
        assert forall|i: int| 0 <= i < calls.len() implies (#[trigger] calls[i] is MainEventsCleared
            <==> i % 2 == 1) by {
            if i % 2 == 0 {
                assert(calls[i] == events[i / 2]);
            }
        }
    }
    assert(alternates(round.dispatched));
    assert(alternates(round.drained.flatten()));
    assert(alternates(round.closing));
    lemma_alternation_joins(round.dispatched, round.drained.flatten());
    lemma_alternation_joins(round.dispatched + round.drained.flatten(), round.closing);
}

/// Over a whole run each event is followed by the call that says that the main
/// events are cleared, and there is no such call but those.
pub proof fn lemma_run_alternates<T>(rounds: Seq<Round<T>>)
    requires
        forall|i: int| 0 <= i < rounds.len() ==> is_round(#[trigger] rounds[i]),
    ensures
        alternates(run_calls(rounds)),
    decreases rounds.len(),
{
    if rounds.len() > 0 {
        let before = rounds.drop_last();
        assert forall|i: int| 0 <= i < before.len() implies is_round(#[trigger] before[i]) by {
            assert(before[i] == rounds[i]);
        }
        lemma_run_alternates(before);
        assert(is_round(rounds[rounds.len() - 1]));
        lemma_round_alternates(rounds.last());
        lemma_alternation_joins(run_calls(before), round_calls(rounds.last()));
    }
}

/// In a round for events that other threads sent, the handler gets each value that
/// came out of the receiver, once and in order, and nothing before them.
pub proof fn lemma_wake_delivers_what_came_out<T>(round: Round<T>)
    requires
        is_round(round),
        round.event is UserEvent,
    ensures
        ({
            let out = came_out(round.receivers[0], round.receivers.last());
            &&& out.len() > 0
            &&& out.last() is Err
            &&& round_calls(round) == handler_calls(
                Seq::new((out.len() - 1) as nat, |i: int| Event::<T>::UserEvent(out[i]->Ok_0)),
            ) + round.closing
        }),
{
    lemma_draining_delivers_what_came_out(round.receivers, round.drained);
    assert(round.dispatched.len() == 0);
    assert(round.dispatched + round.drained.flatten() =~= round.drained.flatten());
}

/// Where the loop is to end, the handler learns it after all else of the round.
pub proof fn lemma_end_is_told_last<T>(round: Round<T>)
    requires
        is_round(round),
        round.exit,
    ensures
        round_calls(round) == round.dispatched + round.drained.flatten() + seq![
            Event::<T>::LoopDestroyed,
            Event::<T>::MainEventsCleared,
        ],
{
    assert(round.closing =~= seq![Event::<T>::LoopDestroyed, Event::<T>::MainEventsCleared]);
}

/// Without a handler nothing is called.
pub proof fn lemma_no_handler_no_calls<T>(
    state: PlatformView,
    event: MainEvent,
    calls: Seq<Event<T>>,
)
    requires
        is_dispatched(false, state, event, calls),
    ensures
        calls.len() == 0,
{
}

/// The event loop after a series of calls of the handler, given what each call
/// left.
pub open spec fn called_all<T>(event_loop: EventLoop<T>, left: Seq<ControlFlow>) -> EventLoop<T>
    decreases left.len(),
{
    if left.len() == 0 {
        event_loop
    } else {
        called(called_all(event_loop, left.drop_last()), left.last())
    }
}

/// One control flow serves the whole run: the first call of the handler finds the
/// default, and each later call what the call before it left. All calls share the
/// part of the loop that windows are made from.
pub proof fn lemma_one_control_flow_for_the_run<T>(
    event_loop: EventLoop<T>,
    left: Seq<ControlFlow>,
    i: int,
)
    requires
        0 <= i <= left.len(),
    ensures
        called_all(running(event_loop), left.take(i)).control_flow == if i == 0 {
            ControlFlow::Poll
        } else {
            left[i - 1]
        },
        called_all(running(event_loop), left.take(i)).window_target == event_loop.window_target,
        called_all(running(event_loop), left.take(i)).handler_installed,
    decreases i,
{
    if i > 0 {
        lemma_one_control_flow_for_the_run(event_loop, left, i - 1);
        assert(left.take(i).drop_last() =~= left.take(i - 1));
    }
}

/// Running the loop and calling the handler leave the receiver as it is.
pub proof fn lemma_calls_keep_the_receiver<T>(event_loop: EventLoop<T>, left: Seq<ControlFlow>)
    ensures
        called_all(running(event_loop), left).user_events_receiver
            == event_loop.user_events_receiver,
    decreases left.len(),
{
    if left.len() > 0 {
        lemma_calls_keep_the_receiver(event_loop, left.drop_last());
    }
}

/// Each new want opens the application, also where its address is empty or does
/// not parse; it brings at most one address, and none where it is empty.
pub proof fn lemma_new_want_always_opens<T>(
    state: PlatformView,
    uri: String,
    calls: Seq<Event<T>>,
)
    requires
        is_dispatched(true, state, MainEvent::NewWant { uri }, calls),
    ensures
        calls.len() == 2,
        calls[0] is Opened,
        calls[0]->urls@.len() <= 1,
        uri@.len() == 0 || url_parse(uri@) is None ==> calls[0]->urls@.len() == 0,
        uri@.len() > 0 && url_parse(uri@) is Some ==> calls[0]->urls@.len() == 1
            && calls[0]->urls@[0]@ == url_parse(uri@)->Some_0,
{
    let urls = calls[0]->urls@;
    assert(texts(urls).len() == urls.len());
    if urls.len() == 1 {
        assert(texts(urls)[0] == urls[0]@);
    }
}

/// The cursor is where the last move put it.
pub proof fn lemma_cursor_is_at_the_last_move(
    state: PlatformView,
    events: Seq<MainEvent>,
    i: int,
)
    requires
        0 <= i < events.len(),
        moves_cursor(events[i]),
        forall|j: int| i < j < events.len() ==> !moves_cursor(#[trigger] events[j]),
    ensures
        state_after_all(state, events).cursor == mouse_position(events[i]->Input_0->Mouse_0),
    decreases events.len(),
{
    if i < events.len() - 1 {
        let before = events.drop_last();
        assert forall|j: int| i < j < before.len() implies !moves_cursor(#[trigger] before[j]) by {
            assert(before[j] == events[j]);
        }
        lemma_cursor_is_at_the_last_move(state, before, i);
        assert(!moves_cursor(events[events.len() - 1]));
    }
}

/// Without a move the cursor stays where it was.
pub proof fn lemma_cursor_stays_without_a_move(state: PlatformView, events: Seq<MainEvent>)
    requires
        forall|j: int| 0 <= j < events.len() ==> !moves_cursor(#[trigger] events[j]),
    ensures
        state_after_all(state, events).cursor == state.cursor,
    decreases events.len(),
{
    if events.len() > 0 {
        let before = events.drop_last();
        assert forall|j: int| 0 <= j < before.len() implies !moves_cursor(#[trigger] before[j]) by {
            assert(before[j] == events[j]);
        }
        lemma_cursor_stays_without_a_move(state, before);
        assert(!moves_cursor(events[events.len() - 1]));
    }
}

/// The application has the focus if the last change of the focus gave it.
pub proof fn lemma_focus_is_as_last_changed(state: PlatformView, events: Seq<MainEvent>, i: int)
    requires
        0 <= i < events.len(),
        changes_focus(events[i]),
        forall|j: int| i < j < events.len() ==> !changes_focus(#[trigger] events[j]),
    ensures
        state_after_all(state, events).has_focus == events[i] is GainedFocus,
    decreases events.len(),
{
    if i < events.len() - 1 {
        let before = events.drop_last();
        assert forall|j: int| i < j < before.len() implies !changes_focus(#[trigger] before[j]) by {
            assert(before[j] == events[j]);
        }
        lemma_focus_is_as_last_changed(state, before, i);
        assert(!changes_focus(events[events.len() - 1]));
    }
}

/// Without a change of the focus it stays as it was.
pub proof fn lemma_focus_stays_unchanged(state: PlatformView, events: Seq<MainEvent>)
    requires
        forall|j: int| 0 <= j < events.len() ==> !changes_focus(#[trigger] events[j]),
    ensures
        state_after_all(state, events).has_focus == state.has_focus,
    decreases events.len(),
{
    if events.len() > 0 {
        let before = events.drop_last();
        assert forall|j: int| 0 <= j < before.len() implies !changes_focus(#[trigger] before[j]) by {
            assert(before[j] == events[j]);
        }
        lemma_focus_stays_unchanged(state, before);
        assert(!changes_focus(events[events.len() - 1]));
    }
}

/// From a state in which no key is down, the keys that are down are those that
/// went down and did not go up since.
pub proof fn lemma_keys_down_are_the_held_ones(
    state: PlatformView,
    events: Seq<MainEvent>,
    key: i32,
)
    requires
        state.pressed_keys == Set::<i32>::empty(),
    ensures
        state_after_all(state, events).pressed_keys.contains(key) <==> is_held(events, key),
    decreases events.len(),
{
    if events.len() > 0 {
        let before = events.drop_last();
        let last = events.last();
        let n = events.len() - 1;
        lemma_keys_down_are_the_held_ones(state, before, key);
        if is_key_action(last, KeyAction::Down, key) {
            assert(held_since(events, key, n));
        } else if is_key_action(last, KeyAction::Up, key) {
            assert forall|i: int| !#[trigger] held_since(events, key, i) by {
                if held_since(events, key, i) {
                    assert(i == n || is_key_action(events[n], KeyAction::Up, key));
                }
            }
        } else {
            if is_held(before, key) {
                let i = choose|i: int| held_since(before, key, i);
                assert forall|j: int| i < j < events.len() implies !is_key_action(
                    #[trigger] events[j],
                    KeyAction::Up,
                    key,
                ) by {
                    if j < n {
                        assert(before[j] == events[j]);
                    }
                }
                assert(held_since(events, key, i));
            }
            if is_held(events, key) {
                let i = choose|i: int| held_since(events, key, i);
                assert(i < n);
                assert forall|j: int| i < j < before.len() implies !is_key_action(
                    #[trigger] before[j],
                    KeyAction::Up,
                    key,
                ) by {
                    assert(before[j] == events[j]);
                }
                assert(held_since(before, key, i));
            }
        }
    }
}

/// The event for a key that goes down says that it repeats exactly where the key
/// went down before and did not go up since; any other key event never says so.
pub proof fn lemma_repeat_means_held<T>(
    state: PlatformView,
    events: Seq<MainEvent>,
    data: KeyEventData,
)
    requires
        state.pressed_keys == Set::<i32>::empty(),
    ensures
        main_events::<T>(
            state_after_all(state, events),
            MainEvent::Input(InputEvent::Key(data)),
        ).len() == 1,
        ({
            let event = main_events::<T>(
                state_after_all(state, events),
                MainEvent::Input(InputEvent::Key(data)),
            )[0];
            event->event->KeyboardInput_event.repeat <==> data.action is Down && is_held(
                events,
                data.key,
            )
        }),
{
    lemma_keys_down_are_the_held_ones(state, events, data.key);
}

/// Events do not change whether a window has the container.
pub proof fn lemma_events_leave_the_container(state: PlatformView, events: Seq<MainEvent>)
    ensures
        state_after_all(state, events).ui_ability_created == state.ui_ability_created,
    decreases events.len(),
{
    if events.len() > 0 {
        lemma_events_leave_the_container(state, events.drop_last());
    }
}

/// Whether a window has the container before the given place in a series of
/// windows that are asked for, none having it at the start.
pub open spec fn created_before(kinds: Seq<Option<OHOSWindowKind>>, i: int) -> bool
    decreases i,
{
    if i <= 0 {
        false
    } else {
        created_after(kinds[i - 1], created_before(kinds, i - 1))
    }
}

/// The window at the given place in the series gets the container.
pub open spec fn gets_container(kinds: Seq<Option<OHOSWindowKind>>, i: int) -> bool {
    &&& takes_container(kinds[i])
    &&& !is_refused(kinds[i], created_before(kinds, i))
}

proof fn lemma_container_stays_taken(kinds: Seq<Option<OHOSWindowKind>>, i: int, j: int)
    requires
        0 <= i < j,
        takes_container(kinds[i]),
    ensures
        created_before(kinds, j),
    decreases j,
{
    if i < j - 1 {
        lemma_container_stays_taken(kinds, i, j - 1);
    }
}

/// However windows are asked for, at most one gets the container of the ability.
pub proof fn lemma_at_most_one_window_gets_the_container(
    kinds: Seq<Option<OHOSWindowKind>>,
    i: int,
    j: int,
)
    requires
        0 <= i < j < kinds.len(),
        gets_container(kinds, i),
    ensures
        !gets_container(kinds, j),
{
    lemma_container_stays_taken(kinds, i, j);
}

/// Once a window has the container, each further window is refused unless a
/// floating one is asked for, also where no kind is; nothing else is refused.
pub proof fn lemma_only_another_main_window_is_refused(kind: Option<OHOSWindowKind>, created: bool)
    ensures
        is_refused(kind, created) <==> kind != Some(OHOSWindowKind::Float) && created,
{
}

/// A window that takes the container has the number 0; one that the system makes
/// has the number that the system returned, the decorations and the transparency
/// that were asked for.
pub proof fn lemma_new_window_is_as_asked(
    attributes: WindowAttributes,
    platform: PlatformSpecificWindowBuilderAttributes,
    plan: WindowPlan,
    returned: Option<i64>,
    client_ready: bool,
)
    requires
        is_planned(attributes, platform, plan),
    ensures
        planned_window(plan, returned, client_ready) is None <==> !takes_container(
            platform.window_kind,
        ) && returned is None,
        planned_window(plan, returned, client_ready) matches Some(window) ==> {
            &&& window.window_id == if takes_container(platform.window_kind) {
                Some(0i64)
            } else {
                returned
            }
            &&& window.decorations == attributes.decorations
            &&& window.transparent == attributes.transparent
            &&& !window.minimized
            &&& !window.maximized
            &&& window.theme is Light
        },
{
}

/// What is remembered of a window after a series of requests.
pub open spec fn window_after_all(window: Window, requests: Seq<WindowRequest>) -> Window
    decreases requests.len(),
{
    if requests.len() == 0 {
        window
    } else {
        window_after(window_after_all(window, requests.drop_last()), requests.last())
    }
}

/// The number of the window that a command is for.
pub open spec fn addressee(command: WindowCommand) -> i64 {
    match command {
        WindowCommand::Resize { window_id, .. } => window_id,
        WindowCommand::MoveTo { window_id, .. } => window_id,
        WindowCommand::Restore { window_id } => window_id,
        WindowCommand::Show { window_id } => window_id,
        WindowCommand::Minimize { window_id } => window_id,
        WindowCommand::Maximize { window_id } => window_id,
        WindowCommand::Recover { window_id } => window_id,
        WindowCommand::Focus { window_id } => window_id,
        WindowCommand::SetFocusable { window_id, .. } => window_id,
        WindowCommand::SetFullscreen { window_id, .. } => window_id,
        WindowCommand::SetDecorations { window_id, .. } => window_id,
        WindowCommand::SetTouchable { window_id, .. } => window_id,
        WindowCommand::SetBackgroundColor { window_id, .. } => window_id,
    }
}

/// Whether a window is minimized after a request that says so.
pub open spec fn says_minimized(request: WindowRequest) -> Option<bool> {
    match request {
        WindowRequest::SetVisible(visible) => Some(!visible),
        WindowRequest::SetMinimized(minimized) => Some(minimized),
        _ => None,
    }
}

/// Whether a window is maximized after a request that says so.
pub open spec fn says_maximized(request: WindowRequest) -> Option<bool> {
    match request {
        WindowRequest::SetMaximized(maximized) => Some(maximized),
        WindowRequest::SetFullscreen(on) => Some(on),
        _ => None,
    }
}

/// Whether a window is decorated after a request that says so.
pub open spec fn says_decorated(request: WindowRequest) -> Option<bool> {
    match request {
        WindowRequest::SetDecorations(decorations) => Some(decorations),
        _ => None,
    }
}

/// The theme after a request that says one.
pub open spec fn says_theme(request: WindowRequest) -> Option<Theme> {
    match request {
        WindowRequest::SetTheme(Some(theme)) => Some(theme),
        WindowRequest::SetTheme(None) => Some(Theme::Light),
        _ => None,
    }
}

/// No request changes the number of a window, its transparency, or whether it
/// can be reached.
pub proof fn lemma_requests_keep_what_is_fixed(window: Window, requests: Seq<WindowRequest>)
    ensures
        window_after_all(window, requests).window_id == window.window_id,
        window_after_all(window, requests).transparent == window.transparent,
        window_after_all(window, requests).client_ready == window.client_ready,
        reachable(window_after_all(window, requests)) == reachable(window),
    decreases requests.len(),
{
    if requests.len() > 0 {
        lemma_requests_keep_what_is_fixed(window, requests.drop_last());
    }
}

/// A window that can be reached is minimized as the last request to minimize,
/// restore, show or hide it says.
pub proof fn lemma_minimized_as_last_said(window: Window, requests: Seq<WindowRequest>, i: int)
    requires
        reachable(window) is Some,
        0 <= i < requests.len(),
        says_minimized(requests[i]) is Some,
        forall|j: int| i < j < requests.len() ==> says_minimized(#[trigger] requests[j]) is None,
    ensures
        window_after_all(window, requests).minimized == says_minimized(requests[i])->Some_0,
    decreases requests.len(),
{
    let before = requests.drop_last();
    lemma_requests_keep_what_is_fixed(window, before);
    if i < requests.len() - 1 {
        assert forall|j: int| i < j < before.len() implies says_minimized(
            #[trigger] before[j],
        ) is None by {
            assert(before[j] == requests[j]);
        }
        lemma_minimized_as_last_said(window, before, i);
        assert(says_minimized(requests[requests.len() - 1]) is None);
    }
}

/// A window is maximized as the last request to maximize or recover it, to fill
/// the display or to undo that says.
pub proof fn lemma_maximized_as_last_said(window: Window, requests: Seq<WindowRequest>, i: int)
    requires
        0 <= i < requests.len(),
        says_maximized(requests[i]) is Some,
        forall|j: int| i < j < requests.len() ==> says_maximized(#[trigger] requests[j]) is None,
    ensures
        window_after_all(window, requests).maximized == says_maximized(requests[i])->Some_0,
    decreases requests.len(),
{
    if i < requests.len() - 1 {
        let before = requests.drop_last();
        assert forall|j: int| i < j < before.len() implies says_maximized(
            #[trigger] before[j],
        ) is None by {
            assert(before[j] == requests[j]);
        }
        lemma_maximized_as_last_said(window, before, i);
        assert(says_maximized(requests[requests.len() - 1]) is None);
    }
}

/// A window is decorated as the last request says.
pub proof fn lemma_decorated_as_last_said(window: Window, requests: Seq<WindowRequest>, i: int)
    requires
        0 <= i < requests.len(),
        says_decorated(requests[i]) is Some,
        forall|j: int| i < j < requests.len() ==> says_decorated(#[trigger] requests[j]) is None,
    ensures
        window_after_all(window, requests).decorations == says_decorated(requests[i])->Some_0,
    decreases requests.len(),
{
    if i < requests.len() - 1 {
        let before = requests.drop_last();
        assert forall|j: int| i < j < before.len() implies says_decorated(
            #[trigger] before[j],
        ) is None by {
            assert(before[j] == requests[j]);
        }
        lemma_decorated_as_last_said(window, before, i);
        assert(says_decorated(requests[requests.len() - 1]) is None);
    }
}

/// A window has the theme that was last asked for, the light one where none was
/// named.
pub proof fn lemma_theme_as_last_said(window: Window, requests: Seq<WindowRequest>, i: int)
    requires
        0 <= i < requests.len(),
        says_theme(requests[i]) is Some,
        forall|j: int| i < j < requests.len() ==> says_theme(#[trigger] requests[j]) is None,
    ensures
        window_after_all(window, requests).theme == says_theme(requests[i])->Some_0,
    decreases requests.len(),
{
    if i < requests.len() - 1 {
        let before = requests.drop_last();
        assert forall|j: int| i < j < before.len() implies says_theme(
            #[trigger] before[j],
        ) is None by {
            assert(before[j] == requests[j]);
        }
        lemma_theme_as_last_said(window, before, i);
        assert(says_theme(requests[requests.len() - 1]) is None);
    }
}

/// A window that cannot be reached gets no commands.
pub proof fn lemma_no_bridge_no_commands(window: Window, request: WindowRequest)
    requires
        reachable(window) is None,
    ensures
        commands_for(window, request).len() == 0,
{
}

/// Each command for a window is addressed to it.
pub proof fn lemma_commands_are_addressed_to_the_window(
    window: Window,
    request: WindowRequest,
    i: int,
)
    requires
        0 <= i < commands_for(window, request).len(),
    ensures
        window.window_id == Some(addressee(commands_for(window, request)[i])),
{
}

/// The focus of the main window is left to the system.
pub proof fn lemma_focus_of_the_main_window_is_left_alone(window: Window, request: WindowRequest)
    requires
        window.window_id == Some(0i64),
    ensures
        forall|i: int|
            0 <= i < commands_for(window, request).len() ==> {
                &&& !(#[trigger] commands_for(window, request)[i] is Focus)
                &&& !(commands_for(window, request)[i] is SetFocusable)
            },
{
}

/// A transparent window keeps its background, whatever is asked of it.
pub proof fn lemma_transparent_window_keeps_its_background(
    window: Window,
    requests: Seq<WindowRequest>,
    request: WindowRequest,
)
    requires
        window.transparent,
    ensures
        ({
            let commands = commands_for(window_after_all(window, requests), request);
            forall|i: int|
                0 <= i < commands.len() ==> !(#[trigger] commands[i] is SetBackgroundColor)
        }),
{
    lemma_requests_keep_what_is_fixed(window, requests);
}

/// Saving the size of a window and setting it again asks for the size that the
/// window has.
pub proof fn lemma_saved_size_is_restored(window: Window, app: AppSnapshot)
    requires
        reachable(window) is Some,
        app.window_rect.width >= 0,
        app.window_rect.height >= 0,
    ensures
        commands_for(
            window,
            WindowRequest::SetInnerSize(Size::Physical(rect_size(app.window_rect))),
        ) == seq![
            WindowCommand::Resize {
                window_id: reachable(window)->Some_0,
                width: app.window_rect.width as i64,
                height: app.window_rect.height as i64,
            },
        ],
{
    lemma_sides_are_kept(app.window_rect);
}

/// A display that is found at a point is the main display, and it is found
/// exactly where the point is on it. Where the system does not tell its size no
/// point is.
pub proof fn lemma_display_at_a_point(app: AppSnapshot, x: Float64, y: Float64)
    ensures
        monitor_at(app, x, y) is Some <==> on_display(app, x, y),
        monitor_at(app, x, y) matches Some(monitor) ==> monitor == (MonitorHandle { app }),
        !display_known(app) ==> monitor_at(app, x, y) is None,
        monitor_at(app, x, y) is Some ==> x.in_range(display_size(app).width) && y.in_range(
            display_size(app).height,
        ),
{
}

/// All windows have one identifier, and it is the number 0.
pub proof fn lemma_windows_share_one_identifier(a: WindowId, b: WindowId, number: u64)
    ensures
        a == b,
        <u64 as FromSpec<WindowId>>::from_spec(a) == 0,
        <WindowId as FromSpec<u64>>::from_spec(number) == a,
{
}

} // verus!
