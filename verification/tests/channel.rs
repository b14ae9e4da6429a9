use std::sync::mpsc;
use std::sync::mpsc::TryRecvError;
use tao_ohos::channel::{after_send, EventLoopClosed, EventLoopProxy, PeekableReceiver, Sent};
use tao_ohos::event::{Event, StartCause};
use tao_ohos::event_loop::{ControlFlow, EventLoop, MainEvent};
use tao_ohos::inbox::Inbox;
use tao_ohos::state::PlatformState;

#[test]
fn receives_in_order() {
    let (sender, receiver) = mpsc::channel();
    let mut receiver = PeekableReceiver::from_recv(receiver);
    assert_eq!(receiver.try_recv(), Err(TryRecvError::Empty));
    sender.send(1u32).unwrap();
    sender.send(2u32).unwrap();
    assert_eq!(receiver.try_recv(), Ok(1));
    assert_eq!(receiver.try_recv(), Ok(2));
    assert_eq!(receiver.try_recv(), Err(TryRecvError::Empty));
    drop(sender);
    assert_eq!(receiver.try_recv(), Err(TryRecvError::Disconnected));
}

#[test]
fn first_comes_before_the_channel() {
    let (sender, receiver) = mpsc::channel();
    sender.send(2u32).unwrap();
    let mut receiver = PeekableReceiver { recv: Inbox::new(receiver), first: Some(1) };
    assert_eq!(receiver.try_recv(), Ok(1));
    assert_eq!(receiver.first, None);
    assert_eq!(receiver.try_recv(), Ok(2));
}

#[test]
fn a_sent_event_wakes_the_loop() {
    let (sender, receiver) = mpsc::channel();
    let proxy = EventLoopProxy { user_events_sender: sender };
    let sent = proxy.send_event(7u32);
    assert_eq!(sent, Sent { result: Ok(()), wake: true });
    assert_eq!(receiver.recv(), Ok(7));
}

#[test]
fn an_event_for_a_closed_loop_comes_back() {
    let (sender, receiver) = mpsc::channel();
    drop(receiver);
    let proxy = EventLoopProxy { user_events_sender: sender };
    let sent = proxy.send_event(7u32);
    assert_eq!(sent, Sent { result: Err(EventLoopClosed(7)), wake: false });
    assert_eq!(sent, after_send(Err(7)));
}

#[test]
fn draining_takes_all_that_is_waiting() {
    let (sender, receiver) = mpsc::channel();
    let mut event_loop = EventLoop::new(PeekableReceiver::from_recv(receiver));
    assert_eq!(event_loop.run_return(), 0);
    for i in 0u32..3 {
        sender.send(i).unwrap();
    }
    let mut calls = Vec::new();
    loop {
        let step = event_loop.drain_step();
        if step.is_empty() {
            break;
        }
        calls.extend(step);
    }
    assert_eq!(
        calls,
        vec![
            Event::UserEvent(0),
            Event::MainEventsCleared,
            Event::UserEvent(1),
            Event::MainEventsCleared,
            Event::UserEvent(2),
            Event::MainEventsCleared,
        ]
    );
}

#[test]
fn nothing_is_drained_without_a_handler() {
    let (sender, receiver) = mpsc::channel();
    let mut event_loop = EventLoop::new(PeekableReceiver::from_recv(receiver));
    sender.send(1u32).unwrap();
    assert!(event_loop.drain_step().is_empty());
    event_loop.run_return();
    assert_eq!(
        event_loop.drain_step(),
        vec![Event::UserEvent(1), Event::MainEventsCleared]
    );
}

#[test]
fn calls_for_what_was_received() {
    let (_sender, receiver) = mpsc::channel::<u32>();
    let mut event_loop = EventLoop::new(PeekableReceiver::from_recv(receiver));
    assert!(event_loop.user_event_calls(Ok::<u32, ()>(4)).is_empty());
    event_loop.run_return();
    assert_eq!(
        event_loop.user_event_calls(Ok::<u32, ()>(4)),
        vec![Event::UserEvent(4), Event::MainEventsCleared]
    );
    assert!(event_loop.user_event_calls(Err::<u32, ()>(())).is_empty());
}

#[test]
fn a_receiver_gives_what_was_sent_before_it_was_made() {
    let (sender, receiver) = mpsc::channel();
    for i in 0u32..4 {
        sender.send(i).unwrap();
    }
    drop(sender);
    let mut receiver = PeekableReceiver::from_recv(receiver);
    let mut results = Vec::new();
    for _ in 0..6 {
        results.push(receiver.try_recv());
    }
    assert_eq!(
        results,
        vec![
            Ok(0),
            Ok(1),
            Ok(2),
            Ok(3),
            Err(TryRecvError::Disconnected),
            Err(TryRecvError::Disconnected),
        ]
    );
}

#[test]
fn events_sent_while_draining_are_drained_too() {
    let (sender, receiver) = mpsc::channel();
    let mut event_loop = EventLoop::new(PeekableReceiver::from_recv(receiver));
    event_loop.run_return();
    let proxy = EventLoopProxy { user_events_sender: sender };
    for i in 1u32..4 {
        assert_eq!(proxy.send_event(i).result, Ok(()));
    }
    let mut delivered = Vec::new();
    loop {
        let step = event_loop.drain_step();
        if step.is_empty() {
            break;
        }
        for call in step {
            if let Event::UserEvent(value) = call {
                if value < 3 {
                    proxy.send_event(value + 10);
                }
                delivered.push(value);
            }
        }
    }
    assert_eq!(delivered, vec![1, 2, 3, 11, 12]);
    assert!(event_loop.drain_step().is_empty());
}

#[test]
fn calls_of_a_draining() {
    let (_sender, receiver) = mpsc::channel::<u32>();
    let mut event_loop = EventLoop::new(PeekableReceiver::from_recv(receiver));
    let received = || vec![Ok(1), Ok(2), Ok(3), Err(()), Ok(4)];
    assert!(event_loop.drain_calls(received()).is_empty());
    event_loop.run_return();
    assert_eq!(
        event_loop.drain_calls(received()),
        vec![
            Event::UserEvent(1),
            Event::MainEventsCleared,
            Event::UserEvent(2),
            Event::MainEventsCleared,
            Event::UserEvent(3),
            Event::MainEventsCleared,
        ]
    );
    assert!(event_loop.drain_calls(vec![Err(()), Ok(5)]).is_empty());
    assert!(event_loop.drain_calls(Vec::<Result<u32, ()>>::new()).is_empty());
}

#[test]
fn one_control_flow_for_the_run() {
    let (sender, receiver) = mpsc::channel();
    let mut event_loop = EventLoop::new(PeekableReceiver::from_recv(receiver));
    event_loop.set_control_flow(ControlFlow::Wait);
    event_loop.run_return();
    assert_eq!(event_loop.control_flow(), ControlFlow::default());
    assert_eq!(ControlFlow::default(), ControlFlow::Poll);
    event_loop.set_control_flow(ControlFlow::Wait);
    sender.send(1u32).unwrap();
    event_loop.drain_step();
    assert_eq!(event_loop.control_flow(), ControlFlow::Wait);
    event_loop.set_control_flow(ControlFlow::ExitWithCode(3));
    assert_eq!(event_loop.control_flow(), ControlFlow::ExitWithCode(3));
    assert!(!event_loop.window_target().exit);
}

#[test]
fn a_whole_run_alternates() {
    let (sender, receiver) = mpsc::channel();
    let mut event_loop = EventLoop::new(PeekableReceiver::from_recv(receiver));
    event_loop.run_return();
    let mut state = PlatformState::new();
    let mut calls: Vec<Event<u32>> = Vec::new();
    sender.send(1).unwrap();
    sender.send(2).unwrap();
    let events = vec![
        MainEvent::SurfaceCreate,
        MainEvent::Pause,
        MainEvent::UserEvent,
        MainEvent::UserEvent,
        MainEvent::Start,
    ];
    let last = events.len() - 1;
    for (i, event) in events.into_iter().enumerate() {
        let dispatch = event_loop.dispatch(&mut state, event);
        calls.extend(dispatch.calls);
        while dispatch.drain {
            let step = event_loop.drain_step();
            if step.is_empty() {
                break;
            }
            calls.extend(step);
        }
        event_loop.window_target.exit = i == last;
        calls.extend(event_loop.after_dispatch().calls);
    }
    for (i, call) in calls.iter().enumerate() {
        assert_eq!(*call == Event::MainEventsCleared, i % 2 == 1);
    }
    let told: Vec<Event<u32>> = calls.into_iter().step_by(2).collect();
    assert_eq!(
        told,
        vec![
            Event::NewEvents(StartCause::Init),
            Event::Resumed,
            Event::UserEvent(1),
            Event::UserEvent(2),
            Event::Resumed,
            Event::LoopDestroyed,
        ]
    );
}
