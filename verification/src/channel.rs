//! The channel over which other threads send events to the event loop.

use crate::inbox::Inbox;
use std::sync::mpsc::{Receiver, Sender, TryRecvError};
use vstd::prelude::*;

verus! {

/// The sending end of a channel of the standard library.
#[verifier::external_type_specification]
#[verifier::external_body]
#[verifier::reject_recursive_types(T)]
pub struct ExSender<T>(std::sync::mpsc::Sender<T>);

/// Calls `Sender::send`. Whether the value is taken depends on the receiving
/// end; a value that is not taken comes back.
#[verifier::external_body]
fn send<T>(sender: &Sender<T>, value: T) -> (r: Result<(), T>)
    ensures
        r is Err ==> r->Err_0 == value,
{
    sender.send(value).map_err(|e| e.0)
}

/// The value was handed to the channel, with the given outcome: a call of `send`
/// with this channel and this value returned it.
pub closed spec fn is_handed_over<T>(sender: Sender<T>, value: T, taken: Result<(), T>) -> bool {
    call_ensures(send::<T>, (&sender, value), taken)
}

/// A receiving end with room for one value that comes before all others.
#[verifier::reject_recursive_types(T)]
pub struct PeekableReceiver<T> {
    pub recv: Inbox<T>,
    pub first: Option<T>,
}

/// The result is the next one: the value that comes before all others, without
/// receiving, or else what one attempt to receive gave.
pub open spec fn is_next<T>(
    before: PeekableReceiver<T>,
    result: Result<T, TryRecvError>,
    after: PeekableReceiver<T>,
) -> bool {
    &&& after.first is None
    &&& after.recv.channel() == before.recv.channel()
    &&& match before.first {
        Some(first) => {
            &&& result == Ok::<T, TryRecvError>(first)
            &&& after.recv.results() == before.recv.results()
        },
        None => after.recv.results() == before.recv.results().push(result),
    }
}

impl<T> PeekableReceiver<T> {
    /// Receives from a channel, with no value before its own.
    pub fn from_recv(recv: Receiver<T>) -> (r: PeekableReceiver<T>)
        ensures
            r.recv.channel() == recv,
            r.recv.results() == Seq::<Result<T, TryRecvError>>::empty(),
            r.first is None,
    {
        PeekableReceiver { recv: Inbox::new(recv), first: None }
    }

    /// Takes the value that comes before all others, or else what is waiting on
    /// the channel.
    pub fn try_recv(&mut self) -> (r: Result<T, TryRecvError>)
        ensures
            is_next(*old(self), r, *final(self)),
    {
        if let Some(first) = self.first.take() {
            return Ok(first);
        }
        self.recv.receive()
    }
}

/// The results come one after another, each of them the next one.
pub open spec fn is_series<T>(
    receivers: Seq<PeekableReceiver<T>>,
    results: Seq<Result<T, TryRecvError>>,
) -> bool {
    &&& receivers.len() == results.len() + 1
    &&& forall|i: int|
        0 <= i < results.len() ==> #[trigger] is_next(receivers[i], results[i], receivers[i + 1])
}

/// What came out between two moments: the value that comes before all others, if
/// there was one and it is gone, then what the channel gave.
pub open spec fn came_out<T>(
    before: PeekableReceiver<T>,
    after: PeekableReceiver<T>,
) -> Seq<Result<T, TryRecvError>> {
    let received = after.recv.results().skip(before.recv.results().len() as int);
    if before.first is Some && after.first is None {
        seq![Ok::<T, TryRecvError>(before.first->Some_0)] + received
    } else {
        received
    }
}

/// The results are the value that comes before all others, if there is one, and
/// then exactly those that the channel gave, in order: none is lost and none is
/// made up.
pub proof fn lemma_results_are_those_of_the_channel<T>(
    receivers: Seq<PeekableReceiver<T>>,
    results: Seq<Result<T, TryRecvError>>,
)
    requires
        is_series(receivers, results),
    ensures
        results == came_out(receivers[0], receivers.last()),
        receivers[0].recv.results().is_prefix_of(receivers.last().recv.results()),
        receivers.last().recv.channel() == receivers[0].recv.channel(),
    decreases results.len(),
{
    let start = receivers[0].recv.results();
    let n = results.len() as int;
    if n == 0 {
        assert(results =~= came_out(receivers[0], receivers.last()));
    } else {
        let earlier = receivers.drop_last();
        assert forall|i: int| 0 <= i < n - 1 implies #[trigger] is_next(
            earlier[i],
            results.drop_last()[i],
            earlier[i + 1],
        ) by {
            assert(is_next(receivers[i], results[i], receivers[i + 1]));
        }
        lemma_results_are_those_of_the_channel(earlier, results.drop_last());
        assert(is_next(receivers[n - 1], results[n - 1], receivers[n]));
        if n > 1 {
            let k = n - 2;
            assert(is_next(receivers[k], results[k], receivers[k + 1]));
        }
        assert(results =~= results.drop_last().push(results.last()));
        assert(results =~= came_out(receivers[0], receivers.last()));
    }
}

/// A receiver that is made from a channel gives exactly the results that the
/// channel gives, in order, from the first one on.
pub proof fn lemma_from_recv_gives_what_the_channel_gives<T>(
    receivers: Seq<PeekableReceiver<T>>,
    results: Seq<Result<T, TryRecvError>>,
)
    requires
        is_series(receivers, results),
        receivers[0].first is None,
        receivers[0].recv.results() == Seq::<Result<T, TryRecvError>>::empty(),
    ensures
        receivers.last().recv.results() == results,
{
    lemma_results_are_those_of_the_channel(receivers, results);
    assert(receivers.last().recv.results().skip(0) =~= receivers.last().recv.results());
}

/// The event loop is gone; the event that it did not get comes back.
#[derive(Debug, PartialEq, Eq)]
pub struct EventLoopClosed<T>(pub T);

/// What sending an event came to.
#[derive(Debug, PartialEq, Eq)]
pub struct Sent<T> {
    pub result: Result<(), EventLoopClosed<T>>,
    /// Whether the event loop is to be woken.
    pub wake: bool,
}

/// Sends events to the event loop from any thread.
#[verifier::reject_recursive_types(T)]
pub struct EventLoopProxy<T> {
    pub user_events_sender: Sender<T>,
}

/// What sending an event comes to, given whether the channel took it: the event
/// loop is woken for an event that was taken, and one that was not comes back.
pub open spec fn sent<T>(taken: Result<(), T>) -> Sent<T> {
    match taken {
        Ok(_) => Sent { result: Ok(()), wake: true },
        Err(value) => Sent { result: Err(EventLoopClosed(value)), wake: false },
    }
}

/// The event loop is woken exactly for an event that the channel took; one that it did
/// not take comes back as it was.
pub proof fn lemma_loop_is_woken_for_what_was_taken<T>(taken: Result<(), T>)
    ensures
        sent(taken).wake <==> taken is Ok,
        sent(taken).result is Ok <==> taken is Ok,
        taken matches Err(value) ==> sent(taken).result->Err_0.0 == value,
{
}

/// What sending an event comes to, given whether the channel took it.
pub fn after_send<T>(taken: Result<(), T>) -> (r: Sent<T>)
    ensures
        r == sent(taken),
{
    match taken {
        Ok(_) => Sent { result: Ok(()), wake: true },
        Err(value) => Sent { result: Err(EventLoopClosed(value)), wake: false },
    }
}

impl<T> EventLoopProxy<T> {
    /// Sends an event to the event loop: hands it to the channel, and says whether
    /// the loop is to be woken for it.
    pub fn send_event(&self, event: T) -> (r: Sent<T>)
        ensures
            exists|taken: Result<(), T>|
                #[trigger] is_handed_over(self.user_events_sender, event, taken) && r == sent(taken),
            r == sent::<T>(Ok(())) || r == sent(Err(event)),
    {
        let hand_over = send::<T>;
        let taken = hand_over(&self.user_events_sender, event);
        assert(is_handed_over(self.user_events_sender, event, taken));
        after_send(taken)
    }
}

} // verus!
