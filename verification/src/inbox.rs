//! The receiving end of the channel, with a record of what it gave.

use std::sync::mpsc::{Receiver, TryRecvError};
use vstd::prelude::*;

verus! {

/// The receiving end of a channel of the standard library.
#[verifier::external_type_specification]
#[verifier::external_body]
#[verifier::reject_recursive_types(T)]
pub struct ExReceiver<T>(std::sync::mpsc::Receiver<T>);

/// Why nothing was received.
#[verifier::external_type_specification]
#[verifier::external_body]
pub struct ExTryRecvError(std::sync::mpsc::TryRecvError);

/// The receiving end of a channel. It keeps a record, for proofs alone, of the
/// result of each attempt to receive, in order. Nothing but `receive` adds to it.
#[verifier::reject_recursive_types(T)]
pub struct Inbox<T> {
    recv: Receiver<T>,
    record: Ghost<Seq<Result<T, TryRecvError>>>,
}

impl<T> Inbox<T> {
    /// The channel that is received from.
    pub closed spec fn channel(self) -> Receiver<T> {
        self.recv
    }

    /// The results of all attempts to receive, in order.
    pub closed spec fn results(self) -> Seq<Result<T, TryRecvError>> {
        self.record@
    }

    /// Receives from a channel. Nothing is received yet.
    pub fn new(recv: Receiver<T>) -> (r: Inbox<T>)
        ensures
            r.channel() == recv,
            r.results() == Seq::<Result<T, TryRecvError>>::empty(),
    {
        Inbox { recv, record: Ghost(Seq::empty()) }
    }

    /// Calls `Receiver::try_recv` once, which takes what is waiting on the channel,
    /// if anything is. The claim is that the record grows by what that call
    /// returned and by nothing else. What it returns depends on the threads that
    /// send, so nothing is said of it.
    #[verifier::external_body]
    pub(crate) fn receive(&mut self) -> (r: Result<T, TryRecvError>)
        ensures
            final(self).channel() == old(self).channel(),
            final(self).results() == old(self).results().push(r),
    {
        self.recv.try_recv()
    }
}

} // verus!
