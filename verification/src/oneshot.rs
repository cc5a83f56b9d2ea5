//! The parts of `futures::channel::oneshot` that the library calls.
//!
//! The two halves of a channel are usually on different threads, so neither what a send nor what a
//! poll answers follows from the half at hand. The specifications below promise what holds of every
//! outcome, and contracts say with `call_ensures` which call was made.

use futures::channel::oneshot::{channel, Canceled, Receiver, Sender};
use std::future::Future;
use std::pin::Pin;
use std::task::Context;
use vstd::prelude::*;

verus! {

/// `futures::channel::oneshot::Sender`, the sending half of a channel.
#[verifier::external_type_specification]
#[verifier::external_body]
#[verifier::reject_recursive_types(T)]
pub struct ExSender<T>(Sender<T>);

/// `futures::channel::oneshot::Receiver`, the receiving half of a channel.
#[verifier::external_type_specification]
#[verifier::external_body]
#[verifier::reject_recursive_types(T)]
pub struct ExReceiver<T>(Receiver<T>);

/// `futures::channel::oneshot::Canceled`, the error of a receiver whose sender is gone.
#[verifier::external_type_specification]
#[verifier::external_body]
pub struct ExCanceled(Canceled);

/// `std::task::Context`, which holds the waker of the task that polls.
#[verifier::external_type_specification]
#[verifier::external_body]
pub struct ExContext<'a>(Context<'a>);

/// `oneshot::channel` makes a channel and gives its two halves. That what goes in at one comes out
/// at the other depends on when either is used, and is left unsaid.
pub assume_specification<T>[ channel::<T> ]() -> (r: (Sender<T>, Receiver<T>))
;

/// `Sender::send` consumes the sender. It hands the value back if it could not be sent. Whether it
/// can depends on whoever holds the receiver.
pub assume_specification<T>[ Sender::<T>::send ](tx: Sender<T>, t: T) -> (r: Result<(), T>)
    ensures
        r is Err ==> r->Err_0 == t,
;

/// What a receiver of cancellations has to say.
pub enum Signal {
    /// The cancellation was sent.
    Sent,
    /// The sender is gone and sent nothing.
    Dropped,
    /// Neither has happened yet.
    Pending,
}

/// `Receiver::poll` as a [`Signal`]. Where it is [`Signal::Pending`], the task of `cx` is woken when
/// that changes. The receiver stays that of the same channel and `cx` is only read. Which signal
/// comes is up to whoever holds the sender, so nothing is said of it.
#[verifier::external_body]
fn poll_receiver(rx: &mut Receiver<()>, cx: &mut Context<'_>) -> (r: Signal)
    ensures
        *final(rx) == *old(rx),
        *final(cx) == *old(cx),
{
    match Pin::new(rx).poll(cx) {
        std::task::Poll::Ready(Ok(())) => Signal::Sent,
        std::task::Poll::Ready(Err(_)) => Signal::Dropped,
        std::task::Poll::Pending => Signal::Pending,
    }
}

/// Polling `rx` for the task of `cx` gave `signal`.
pub closed spec fn receiver_polled(rx: Receiver<()>, cx: Context<'_>, signal: Signal) -> bool {
    exists|r: &mut Receiver<()>, c: &mut Context<'_>|
        *r == rx && *c == cx && #[trigger] call_ensures(poll_receiver, (r, c), signal)
}

/// A receiver of cancellations that keeps a record of the signals it has given.
///
/// A channel gives what was sent only once, so each poll counts. The receiver stays inside, so code
/// of other modules does not poll it without an entry in the record. That [`Listener::poll`] itself
/// polls once is plain from reading it. It is not proved: a poll leaves the receiver as it was.
pub struct Listener {
    rx: Receiver<()>,
    signals: Ghost<Seq<Signal>>,
}

impl Listener {
    /// The receiver.
    pub closed spec fn receiver(self) -> Receiver<()> {
        self.rx
    }

    /// The signals that polls of the receiver have given, oldest first.
    pub closed spec fn signals(self) -> Seq<Signal> {
        self.signals@
    }

    /// Listens to `rx` from now on.
    pub fn new(rx: Receiver<()>) -> (r: Self)
        ensures
            r.receiver() == rx,
            r.signals() == Seq::<Signal>::empty(),
    {
        Listener { rx, signals: Ghost(Seq::empty()) }
    }

    /// Polls the receiver once, for the task of `cx`.
    pub fn poll(&mut self, cx: &mut Context<'_>) -> (signal: Signal)
        ensures
            final(self).receiver() == old(self).receiver(),
            final(self).signals() == old(self).signals().push(signal),
            receiver_polled(old(self).receiver(), *old(cx), signal),
            *final(cx) == *old(cx),
    {
        let signal = poll_receiver(&mut self.rx, cx);
        self.signals = Ghost(self.signals@.push(signal));
        signal
    }
}

} // verus!
