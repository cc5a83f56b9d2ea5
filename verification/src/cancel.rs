//! Cancels a Rust future when the Python future that stands for it is cancelled.
//!
//! A channel joins the two: its sender goes into a callback that Python calls when its future is
//! done, its receiver goes along with the Rust future.

use crate::event_loop::{cancelled_or_show, cancelled_or_show_calls};
use crate::interpreter::{can_show, Interpreter, Turn};
use crate::oneshot::{receiver_polled, Listener, Signal};
use futures::channel::oneshot::{channel, Receiver, Sender};
use pyo3::exceptions::PyBaseException;
use pyo3::{PyErr, PyObject, PyResult};
use std::task::Context;
use vstd::prelude::*;

verus! {

/// The callback that Python calls when its future is done.
pub struct PyDoneCallback {
    /// Tells the Rust future that it is cancelled. It is used up by doing so.
    pub cancel_tx: Option<Sender<()>>,
}

impl PyDoneCallback {
    /// What the callback has done once it knows whether its future was cancelled: it has used up
    /// its sender to send the cancellation, or it is as before.
    pub open spec fn answered(self, before: Self, cancelled: bool) -> bool {
        if cancelled {
            &&& self.cancel_tx is None
            &&& exists|sent: Result<(), ()>| #[trigger]
                call_ensures(Sender::<()>::send, (before.cancel_tx->0, ()), sent)
        } else {
            self == before
        }
    }

    /// Takes the news whether the future was cancelled.
    pub fn done(&mut self, cancelled: bool)
        requires
            cancelled ==> old(self).cancel_tx is Some,
        ensures
            final(self).answered(*old(self), cancelled),
    {
        if cancelled {
            let cancel_tx = self.cancel_tx.take().unwrap();
            let _ = cancel_tx.send(());
        }
    }

    /// Called by Python when `fut` is done. Gives `None` if `fut` was cancelled and there is no
    /// sender left to tell the Rust future with.
    pub fn __call__<S: Fn(Turn, PyErr)>(
        &mut self,
        interpreter: &mut Interpreter<'_>,
        fut: &PyObject,
        show: &S,
    ) -> (r: PyResult<Option<()>>)
        requires
            can_show(*show),
        ensures
            final(interpreter).continues(*old(interpreter)),
            exists|cancelled: bool|
                {
                    &&& #[trigger] cancelled_or_show_calls(
                        final(interpreter).since(*old(interpreter)),
                        *fut,
                        *show,
                        cancelled,
                    )
                    &&& if cancelled && old(self).cancel_tx is None {
                        r == Ok::<Option<()>, PyErr>(None) && *final(self) == *old(self)
                    } else {
                        r == Ok::<Option<()>, PyErr>(Some(())) && final(self).answered(
                            *old(self),
                            cancelled,
                        )
                    }
                },
    {
        let cancelled = cancelled_or_show(interpreter, fut, show);
        if cancelled && self.cancel_tx.is_none() {
            return Ok(None);
        }
        self.done(cancelled);
        Ok(Some(()))
    }
}

/// Whether a future has completed.
pub enum Poll<T> {
    Ready(T),
    Pending,
}

/// The receiving half of the cancellation of a Rust future.
pub struct Cancellable {
    /// Gives the signal.
    pub cancel_rx: Listener,
    /// Whether a signal may still come.
    pub poll_cancel_rx: bool,
}

/// `r` is the result of a future that was cancelled.
///
/// The Python future has already been cancelled, so this result will never be used.
pub open spec fn is_cancellation<T>(r: PyResult<T>) -> bool {
    r is Err && call_ensures(
        PyBaseException::new_err::<&'static str>,
        ("unreachable",),
        r->Err_0,
    )
}

impl Cancellable {
    /// Listens to `cancel_rx`, and has not been polled yet.
    pub open spec fn is_new(self, cancel_rx: Receiver<()>) -> bool {
        &&& self.cancel_rx.receiver() == cancel_rx
        &&& self.cancel_rx.signals() == Seq::<Signal>::empty()
        &&& self.poll_cancel_rx
    }

    /// Listens to `cancel_rx`.
    pub fn new_with_cancel_rx(cancel_rx: Receiver<()>) -> (r: Self)
        ensures
            r.is_new(cancel_rx),
    {
        Cancellable { cancel_rx: Listener::new(cancel_rx), poll_cancel_rx: true }
    }

    /// A future that is not ready was given `signal`: a cancellation completes it, and a signal
    /// other than `Pending` is the last one.
    pub open spec fn took_signal<T>(
        self,
        before: Self,
        signal: Signal,
        r: Poll<PyResult<T>>,
    ) -> bool {
        &&& self.poll_cancel_rx == (before.poll_cancel_rx && signal is Pending)
        &&& match signal {
            Signal::Sent => r is Ready && is_cancellation(r->Ready_0),
            Signal::Dropped => r is Pending,
            Signal::Pending => r is Pending,
        }
    }

    /// What becomes of a future that is not ready, given the signal.
    pub fn signalled<T>(&mut self, signal: Signal) -> (r: Poll<PyResult<T>>)
        ensures
            final(self).cancel_rx == old(self).cancel_rx,
            final(self).took_signal(*old(self), signal, r),
    {
        match signal {
            Signal::Sent => {
                self.poll_cancel_rx = false;
                Poll::Ready(Err(PyBaseException::new_err("unreachable")))
            },
            Signal::Dropped => {
                self.poll_cancel_rx = false;
                Poll::Pending
            },
            Signal::Pending => Poll::Pending,
        }
    }

    /// A poll for the task of `cx`, on which polling the Rust future gave `future`, has given `r`.
    /// If the receiver was polled as well, it gave `signal`.
    ///
    /// A future that is ready has the say. Otherwise the receiver is polled once, as long as a
    /// signal may still come. It is not polled besides.
    pub open spec fn polled<T>(
        self,
        before: Self,
        future: Poll<PyResult<T>>,
        cx: Context<'_>,
        signal: Option<Signal>,
        r: Poll<PyResult<T>>,
    ) -> bool {
        if future is Ready || !before.poll_cancel_rx {
            signal is None && r == future && self == before
        } else {
            &&& signal is Some
            &&& receiver_polled(before.cancel_rx.receiver(), cx, signal->0)
            &&& self.cancel_rx.receiver() == before.cancel_rx.receiver()
            &&& self.cancel_rx.signals() == before.cancel_rx.signals().push(signal->0)
            &&& self.took_signal(before, signal->0, r)
        }
    }

    /// Turns what polling the Rust future gave into what polling the cancellable future gives.
    pub fn poll<T>(&mut self, future: Poll<PyResult<T>>, cx: &mut Context<'_>) -> (r: Poll<
        PyResult<T>,
    >)
        ensures
            exists|signal: Option<Signal>| #[trigger]
                final(self).polled(*old(self), future, *old(cx), signal, r),
            *final(cx) == *old(cx),
    {
        // First, the future itself
        if let Poll::Ready(v) = future {
            assert(self.polled(*old(self), future, *old(cx), None, Poll::Ready(v)));
            return Poll::Ready(v);
        }
        // Now check for cancellation
        if self.poll_cancel_rx {
            let signal = self.cancel_rx.poll(cx);
            let ghost given = signal;
            let r = self.signalled(signal);
            assert(self.polled(*old(self), future, *old(cx), Some(given), r));
            r
        } else {
            assert(self.polled(*old(self), future, *old(cx), None, Poll::<PyResult<T>>::Pending));
            Poll::Pending
        }
    }
}

/// Makes the two halves of a cancellation.
pub fn cancellation() -> (r: (PyDoneCallback, Cancellable))
    ensures
        r.0.cancel_tx is Some,
        r.1.is_new(r.1.cancel_rx.receiver()),
        call_ensures(channel::<()>, (), (r.0.cancel_tx->0, r.1.cancel_rx.receiver())),
{
    let (cancel_tx, cancel_rx) = channel();
    (
        PyDoneCallback { cancel_tx: Some(cancel_tx) },
        Cancellable::new_with_cancel_rx(cancel_rx),
    )
}

} // verus!
