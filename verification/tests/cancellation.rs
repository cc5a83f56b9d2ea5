//! The two halves of a cancellation, joined by a real channel.

use asyncio_bridge::cancel::{cancellation, Cancellable, Poll, PyDoneCallback};
use asyncio_bridge::interpreter::{Interpreter, Turn};
use asyncio_bridge::oneshot::{Listener, Signal};
use futures::channel::oneshot::channel;
use futures::task::noop_waker;
use pyo3::exceptions::{PyAttributeError, PyBaseException, PyKeyError};
use pyo3::types::PyDict;
use pyo3::{PyErr, PyObject, PyResult, Python};
use std::cell::RefCell;
use std::sync::atomic::{AtomicUsize, Ordering};
use std::sync::Arc;
use std::task::{Context, Wake};

fn python<T>(f: impl FnOnce(Python) -> T) -> T {
    pyo3::prepare_freethreaded_python();
    Python::with_gil(f)
}

/// Polls for a task that need not be woken.
fn poll(cancel: &mut Cancellable, future: Poll<PyResult<u8>>) -> Poll<PyResult<u8>> {
    let waker = noop_waker();
    cancel.poll(future, &mut Context::from_waker(&waker))
}

fn is_pending(poll: &Poll<PyResult<u8>>) -> bool {
    matches!(poll, Poll::Pending)
}

/// The message, if `poll` is a bare `BaseException`.
fn cancellation_message(poll: Poll<PyResult<u8>>) -> Option<String> {
    match poll {
        Poll::Ready(Err(e)) => python(|py| {
            let name = e.ptype(py).name().unwrap();
            assert_eq!(name, "BaseException");
            assert!(e.is_instance::<PyBaseException>(py));
            Some(e.pvalue(py).str().unwrap().extract::<String>().unwrap())
        }),
        _ => None,
    }
}

/// Python objects that answer whether they were cancelled.
fn answering(py: Python, answer: &str) -> PyObject {
    let names = PyDict::new(py);
    let code = format!(
        "
class Future:
    def cancelled(self):
        {}
future = Future()
",
        answer
    );
    py.run(&code, Some(names), None).unwrap();
    PyObject::from(names.get_item("future").unwrap())
}

#[test]
fn new_with_cancel_rx_listens() {
    let (_cancel_tx, cancel_rx) = channel();
    let cancel = Cancellable::new_with_cancel_rx(cancel_rx);
    assert!(cancel.poll_cancel_rx);
}

#[test]
fn waiting_future_stays_pending() {
    let (callback, mut cancel) = cancellation();
    assert!(callback.cancel_tx.is_some());
    assert!(is_pending(&poll(&mut cancel, Poll::Pending)));
    assert!(is_pending(&poll(&mut cancel, Poll::Pending)));
    assert!(cancel.poll_cancel_rx);
    drop(callback);
}

#[test]
fn law_cancelling_python_cancels_rust() {
    let (mut callback, mut cancel) = cancellation();
    assert!(is_pending(&poll(&mut cancel, Poll::Pending)));
    callback.done(true);
    assert!(callback.cancel_tx.is_none());
    let message = cancellation_message(poll(&mut cancel, Poll::Pending));
    assert_eq!(message, Some("unreachable".to_string()));
    assert!(!cancel.poll_cancel_rx);
}

#[test]
fn law_completion_does_not_cancel() {
    let (mut callback, mut cancel) = cancellation();
    callback.done(false);
    assert!(callback.cancel_tx.is_some());
    assert!(is_pending(&poll(&mut cancel, Poll::Pending)));
    assert!(cancel.poll_cancel_rx);
    drop(callback);
    assert!(is_pending(&poll(&mut cancel, Poll::Pending)));
    assert!(!cancel.poll_cancel_rx);
}

#[test]
fn law_poll_adds_only_cancellation() {
    // a future that is ready has the say, also over a cancellation
    let (mut callback, mut cancel) = cancellation();
    callback.done(true);
    assert!(matches!(poll(&mut cancel, Poll::Ready(Ok(7))), Poll::Ready(Ok(7))));
    assert!(cancel.poll_cancel_rx);
    let failed = poll(&mut cancel, Poll::Ready(Err(PyKeyError::new_err("own"))));
    match failed {
        Poll::Ready(Err(e)) => python(|py| assert!(e.is_instance::<PyKeyError>(py))),
        _ => panic!("the future's own error is gone"),
    }
}

#[test]
fn law_last_signal_is_final() {
    let (mut callback, mut cancel) = cancellation();
    callback.done(true);
    assert!(cancellation_message(poll(&mut cancel, Poll::Pending)).is_some());
    assert!(is_pending(&poll(&mut cancel, Poll::Pending)));
    assert!(is_pending(&poll(&mut cancel, Poll::Pending)));
    assert!(matches!(poll(&mut cancel, Poll::Ready(Ok(1))), Poll::Ready(Ok(1))));
    assert!(!cancel.poll_cancel_rx);
}

struct Woken(AtomicUsize);

impl Wake for Woken {
    fn wake(self: Arc<Self>) {
        self.0.fetch_add(1, Ordering::SeqCst);
    }
}

#[test]
fn cancellation_wakes_the_task_that_waits() {
    let woken = Arc::new(Woken(AtomicUsize::new(0)));
    let waker = woken.clone().into();
    let (mut callback, mut cancel) = cancellation();
    let waiting: Poll<PyResult<u8>> =
        cancel.poll(Poll::Pending, &mut Context::from_waker(&waker));
    assert!(is_pending(&waiting));
    assert_eq!(woken.0.load(Ordering::SeqCst), 0);
    callback.done(true);
    assert_eq!(woken.0.load(Ordering::SeqCst), 1);
}

#[test]
fn each_signal_has_its_effect() {
    let (_callback, mut cancel) = cancellation();
    let r: Poll<PyResult<u8>> = cancel.signalled(Signal::Pending);
    assert!(is_pending(&r));
    assert!(cancel.poll_cancel_rx);
    let r: Poll<PyResult<u8>> = cancel.signalled(Signal::Dropped);
    assert!(is_pending(&r));
    assert!(!cancel.poll_cancel_rx);

    let (_callback, mut cancel) = cancellation();
    let r: Poll<PyResult<u8>> = cancel.signalled(Signal::Sent);
    assert_eq!(cancellation_message(r), Some("unreachable".to_string()));
    assert!(!cancel.poll_cancel_rx);
}

#[test]
fn sending_to_a_future_that_is_gone_is_harmless() {
    let (mut callback, cancel) = cancellation();
    drop(cancel);
    callback.done(true);
    assert!(callback.cancel_tx.is_none());
}

#[test]
fn callback_sends_when_its_future_was_cancelled() {
    let (mut callback, mut cancel) = cancellation();
    python(|py| {
        let future = answering(py, "return True");
        let mut interpreter = Interpreter::new(py);
        let show = |_: Turn, _: PyErr| panic!("nothing to show");
        let called = callback.__call__(&mut interpreter, &future, &show).unwrap();
        assert_eq!(called, Some(()));
    });
    assert!(callback.cancel_tx.is_none());
    assert!(cancellation_message(poll(&mut cancel, Poll::Pending)).is_some());
}

#[test]
fn callback_keeps_quiet_when_its_future_was_not_cancelled() {
    let (mut callback, mut cancel) = cancellation();
    python(|py| {
        let future = answering(py, "return False");
        let mut interpreter = Interpreter::new(py);
        let show = |_: Turn, _: PyErr| panic!("nothing to show");
        let called = callback.__call__(&mut interpreter, &future, &show).unwrap();
        assert_eq!(called, Some(()));
    });
    assert!(callback.cancel_tx.is_some());
    assert!(is_pending(&poll(&mut cancel, Poll::Pending)));
}

#[test]
fn callback_shows_the_error_of_a_future_that_does_not_answer() {
    let (mut callback, mut cancel) = cancellation();
    python(|py| {
        let future = answering(py, "raise KeyError('no answer')");
        let shown: RefCell<Vec<PyErr>> = RefCell::new(vec![]);
        let show = |_: Turn, e: PyErr| shown.borrow_mut().push(e);
        let mut interpreter = Interpreter::new(py);
        let called = callback.__call__(&mut interpreter, &future, &show).unwrap();
        assert_eq!(called, Some(()));
        callback.__call__(&mut interpreter, &py.None(), &show).unwrap();
        assert_eq!(shown.borrow().len(), 2);
        assert!(shown.borrow()[0].is_instance::<PyKeyError>(py));
        assert!(shown.borrow()[1].is_instance::<PyAttributeError>(py));
    });
    assert!(callback.cancel_tx.is_some());
    assert!(is_pending(&poll(&mut cancel, Poll::Pending)));
}

#[test]
fn callback_without_a_sender_takes_other_news() {
    let mut callback = PyDoneCallback { cancel_tx: None };
    callback.done(false);
    assert!(callback.cancel_tx.is_none());
}

#[test]
fn law_no_cancellation_is_lost() {
    let (mut callback, mut cancel) = cancellation();
    callback.done(true);
    // a poll that does not need the signal leaves it in the channel
    assert!(matches!(poll(&mut cancel, Poll::Ready(Ok(2))), Poll::Ready(Ok(2))));
    assert!(matches!(poll(&mut cancel, Poll::Ready(Ok(3))), Poll::Ready(Ok(3))));
    // and the first one that does gets it
    assert!(cancellation_message(poll(&mut cancel, Poll::Pending)).is_some());
}

#[test]
fn listener_gives_a_signal_once() {
    let waker = noop_waker();
    let mut cx = Context::from_waker(&waker);
    let (cancel_tx, cancel_rx) = channel();
    let mut listener = Listener::new(cancel_rx);
    assert!(matches!(listener.poll(&mut cx), Signal::Pending));
    cancel_tx.send(()).unwrap();
    assert!(matches!(listener.poll(&mut cx), Signal::Sent));
    assert!(matches!(listener.poll(&mut cx), Signal::Dropped));
}

#[test]
fn used_up_callback_has_nothing_to_tell_with() {
    let mut callback = PyDoneCallback { cancel_tx: None };
    python(|py| {
        let show = |_: Turn, _: PyErr| panic!("nothing to show");
        let mut interpreter = Interpreter::new(py);
        let cancelled = answering(py, "return True");
        assert_eq!(callback.__call__(&mut interpreter, &cancelled, &show).unwrap(), None);
        let done = answering(py, "return False");
        assert_eq!(callback.__call__(&mut interpreter, &done, &show).unwrap(), Some(()));
    });
    assert!(callback.cancel_tx.is_none());
}

#[test]
fn law_without_cancellation_nothing_changes() {
    let (callback, mut cancel) = cancellation();
    assert!(is_pending(&poll(&mut cancel, Poll::Pending)));
    drop(callback);
    assert!(is_pending(&poll(&mut cancel, Poll::Pending)));
    assert!(is_pending(&poll(&mut cancel, Poll::Pending)));
    assert!(matches!(poll(&mut cancel, Poll::Ready(Ok(8))), Poll::Ready(Ok(8))));
}
