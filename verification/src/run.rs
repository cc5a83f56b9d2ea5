//! Drives Rust futures to completion on a Python event loop.
//!
//! The predicates named `.._calls` say what is done, in that order and nothing else, and what `r` is
//! then.

use crate::cancel::PyDoneCallback;
use crate::convert::{
    can_start, can_wrap, future_into_py_with_loop, future_into_py_with_loop_calls,
};
use crate::delivery::{Supervisor, Worker};
use crate::event_loop::{answer, asked, call_module, call_module_calls, close, close_calls};
use crate::interpreter::{taken, Call, Interpreter, Request, Turn};
use crate::runtime::ContextExt;
use pyo3::{PyErr, PyObject, PyResult};
use std::future::Future;
use vstd::prelude::*;

verus! {

/// Where the value of a Rust future waits until the event loop has stopped.
pub struct ResultSlot<T> {
    value: Option<T>,
}

impl<T> View for ResultSlot<T> {
    type V = Option<T>;

    closed spec fn view(&self) -> Option<T> {
        self.value
    }
}

impl<T> ResultSlot<T> {
    /// The slot is `before` after a future has come to `outcome`.
    pub open spec fn kept<E>(self, before: Self, outcome: Result<T, E>) -> bool {
        match outcome {
            Ok(val) => self@ == Some(val),
            Err(_) => self == before,
        }
    }

    /// An empty slot.
    pub fn new() -> (r: Self)
        ensures
            r@ is None,
    {
        ResultSlot { value: None }
    }

    /// Puts the value of a future that has succeeded into the slot, if it can be reached. Python
    /// learns only whether the future succeeded, and with which error it failed.
    pub fn keep<E>(slot: Option<&mut Self>, outcome: Result<T, E>) -> (r: Result<(), E>)
        ensures
            r == (match outcome {
                Ok(_) => Ok(()),
                Err(e) => Err(e),
            }),
            slot is Some ==> final(slot->0).kept(*old(slot->0), outcome),
    {
        match outcome {
            Ok(val) => {
                if let Some(slot) = slot {
                    slot.value = Some(val);
                }
                Ok(())
            },
            Err(e) => Err(e),
        }
    }

    /// Takes what is in the slot.
    pub fn take(&mut self) -> (r: Option<T>)
        ensures
            r == old(self)@,
            final(self)@ is None,
    {
        self.value.take()
    }
}

/// `take` may be called once the loop has run.
pub open spec fn can_take<K: FnOnce(Turn) -> Option<T>, T>(take: K) -> bool {
    forall|turn: Turn| #[trigger] call_requires(take, (turn,))
}

/// The future is converted with [`future_into_py_with_loop_calls`]. The event loop runs until the
/// Python future is done, then the value is taken.
pub open spec fn run_until_complete_calls<R, W, M, F, K, T>(
    calls: Seq<Call>,
    event_loop: PyObject,
    wrap: W,
    task: M,
    take: K,
    r: PyResult<Option<T>>,
) -> bool where
    R: ContextExt,
    W: FnOnce(Turn, PyDoneCallback) -> PyObject,
    M: FnOnce(Turn, Worker, Supervisor) -> F,
    F: Future<Output = ()> + Send + 'static,
    K: FnOnce(Turn) -> Option<T>,
 {
    exists|first: Seq<Call>, rest: Seq<Call>, coro: PyResult<PyObject>|
        {
            &&& calls == #[trigger] (first + rest)
            &&& #[trigger] future_into_py_with_loop_calls::<R, W, M, F>(
                first,
                event_loop,
                wrap,
                task,
                coro,
            )
            &&& match coro {
                Err(e) => rest.len() == 0 && r == Err::<Option<T>, PyErr>(e),
                Ok(coro) => run_loop_calls(rest, event_loop, coro, take, r),
            }
        }
}

/// The part of [`run_until_complete_calls`] after the future was converted into `coro`.
pub open spec fn run_loop_calls<K: FnOnce(Turn) -> Option<T>, T>(
    calls: Seq<Call>,
    event_loop: PyObject,
    coro: PyObject,
    take: K,
    r: PyResult<Option<T>>,
) -> bool {
    &&& asked(calls, 0, Request::CallMethod1(event_loop, "run_until_complete", coro))
    &&& match answer(calls, 0) {
        Err(e) => calls.len() == 1 && r == Err::<Option<T>, PyErr>(e),
        Ok(_) => {
            &&& calls.len() == 2
            &&& calls[1] is Take
            &&& r is Ok
            &&& taken(take, r->Ok_0)
        },
    }
}

/// Run the event loop until the given Future completes
///
/// After this function returns, the event loop can be resumed with [`run_until_complete`]
///
/// # Arguments
/// * `interpreter` - The interpreter
/// * `event_loop` - The Python event loop that should run the future
/// * `wrap` - Makes a Python callable of the callback to add to the Python future
/// * `task` - Makes the task that runs the Rust future, which leaves its value in a [`ResultSlot`]
/// * `take` - Takes the value, if the future has left one
pub fn run_until_complete<R, W, M, F, K, T>(
    interpreter: &mut Interpreter<'_>,
    event_loop: &PyObject,
    wrap: W,
    task: M,
    take: K,
) -> (r: PyResult<Option<T>>) where
    R: ContextExt,
    W: FnOnce(Turn, PyDoneCallback) -> PyObject,
    M: FnOnce(Turn, Worker, Supervisor) -> F,
    F: Future<Output = ()> + Send + 'static,
    K: FnOnce(Turn) -> Option<T>,

    requires
        can_wrap(wrap),
        can_start(task),
        can_take(take),
    ensures
        final(interpreter).continues(*old(interpreter)),
        run_until_complete_calls::<R, W, M, F, K, T>(
            final(interpreter).since(*old(interpreter)),
            *event_loop,
            wrap,
            task,
            take,
            r,
        ),
{
    broadcast use Interpreter::lemma_then;

    let ghost start = *interpreter;
    match future_into_py_with_loop::<R, W, M, F>(interpreter, event_loop.clone(), wrap, task) {
        Err(e) => {
            proof {
                let calls = interpreter.since(start);
                assert(calls == calls + Seq::<Call>::empty());
            }
            Err(e)
        },
        Ok(coro) => {
            let ghost converted = *interpreter;
            let r = match interpreter.call_method1(event_loop, "run_until_complete", coro) {
                Err(e) => Err(e),
                Ok(_) => Ok(interpreter.take(take)),
            };
            proof {
                let rest = interpreter.since(converted);
                assert(run_loop_calls(rest, *event_loop, coro, take, r));
                assert(interpreter.since(start) == converted.since(start) + rest);
            }
            r
        },
    }
}

/// A loop is opened, the future runs on it, and the loop is closed, whether the future succeeded or
/// not.
pub open spec fn run_calls<R, W, M, F, K, T>(
    calls: Seq<Call>,
    wrap: W,
    task: M,
    take: K,
    r: PyResult<Option<T>>,
) -> bool where
    R: ContextExt,
    W: FnOnce(Turn, PyDoneCallback) -> PyObject,
    M: FnOnce(Turn, Worker, Supervisor) -> F,
    F: Future<Output = ()> + Send + 'static,
    K: FnOnce(Turn) -> Option<T>,
 {
    exists|first: Seq<Call>, rest: Seq<Call>, opened: PyResult<PyObject>|
        {
            &&& calls == #[trigger] (first + rest)
            &&& #[trigger] call_module_calls(first, "asyncio", "new_event_loop", opened)
            &&& match opened {
                Err(e) => rest.len() == 0 && r == Err::<Option<T>, PyErr>(e),
                Ok(event_loop) => run_and_close_calls::<R, W, M, F, K, T>(
                    rest,
                    event_loop,
                    wrap,
                    task,
                    take,
                    r,
                ),
            }
        }
}

/// The part of [`run_calls`] after the loop was opened.
pub open spec fn run_and_close_calls<R, W, M, F, K, T>(
    calls: Seq<Call>,
    event_loop: PyObject,
    wrap: W,
    task: M,
    take: K,
    r: PyResult<Option<T>>,
) -> bool where
    R: ContextExt,
    W: FnOnce(Turn, PyDoneCallback) -> PyObject,
    M: FnOnce(Turn, Worker, Supervisor) -> F,
    F: Future<Output = ()> + Send + 'static,
    K: FnOnce(Turn) -> Option<T>,
 {
    exists|first: Seq<Call>, last: Seq<Call>, result: PyResult<Option<T>>, closed: PyResult<()>|
        {
            &&& calls == #[trigger] (first + last)
            &&& #[trigger] run_until_complete_calls::<R, W, M, F, K, T>(
                first,
                event_loop,
                wrap,
                task,
                take,
                result,
            )
            &&& #[trigger] close_calls(last, event_loop, closed)
            &&& r == (match closed {
                Err(e) => Err(e),
                Ok(()) => result,
            })
        }
}

/// Run the event loop until the given Future completes
///
/// # Arguments
/// * `interpreter` - The interpreter
/// * `wrap` - Makes a Python callable of the callback to add to the Python future
/// * `task` - Makes the task that runs the Rust future, which leaves its value in a [`ResultSlot`]
/// * `take` - Takes the value, if the future has left one
pub fn run<R, W, M, F, K, T>(
    interpreter: &mut Interpreter<'_>,
    wrap: W,
    task: M,
    take: K,
) -> (r: PyResult<Option<T>>) where
    R: ContextExt,
    W: FnOnce(Turn, PyDoneCallback) -> PyObject,
    M: FnOnce(Turn, Worker, Supervisor) -> F,
    F: Future<Output = ()> + Send + 'static,
    K: FnOnce(Turn) -> Option<T>,

    requires
        can_wrap(wrap),
        can_start(task),
        can_take(take),
    ensures
        final(interpreter).continues(*old(interpreter)),
        run_calls::<R, W, M, F, K, T>(
            final(interpreter).since(*old(interpreter)),
            wrap,
            task,
            take,
            r,
        ),
{
    broadcast use Interpreter::lemma_then;

    let ghost start = *interpreter;
    match call_module(interpreter, "asyncio", "new_event_loop") {
        Err(e) => {
            proof {
                let calls = interpreter.since(start);
                assert(calls == calls + Seq::<Call>::empty());
            }
            Err(e)
        },
        Ok(event_loop) => {
            let ghost opened = *interpreter;
            let result = run_until_complete::<R, W, M, F, K, T>(
                interpreter,
                &event_loop,
                wrap,
                task,
                take,
            );
            let ghost ran = *interpreter;
            let ghost outcome = result;
            let closed = close(interpreter, &event_loop);
            let r = match closed {
                Err(e) => Err(e),
                Ok(()) => result,
            };
            proof {
                let calls = interpreter.since(opened);
                assert(calls == ran.since(opened) + interpreter.since(ran));
                assert(run_until_complete_calls::<R, W, M, F, K, T>(
                    ran.since(opened),
                    event_loop,
                    wrap,
                    task,
                    take,
                    outcome,
                ));
                assert(run_and_close_calls::<R, W, M, F, K, T>(
                    calls,
                    event_loop,
                    wrap,
                    task,
                    take,
                    r,
                ));
                assert(interpreter.since(start) == opened.since(start) + calls);
            }
            r
        },
    }
}

} // verus!
