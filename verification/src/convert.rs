//! Converts Rust futures into Python awaitables.
//!
//! A conversion makes the Python future and ties the two cancellations together. Then it spawns a
//! task on the Rust runtime, for which the caller hands in `task`. It is to run the Rust future with
//! the [`Worker`] in a task of its own, and to report a panic of that one with the [`Supervisor`].
//!
//! The predicates named `.._calls` say what is done, in that order and nothing else, and what `r` is
//! then.

use crate::cancel::{cancellation, PyDoneCallback};
use crate::delivery::{Delivery, Supervisor, Worker};
use crate::event_loop::{answer, asked};
use crate::interpreter::{
    is_none, spawned, spawned_local, wrapped, Call, Interpreter, Request, Turn,
};
use crate::locals::{
    copy_context_calls, get_current_locals, get_current_locals_calls, TaskLocals,
};
use crate::runtime::{ContextExt, Runtime, SpawnLocalExt};
use futures::channel::oneshot::{channel, Receiver, Sender};
use pyo3::{PyErr, PyObject, PyResult};
use std::future::Future;
use vstd::prelude::*;

verus! {

/// A Rust future that is being converted.
pub struct Conversion {
    /// The Python future that stands for the Rust future.
    pub py_fut: PyObject,
    /// For the task that runs the Rust future.
    pub worker: Worker,
    /// For the task that watches over that task.
    pub supervisor: Supervisor,
}

/// `c` is a conversion with the Python future `py_fut`, the task locals `locals` and the receiver
/// `cancel_rx` of the cancellation, which was not polled yet.
pub open spec fn is_conversion(
    c: Conversion,
    py_fut: PyObject,
    locals: TaskLocals,
    cancel_rx: Receiver<()>,
    panic_message: &'static str,
) -> bool {
    &&& c.py_fut == py_fut
    &&& c.worker.locals == locals
    &&& c.worker.cancel.is_new(cancel_rx)
    &&& c.worker.delivery == Delivery { event_loop: locals.event_loop, future: py_fut }
    &&& c.supervisor == Supervisor { delivery: c.worker.delivery, panic_message }
}

/// The event loop of `locals` creates a future. Then `wrap` makes a callback of the sender of the
/// channel `halves`, which is added to the future.
pub open spec fn convert_calls<W: FnOnce(Turn, PyDoneCallback) -> PyObject>(
    calls: Seq<Call>,
    locals: TaskLocals,
    wrap: W,
    halves: (Sender<()>, Receiver<()>),
    panic_message: &'static str,
    r: PyResult<Conversion>,
) -> bool {
    &&& asked(calls, 0, Request::CallMethod0(locals.event_loop, "create_future"))
    &&& match answer(calls, 0) {
        Err(e) => calls.len() == 1 && r == Err::<Conversion, PyErr>(e),
        Ok(py_fut) => {
            &&& calls.len() == 3
            &&& calls[1] == Call::Wrap(PyDoneCallback { cancel_tx: Some(halves.0) })
            &&& exists|callback: PyObject|
                {
                    &&& #[trigger] wrapped(
                        wrap,
                        PyDoneCallback { cancel_tx: Some(halves.0) },
                        callback,
                    )
                    &&& asked(
                        calls,
                        2,
                        Request::CallMethod1(py_fut, "add_done_callback", callback),
                    )
                }
            &&& match answer(calls, 2) {
                Err(e) => r == Err::<Conversion, PyErr>(e),
                Ok(_) => r is Ok && is_conversion(
                    r->Ok_0,
                    py_fut,
                    locals,
                    halves.1,
                    panic_message,
                ),
            }
        },
    }
}

/// A channel is made, then [`convert_calls`].
pub open spec fn with_locals_calls<W: FnOnce(Turn, PyDoneCallback) -> PyObject>(
    calls: Seq<Call>,
    locals: TaskLocals,
    wrap: W,
    panic_message: &'static str,
    r: PyResult<Conversion>,
) -> bool {
    exists|halves: (Sender<()>, Receiver<()>)|
        {
            &&& #[trigger] call_ensures(channel::<()>, (), halves)
            &&& convert_calls(calls, locals, wrap, halves, panic_message, r)
        }
}

/// `wrap` takes every callback that can still send a cancellation.
pub open spec fn can_wrap<W: FnOnce(Turn, PyDoneCallback) -> PyObject>(wrap: W) -> bool {
    forall|turn: Turn, callback: PyDoneCallback|
        callback.cancel_tx is Some ==> #[trigger] call_requires(wrap, (turn, callback))
}

/// Makes the Python future for a Rust future with the given task locals.
fn convert<W: FnOnce(Turn, PyDoneCallback) -> PyObject>(
    interpreter: &mut Interpreter<'_>,
    locals: TaskLocals,
    wrap: W,
    panic_message: &'static str,
) -> (r: PyResult<Conversion>)
    requires
        can_wrap(wrap),
    ensures
        final(interpreter).continues(*old(interpreter)),
        with_locals_calls(
            final(interpreter).since(*old(interpreter)),
            locals,
            wrap,
            panic_message,
            r,
        ),
{
    broadcast use Interpreter::lemma_then;

    let (callback, cancel) = cancellation();
    let ghost halves = (callback.cancel_tx->0, cancel.cancel_rx.receiver());
    assert(call_ensures(channel::<()>, (), halves));
    assert(callback == PyDoneCallback { cancel_tx: Some(halves.0) });
    match interpreter.call_method0(&locals.event_loop, "create_future") {
        Err(e) => Err(e),
        Ok(py_fut) => {
            let callback = interpreter.wrap(callback, wrap);
            match interpreter.call_method1(&py_fut, "add_done_callback", callback) {
                Err(e) => Err(e),
                Ok(_) => {
                    let delivery1 = Delivery {
                        event_loop: locals.event_loop.clone(),
                        future: py_fut.clone(),
                    };
                    let delivery2 = Delivery {
                        event_loop: locals.event_loop.clone(),
                        future: py_fut.clone(),
                    };
                    Ok(
                        Conversion {
                            py_fut,
                            worker: Worker { locals, cancel, delivery: delivery1 },
                            supervisor: Supervisor { delivery: delivery2, panic_message },
                        },
                    )
                },
            }
        },
    }
}

/// The context is copied, then [`with_locals_calls`].
pub open spec fn with_loop_calls<W: FnOnce(Turn, PyDoneCallback) -> PyObject>(
    calls: Seq<Call>,
    event_loop: PyObject,
    wrap: W,
    panic_message: &'static str,
    r: PyResult<Conversion>,
) -> bool {
    exists|first: Seq<Call>, rest: Seq<Call>, fresh: TaskLocals, copied: PyResult<TaskLocals>|
        {
            &&& calls == #[trigger] (first + rest)
            &&& fresh.event_loop == event_loop
            &&& is_none(fresh.context)
            &&& #[trigger] copy_context_calls(first, fresh, copied)
            &&& match copied {
                Err(e) => rest.len() == 0 && r == Err::<Conversion, PyErr>(e),
                Ok(locals) => with_locals_calls(rest, locals, wrap, panic_message, r),
            }
        }
}

/// Makes the Python future for a Rust future that belongs to `event_loop` and has a copy of the
/// current context.
fn convert_with_loop<W: FnOnce(Turn, PyDoneCallback) -> PyObject>(
    interpreter: &mut Interpreter<'_>,
    event_loop: PyObject,
    wrap: W,
    panic_message: &'static str,
) -> (r: PyResult<Conversion>)
    requires
        can_wrap(wrap),
    ensures
        final(interpreter).continues(*old(interpreter)),
        with_loop_calls(
            final(interpreter).since(*old(interpreter)),
            event_loop,
            wrap,
            panic_message,
            r,
        ),
{
    broadcast use Interpreter::lemma_then;

    let ghost start = *interpreter;
    let fresh = TaskLocals::new(interpreter, event_loop);
    let ghost new = fresh;
    match fresh.copy_context(interpreter) {
        Err(e) => {
            proof {
                let calls = interpreter.since(start);
                assert(calls == calls + Seq::<Call>::empty());
            }
            Err(e)
        },
        Ok(locals) => {
            let ghost copied = *interpreter;
            let r = convert(interpreter, locals, wrap, panic_message);
            proof {
                assert(interpreter.since(start) == copied.since(start) + interpreter.since(copied));
                assert(copy_context_calls(copied.since(start), new, Ok::<TaskLocals, PyErr>(locals)));
            }
            r
        },
    }
}

/// The current task locals are looked up, then [`with_locals_calls`].
pub open spec fn current_calls<R: ContextExt, W: FnOnce(Turn, PyDoneCallback) -> PyObject>(
    calls: Seq<Call>,
    wrap: W,
    panic_message: &'static str,
    r: PyResult<Conversion>,
) -> bool {
    exists|first: Seq<Call>, rest: Seq<Call>, current: PyResult<TaskLocals>|
        {
            &&& calls == #[trigger] (first + rest)
            &&& #[trigger] get_current_locals_calls::<R>(first, current)
            &&& match current {
                Err(e) => rest.len() == 0 && r == Err::<Conversion, PyErr>(e),
                Ok(locals) => with_locals_calls(rest, locals, wrap, panic_message, r),
            }
        }
}

/// Makes the Python future for a Rust future with the task locals of the current task.
fn convert_current<R: ContextExt, W: FnOnce(Turn, PyDoneCallback) -> PyObject>(
    interpreter: &mut Interpreter<'_>,
    wrap: W,
    panic_message: &'static str,
) -> (r: PyResult<Conversion>)
    requires
        can_wrap(wrap),
    ensures
        final(interpreter).continues(*old(interpreter)),
        current_calls::<R, W>(final(interpreter).since(*old(interpreter)), wrap, panic_message, r),
{
    broadcast use Interpreter::lemma_then;

    let ghost start = *interpreter;
    match get_current_locals::<R>(interpreter) {
        Err(e) => {
            proof {
                let calls = interpreter.since(start);
                assert(calls == calls + Seq::<Call>::empty());
            }
            Err(e)
        },
        Ok(locals) => {
            let ghost current = *interpreter;
            let r = convert(interpreter, locals, wrap, panic_message);
            proof {
                assert(interpreter.since(start) == current.since(start) + interpreter.since(
                    current,
                ));
            }
            r
        },
    }
}

/// The task of a conversion that succeeded was spawned. Its Python future is the result.
pub open spec fn start_calls<R, M, F>(
    calls: Seq<Call>,
    converted: PyResult<Conversion>,
    task: M,
    r: PyResult<PyObject>,
) -> bool where
    R: Runtime,
    M: FnOnce(Turn, Worker, Supervisor) -> F,
    F: Future<Output = ()> + Send + 'static,
 {
    match converted {
        Err(e) => calls.len() == 0 && r == Err::<PyObject, PyErr>(e),
        Ok(c) => {
            &&& calls == seq![Call::Spawn(c.worker, c.supervisor)]
            &&& spawned::<R, M, F>(task, c.worker, c.supervisor)
            &&& r == Ok::<PyObject, PyErr>(c.py_fut)
        },
    }
}

/// [`start_calls`] for a task that stays on the current thread.
pub open spec fn start_local_calls<R, M, F>(
    calls: Seq<Call>,
    converted: PyResult<Conversion>,
    task: M,
    r: PyResult<PyObject>,
) -> bool where
    R: SpawnLocalExt,
    M: FnOnce(Turn, Worker, Supervisor) -> F,
    F: Future<Output = ()> + 'static,
 {
    match converted {
        Err(e) => calls.len() == 0 && r == Err::<PyObject, PyErr>(e),
        Ok(c) => {
            &&& calls == seq![Call::Spawn(c.worker, c.supervisor)]
            &&& spawned_local::<R, M, F>(task, c.worker, c.supervisor)
            &&& r == Ok::<PyObject, PyErr>(c.py_fut)
        },
    }
}

/// `task` takes every worker and supervisor.
pub open spec fn can_start<M, F>(task: M) -> bool where M: FnOnce(Turn, Worker, Supervisor) -> F {
    forall|turn: Turn, worker: Worker, supervisor: Supervisor| #[trigger]
        call_requires(task, (turn, worker, supervisor))
}

/// Spawns the task of a conversion that succeeded.
fn start<R, M, F>(
    interpreter: &mut Interpreter<'_>,
    converted: PyResult<Conversion>,
    task: M,
) -> (r: PyResult<PyObject>) where
    R: Runtime,
    M: FnOnce(Turn, Worker, Supervisor) -> F,
    F: Future<Output = ()> + Send + 'static,

    requires
        can_start(task),
    ensures
        final(interpreter).continues(*old(interpreter)),
        start_calls::<R, M, F>(final(interpreter).since(*old(interpreter)), converted, task, r),
{
    proof {
        interpreter.lemma_idle();
    }
    match converted {
        Err(e) => Err(e),
        Ok(c) => {
            interpreter.spawn::<R, M, F>(c.worker, c.supervisor, task);
            Ok(c.py_fut)
        },
    }
}

/// Spawns the task of a conversion that succeeded on the current thread.
fn start_local<R, M, F>(
    interpreter: &mut Interpreter<'_>,
    converted: PyResult<Conversion>,
    task: M,
) -> (r: PyResult<PyObject>) where
    R: SpawnLocalExt,
    M: FnOnce(Turn, Worker, Supervisor) -> F,
    F: Future<Output = ()> + 'static,

    requires
        can_start(task),
    ensures
        final(interpreter).continues(*old(interpreter)),
        start_local_calls::<R, M, F>(
            final(interpreter).since(*old(interpreter)),
            converted,
            task,
            r,
        ),
{
    proof {
        interpreter.lemma_idle();
    }
    match converted {
        Err(e) => Err(e),
        Ok(c) => {
            interpreter.spawn_local::<R, M, F>(c.worker, c.supervisor, task);
            Ok(c.py_fut)
        },
    }
}

/// First [`with_locals_calls`], then [`start_calls`].
pub open spec fn future_into_py_with_locals_calls<R, W, M, F>(
    calls: Seq<Call>,
    locals: TaskLocals,
    wrap: W,
    task: M,
    r: PyResult<PyObject>,
) -> bool where
    R: ContextExt,
    W: FnOnce(Turn, PyDoneCallback) -> PyObject,
    M: FnOnce(Turn, Worker, Supervisor) -> F,
    F: Future<Output = ()> + Send + 'static,
 {
    exists|first: Seq<Call>, rest: Seq<Call>, converted: PyResult<Conversion>|
        {
            &&& calls == #[trigger] (first + rest)
            &&& #[trigger] with_locals_calls(first, locals, wrap, "rust future panicked", converted)
            &&& start_calls::<R, M, F>(rest, converted, task, r)
        }
}

/// Convert a Rust Future into a Python awaitable with a generic runtime
///
/// If the `asyncio.Future` returned by this conversion is cancelled via `asyncio.Future.cancel`,
/// the Rust future will be cancelled as well.
///
/// # Arguments
/// * `interpreter` - The interpreter
/// * `locals` - The task-local data for Python
/// * `wrap` - Makes a Python callable of the callback to add to the Python future
/// * `task` - Makes the task that runs the Rust future
pub fn future_into_py_with_locals<R, W, M, F>(
    interpreter: &mut Interpreter<'_>,
    locals: TaskLocals,
    wrap: W,
    task: M,
) -> (r: PyResult<PyObject>) where
    R: ContextExt,
    W: FnOnce(Turn, PyDoneCallback) -> PyObject,
    M: FnOnce(Turn, Worker, Supervisor) -> F,
    F: Future<Output = ()> + Send + 'static,

    requires
        can_wrap(wrap),
        can_start(task),
    ensures
        final(interpreter).continues(*old(interpreter)),
        future_into_py_with_locals_calls::<R, W, M, F>(
            final(interpreter).since(*old(interpreter)),
            locals,
            wrap,
            task,
            r,
        ),
{
    broadcast use Interpreter::lemma_then;

    let ghost begin = *interpreter;
    let converted = convert(interpreter, locals, wrap, "rust future panicked");
    let ghost middle = *interpreter;
    let r = start::<R, M, F>(interpreter, converted, task);
    assert(interpreter.since(begin) == middle.since(begin) + interpreter.since(middle));
    r
}

/// First [`with_loop_calls`], then [`start_calls`].
pub open spec fn future_into_py_with_loop_calls<R, W, M, F>(
    calls: Seq<Call>,
    event_loop: PyObject,
    wrap: W,
    task: M,
    r: PyResult<PyObject>,
) -> bool where
    R: ContextExt,
    W: FnOnce(Turn, PyDoneCallback) -> PyObject,
    M: FnOnce(Turn, Worker, Supervisor) -> F,
    F: Future<Output = ()> + Send + 'static,
 {
    exists|first: Seq<Call>, rest: Seq<Call>, converted: PyResult<Conversion>|
        {
            &&& calls == #[trigger] (first + rest)
            &&& #[trigger] with_loop_calls(first, event_loop, wrap, "rust future panicked", converted)
            &&& start_calls::<R, M, F>(rest, converted, task, r)
        }
}

/// Convert a Rust Future into a Python awaitable with a generic runtime
///
/// __Use [`future_into_py_with_locals`] instead.__
///
/// # Arguments
/// * `interpreter` - The interpreter
/// * `event_loop` - The Python event loop that the awaitable should be attached to
/// * `wrap` - Makes a Python callable of the callback to add to the Python future
/// * `task` - Makes the task that runs the Rust future
pub fn future_into_py_with_loop<R, W, M, F>(
    interpreter: &mut Interpreter<'_>,
    event_loop: PyObject,
    wrap: W,
    task: M,
) -> (r: PyResult<PyObject>) where
    R: ContextExt,
    W: FnOnce(Turn, PyDoneCallback) -> PyObject,
    M: FnOnce(Turn, Worker, Supervisor) -> F,
    F: Future<Output = ()> + Send + 'static,

    requires
        can_wrap(wrap),
        can_start(task),
    ensures
        final(interpreter).continues(*old(interpreter)),
        future_into_py_with_loop_calls::<R, W, M, F>(
            final(interpreter).since(*old(interpreter)),
            event_loop,
            wrap,
            task,
            r,
        ),
{
    broadcast use Interpreter::lemma_then;

    let ghost begin = *interpreter;
    let converted = convert_with_loop(interpreter, event_loop, wrap, "rust future panicked");
    let ghost middle = *interpreter;
    let r = start::<R, M, F>(interpreter, converted, task);
    assert(interpreter.since(begin) == middle.since(begin) + interpreter.since(middle));
    r
}

/// Convert a Rust Future into a Python awaitable with a generic runtime
///
/// __Use [`future_into_py_with_locals`] instead.__
///
/// # Arguments
/// * `interpreter` - The interpreter
/// * `event_loop` - The Python event loop that the awaitable should be attached to
/// * `wrap` - Makes a Python callable of the callback to add to the Python future
/// * `task` - Makes the task that runs the Rust future
pub fn cancellable_future_into_py_with_loop<R, W, M, F>(
    interpreter: &mut Interpreter<'_>,
    event_loop: PyObject,
    wrap: W,
    task: M,
) -> (r: PyResult<PyObject>) where
    R: ContextExt,
    W: FnOnce(Turn, PyDoneCallback) -> PyObject,
    M: FnOnce(Turn, Worker, Supervisor) -> F,
    F: Future<Output = ()> + Send + 'static,

    requires
        can_wrap(wrap),
        can_start(task),
    ensures
        final(interpreter).continues(*old(interpreter)),
        future_into_py_with_loop_calls::<R, W, M, F>(
            final(interpreter).since(*old(interpreter)),
            event_loop,
            wrap,
            task,
            r,
        ),
{
    future_into_py_with_loop::<R, W, M, F>(interpreter, event_loop, wrap, task)
}

/// First [`current_calls`], then [`start_calls`].
pub open spec fn future_into_py_calls<R, W, M, F>(
    calls: Seq<Call>,
    wrap: W,
    task: M,
    r: PyResult<PyObject>,
) -> bool where
    R: ContextExt,
    W: FnOnce(Turn, PyDoneCallback) -> PyObject,
    M: FnOnce(Turn, Worker, Supervisor) -> F,
    F: Future<Output = ()> + Send + 'static,
 {
    exists|first: Seq<Call>, rest: Seq<Call>, converted: PyResult<Conversion>|
        {
            &&& calls == #[trigger] (first + rest)
            &&& #[trigger] current_calls::<R, W>(first, wrap, "rust future panicked", converted)
            &&& start_calls::<R, M, F>(rest, converted, task, r)
        }
}

/// Convert a Rust Future into a Python awaitable with a generic runtime
///
/// If the `asyncio.Future` returned by this conversion is cancelled via `asyncio.Future.cancel`,
/// the Rust future will be cancelled as well.
///
/// # Arguments
/// * `interpreter` - The interpreter
/// * `wrap` - Makes a Python callable of the callback to add to the Python future
/// * `task` - Makes the task that runs the Rust future
pub fn future_into_py<R, W, M, F>(
    interpreter: &mut Interpreter<'_>,
    wrap: W,
    task: M,
) -> (r: PyResult<PyObject>) where
    R: ContextExt,
    W: FnOnce(Turn, PyDoneCallback) -> PyObject,
    M: FnOnce(Turn, Worker, Supervisor) -> F,
    F: Future<Output = ()> + Send + 'static,

    requires
        can_wrap(wrap),
        can_start(task),
    ensures
        final(interpreter).continues(*old(interpreter)),
        future_into_py_calls::<R, W, M, F>(
            final(interpreter).since(*old(interpreter)),
            wrap,
            task,
            r,
        ),
{
    broadcast use Interpreter::lemma_then;

    let ghost begin = *interpreter;
    let converted = convert_current::<R, W>(interpreter, wrap, "rust future panicked");
    let ghost middle = *interpreter;
    let r = start::<R, M, F>(interpreter, converted, task);
    assert(interpreter.since(begin) == middle.since(begin) + interpreter.since(middle));
    r
}

/// Convert a Rust Future into a Python awaitable with a generic runtime
///
/// __Use [`future_into_py`] instead.__
///
/// # Arguments
/// * `interpreter` - The interpreter
/// * `wrap` - Makes a Python callable of the callback to add to the Python future
/// * `task` - Makes the task that runs the Rust future
pub fn cancellable_future_into_py<R, W, M, F>(
    interpreter: &mut Interpreter<'_>,
    wrap: W,
    task: M,
) -> (r: PyResult<PyObject>) where
    R: ContextExt,
    W: FnOnce(Turn, PyDoneCallback) -> PyObject,
    M: FnOnce(Turn, Worker, Supervisor) -> F,
    F: Future<Output = ()> + Send + 'static,

    requires
        can_wrap(wrap),
        can_start(task),
    ensures
        final(interpreter).continues(*old(interpreter)),
        future_into_py_calls::<R, W, M, F>(
            final(interpreter).since(*old(interpreter)),
            wrap,
            task,
            r,
        ),
{
    future_into_py::<R, W, M, F>(interpreter, wrap, task)
}

/// First [`with_locals_calls`], then [`start_local_calls`].
pub open spec fn local_future_into_py_with_locals_calls<R, W, M, F>(
    calls: Seq<Call>,
    locals: TaskLocals,
    wrap: W,
    task: M,
    r: PyResult<PyObject>,
) -> bool where
    R: SpawnLocalExt,
    W: FnOnce(Turn, PyDoneCallback) -> PyObject,
    M: FnOnce(Turn, Worker, Supervisor) -> F,
    F: Future<Output = ()> + 'static,
 {
    exists|first: Seq<Call>, rest: Seq<Call>, converted: PyResult<Conversion>|
        {
            &&& calls == #[trigger] (first + rest)
            &&& #[trigger] with_locals_calls(first, locals, wrap, "Rust future panicked", converted)
            &&& start_local_calls::<R, M, F>(rest, converted, task, r)
        }
}

/// Convert a `!Send` Rust Future into a Python awaitable with a generic runtime
///
/// If the `asyncio.Future` returned by this conversion is cancelled via `asyncio.Future.cancel`,
/// the Rust future will be cancelled as well.
///
/// # Arguments
/// * `interpreter` - The interpreter
/// * `locals` - The task-local data for Python
/// * `wrap` - Makes a Python callable of the callback to add to the Python future
/// * `task` - Makes the task that runs the Rust future
pub fn local_future_into_py_with_locals<R, W, M, F>(
    interpreter: &mut Interpreter<'_>,
    locals: TaskLocals,
    wrap: W,
    task: M,
) -> (r: PyResult<PyObject>) where
    R: SpawnLocalExt,
    W: FnOnce(Turn, PyDoneCallback) -> PyObject,
    M: FnOnce(Turn, Worker, Supervisor) -> F,
    F: Future<Output = ()> + 'static,

    requires
        can_wrap(wrap),
        can_start(task),
    ensures
        final(interpreter).continues(*old(interpreter)),
        local_future_into_py_with_locals_calls::<R, W, M, F>(
            final(interpreter).since(*old(interpreter)),
            locals,
            wrap,
            task,
            r,
        ),
{
    broadcast use Interpreter::lemma_then;

    let ghost begin = *interpreter;
    let converted = convert(interpreter, locals, wrap, "Rust future panicked");
    let ghost middle = *interpreter;
    let r = start_local::<R, M, F>(interpreter, converted, task);
    assert(interpreter.since(begin) == middle.since(begin) + interpreter.since(middle));
    r
}

/// First [`with_loop_calls`], then [`start_local_calls`].
pub open spec fn local_future_into_py_with_loop_calls<R, W, M, F>(
    calls: Seq<Call>,
    event_loop: PyObject,
    wrap: W,
    task: M,
    r: PyResult<PyObject>,
) -> bool where
    R: SpawnLocalExt,
    W: FnOnce(Turn, PyDoneCallback) -> PyObject,
    M: FnOnce(Turn, Worker, Supervisor) -> F,
    F: Future<Output = ()> + 'static,
 {
    exists|first: Seq<Call>, rest: Seq<Call>, converted: PyResult<Conversion>|
        {
            &&& calls == #[trigger] (first + rest)
            &&& #[trigger] with_loop_calls(first, event_loop, wrap, "Rust future panicked", converted)
            &&& start_local_calls::<R, M, F>(rest, converted, task, r)
        }
}

/// Convert a `!Send` Rust Future into a Python awaitable with a generic runtime
///
/// __Use [`local_future_into_py_with_locals`] instead.__
///
/// # Arguments
/// * `interpreter` - The interpreter
/// * `event_loop` - The Python event loop that the awaitable should be attached to
/// * `wrap` - Makes a Python callable of the callback to add to the Python future
/// * `task` - Makes the task that runs the Rust future
pub fn local_future_into_py_with_loop<R, W, M, F>(
    interpreter: &mut Interpreter<'_>,
    event_loop: PyObject,
    wrap: W,
    task: M,
) -> (r: PyResult<PyObject>) where
    R: SpawnLocalExt,
    W: FnOnce(Turn, PyDoneCallback) -> PyObject,
    M: FnOnce(Turn, Worker, Supervisor) -> F,
    F: Future<Output = ()> + 'static,

    requires
        can_wrap(wrap),
        can_start(task),
    ensures
        final(interpreter).continues(*old(interpreter)),
        local_future_into_py_with_loop_calls::<R, W, M, F>(
            final(interpreter).since(*old(interpreter)),
            event_loop,
            wrap,
            task,
            r,
        ),
{
    broadcast use Interpreter::lemma_then;

    let ghost begin = *interpreter;
    let converted = convert_with_loop(interpreter, event_loop, wrap, "Rust future panicked");
    let ghost middle = *interpreter;
    let r = start_local::<R, M, F>(interpreter, converted, task);
    assert(interpreter.since(begin) == middle.since(begin) + interpreter.since(middle));
    r
}

/// Convert a `!Send` Rust Future into a Python awaitable with a generic runtime
///
/// __Use [`local_future_into_py_with_locals`] instead.__
///
/// # Arguments
/// * `interpreter` - The interpreter
/// * `event_loop` - The Python event loop that the awaitable should be attached to
/// * `wrap` - Makes a Python callable of the callback to add to the Python future
/// * `task` - Makes the task that runs the Rust future
pub fn local_cancellable_future_into_py_with_loop<R, W, M, F>(
    interpreter: &mut Interpreter<'_>,
    event_loop: PyObject,
    wrap: W,
    task: M,
) -> (r: PyResult<PyObject>) where
    R: SpawnLocalExt,
    W: FnOnce(Turn, PyDoneCallback) -> PyObject,
    M: FnOnce(Turn, Worker, Supervisor) -> F,
    F: Future<Output = ()> + 'static,

    requires
        can_wrap(wrap),
        can_start(task),
    ensures
        final(interpreter).continues(*old(interpreter)),
        local_future_into_py_with_loop_calls::<R, W, M, F>(
            final(interpreter).since(*old(interpreter)),
            event_loop,
            wrap,
            task,
            r,
        ),
{
    local_future_into_py_with_loop::<R, W, M, F>(interpreter, event_loop, wrap, task)
}

/// First [`current_calls`], then [`start_local_calls`].
pub open spec fn local_future_into_py_calls<R, W, M, F>(
    calls: Seq<Call>,
    wrap: W,
    task: M,
    r: PyResult<PyObject>,
) -> bool where
    R: ContextExt + SpawnLocalExt,
    W: FnOnce(Turn, PyDoneCallback) -> PyObject,
    M: FnOnce(Turn, Worker, Supervisor) -> F,
    F: Future<Output = ()> + 'static,
 {
    exists|first: Seq<Call>, rest: Seq<Call>, converted: PyResult<Conversion>|
        {
            &&& calls == #[trigger] (first + rest)
            &&& #[trigger] current_calls::<R, W>(first, wrap, "Rust future panicked", converted)
            &&& start_local_calls::<R, M, F>(rest, converted, task, r)
        }
}

/// Convert a `!Send` Rust Future into a Python awaitable with a generic runtime
///
/// If the `asyncio.Future` returned by this conversion is cancelled via `asyncio.Future.cancel`,
/// the Rust future will be cancelled as well.
///
/// # Arguments
/// * `interpreter` - The interpreter
/// * `wrap` - Makes a Python callable of the callback to add to the Python future
/// * `task` - Makes the task that runs the Rust future
pub fn local_future_into_py<R, W, M, F>(
    interpreter: &mut Interpreter<'_>,
    wrap: W,
    task: M,
) -> (r: PyResult<PyObject>) where
    R: ContextExt + SpawnLocalExt,
    W: FnOnce(Turn, PyDoneCallback) -> PyObject,
    M: FnOnce(Turn, Worker, Supervisor) -> F,
    F: Future<Output = ()> + 'static,

    requires
        can_wrap(wrap),
        can_start(task),
    ensures
        final(interpreter).continues(*old(interpreter)),
        local_future_into_py_calls::<R, W, M, F>(
            final(interpreter).since(*old(interpreter)),
            wrap,
            task,
            r,
        ),
{
    broadcast use Interpreter::lemma_then;

    let ghost begin = *interpreter;
    let converted = convert_current::<R, W>(interpreter, wrap, "Rust future panicked");
    let ghost middle = *interpreter;
    let r = start_local::<R, M, F>(interpreter, converted, task);
    assert(interpreter.since(begin) == middle.since(begin) + interpreter.since(middle));
    r
}

/// Convert a `!Send` Rust Future into a Python awaitable with a generic runtime
///
/// __Use [`local_future_into_py`] instead.__
///
/// # Arguments
/// * `interpreter` - The interpreter
/// * `wrap` - Makes a Python callable of the callback to add to the Python future
/// * `task` - Makes the task that runs the Rust future
pub fn local_cancellable_future_into_py<R, W, M, F>(
    interpreter: &mut Interpreter<'_>,
    wrap: W,
    task: M,
) -> (r: PyResult<PyObject>) where
    R: ContextExt + SpawnLocalExt,
    W: FnOnce(Turn, PyDoneCallback) -> PyObject,
    M: FnOnce(Turn, Worker, Supervisor) -> F,
    F: Future<Output = ()> + 'static,

    requires
        can_wrap(wrap),
        can_start(task),
    ensures
        final(interpreter).continues(*old(interpreter)),
        local_future_into_py_calls::<R, W, M, F>(
            final(interpreter).since(*old(interpreter)),
            wrap,
            task,
            r,
        ),
{
    local_future_into_py::<R, W, M, F>(interpreter, wrap, task)
}

} // verus!
