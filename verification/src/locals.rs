//! The Python side of a Rust task: its event loop and its `contextvars`.
//!
//! The predicates named `.._calls` say what is done, in that order and nothing else, and what `r` is
//! then.

use crate::event_loop::{call_module, call_module_calls};
use crate::interpreter::{forwarded, is_none, Call, Interpreter, Turn};
use crate::runtime::ContextExt;
use pyo3::{PyErr, PyObject, PyResult};
use vstd::prelude::*;

verus! {

/// Task-local data for Python
pub struct TaskLocals {
    /// The event loop that the task belongs to.
    pub event_loop: PyObject,
    /// The `contextvars.Context` of the task, or `None`.
    pub context: PyObject,
}

impl Clone for TaskLocals {
    fn clone(&self) -> (r: Self)
        ensures
            r == *self,
    {
        TaskLocals { event_loop: self.event_loop.clone(), context: self.context.clone() }
    }
}

/// `asyncio` is imported and asked for the running loop.
pub open spec fn get_running_loop_calls(calls: Seq<Call>, r: PyResult<PyObject>) -> bool {
    call_module_calls(calls, "asyncio", "get_running_loop", r)
}

/// Gets the event loop that runs on the current OS thread.
pub fn get_running_loop(interpreter: &mut Interpreter<'_>) -> (r: PyResult<PyObject>)
    ensures
        final(interpreter).continues(*old(interpreter)),
        get_running_loop_calls(final(interpreter).since(*old(interpreter)), r),
{
    call_module(interpreter, "asyncio", "get_running_loop")
}

/// [`get_running_loop_calls`], the answer to which becomes the event loop.
pub open spec fn with_running_loop_calls(calls: Seq<Call>, r: PyResult<TaskLocals>) -> bool {
    exists|running: PyResult<PyObject>|
        {
            &&& #[trigger] get_running_loop_calls(calls, running)
            &&& match running {
                Err(e) => r == Err::<TaskLocals, PyErr>(e),
                Ok(event_loop) => r is Ok && r->Ok_0.event_loop == event_loop && is_none(
                    r->Ok_0.context,
                ),
            }
        }
}

/// `contextvars` is imported and asked for a copy of the context, which takes the place of the one
/// in `locals`.
pub open spec fn copy_context_calls(
    calls: Seq<Call>,
    locals: TaskLocals,
    r: PyResult<TaskLocals>,
) -> bool {
    exists|copied: PyResult<PyObject>|
        {
            &&& #[trigger] call_module_calls(calls, "contextvars", "copy_context", copied)
            &&& match copied {
                Err(e) => r == Err::<TaskLocals, PyErr>(e),
                Ok(context) => r == Ok::<TaskLocals, PyErr>(TaskLocals { context, ..locals }),
            }
        }
}

impl TaskLocals {
    /// At a minimum, TaskLocals must store the event loop.
    pub fn new(interpreter: &Interpreter<'_>, event_loop: PyObject) -> (r: Self)
        ensures
            r.event_loop == event_loop,
            is_none(r.context),
    {
        TaskLocals { event_loop, context: interpreter.none() }
    }

    /// Construct TaskLocals with the event loop returned by `get_running_loop`
    pub fn with_running_loop(interpreter: &mut Interpreter<'_>) -> (r: PyResult<Self>)
        ensures
            final(interpreter).continues(*old(interpreter)),
            with_running_loop_calls(final(interpreter).since(*old(interpreter)), r),
    {
        match get_running_loop(interpreter) {
            Err(e) => Err(e),
            Ok(event_loop) => Ok(TaskLocals::new(interpreter, event_loop)),
        }
    }

    /// Manually provide the contextvars for the current task.
    pub fn with_context(self, context: PyObject) -> (r: Self)
        ensures
            r == (TaskLocals { context, ..self }),
    {
        TaskLocals { event_loop: self.event_loop, context }
    }

    /// Capture the current task's contextvars
    pub fn copy_context(self, interpreter: &mut Interpreter<'_>) -> (r: PyResult<Self>)
        ensures
            final(interpreter).continues(*old(interpreter)),
            copy_context_calls(final(interpreter).since(*old(interpreter)), self, r),
    {
        match call_module(interpreter, "contextvars", "copy_context") {
            Err(e) => Err(e),
            Ok(context) => Ok(self.with_context(context)),
        }
    }
}

/// The runtime has told the locals of the current task. Python is asked only if there are none.
pub open spec fn current_loop_calls(
    calls: Seq<Call>,
    told: Option<TaskLocals>,
    r: PyResult<PyObject>,
) -> bool {
    match told {
        Some(locals) => calls.len() == 0 && r == Ok::<PyObject, PyErr>(locals.event_loop),
        None => get_running_loop_calls(calls, r),
    }
}

/// The runtime is asked for the locals of the current task, then [`current_loop_calls`].
pub open spec fn get_current_loop_calls<R: ContextExt>(
    calls: Seq<Call>,
    r: PyResult<PyObject>,
) -> bool {
    exists|told: Option<TaskLocals>| #[trigger]
        call_ensures(R::get_task_locals, (), told) && current_loop_calls(calls, told, r)
}

/// Get the current event loop from either Python or Rust async task local context
///
/// This function first checks if the runtime has a task-local reference to the Python event loop.
/// If not, it calls [`get_running_loop`] to get the event loop associated with the current OS
/// thread.
pub fn get_current_loop<R: ContextExt>(interpreter: &mut Interpreter<'_>) -> (r: PyResult<PyObject>)
    ensures
        final(interpreter).continues(*old(interpreter)),
        get_current_loop_calls::<R>(final(interpreter).since(*old(interpreter)), r),
{
    proof {
        interpreter.lemma_idle();
    }
    match R::get_task_locals() {
        Some(locals) => Ok(locals.event_loop),
        None => get_running_loop(interpreter),
    }
}

/// First [`TaskLocals::with_running_loop`], then, where that succeeded,
/// [`TaskLocals::copy_context`].
pub open spec fn running_locals_calls(calls: Seq<Call>, r: PyResult<TaskLocals>) -> bool {
    exists|first: Seq<Call>, rest: Seq<Call>, running: PyResult<TaskLocals>|
        {
            &&& calls == #[trigger] (first + rest)
            &&& #[trigger] with_running_loop_calls(first, running)
            &&& match running {
                Err(e) => rest.len() == 0 && r == Err::<TaskLocals, PyErr>(e),
                Ok(locals) => copy_context_calls(rest, locals, r),
            }
        }
}

/// The runtime has told the locals of the current task. Python is asked only if there are none.
pub open spec fn current_locals_calls(
    calls: Seq<Call>,
    told: Option<TaskLocals>,
    r: PyResult<TaskLocals>,
) -> bool {
    match told {
        Some(locals) => calls.len() == 0 && r == Ok::<TaskLocals, PyErr>(locals),
        None => running_locals_calls(calls, r),
    }
}

/// The runtime is asked for the locals of the current task, then [`current_locals_calls`].
pub open spec fn get_current_locals_calls<R: ContextExt>(
    calls: Seq<Call>,
    r: PyResult<TaskLocals>,
) -> bool {
    exists|told: Option<TaskLocals>| #[trigger]
        call_ensures(R::get_task_locals, (), told) && current_locals_calls(calls, told, r)
}

/// Either copy the task locals from the current task OR get the current running loop and
/// contextvars from Python.
pub fn get_current_locals<R: ContextExt>(interpreter: &mut Interpreter<'_>) -> (r: PyResult<
    TaskLocals,
>)
    ensures
        final(interpreter).continues(*old(interpreter)),
        get_current_locals_calls::<R>(final(interpreter).since(*old(interpreter)), r),
{
    broadcast use Interpreter::lemma_then;

    let ghost start = *interpreter;
    proof {
        start.lemma_idle();
    }
    match R::get_task_locals() {
        Some(locals) => Ok(locals),
        None => match TaskLocals::with_running_loop(interpreter) {
            Err(e) => {
                proof {
                    assert(interpreter.since(start) + Seq::<Call>::empty() == interpreter.since(
                        start,
                    ));
                }
                Err(e)
            },
            Ok(locals) => {
                let ghost running = *interpreter;
                let r = locals.copy_context(interpreter);
                proof {
                    assert(interpreter.since(start) == running.since(start) + interpreter.since(
                        running,
                    ));
                }
                r
            },
        },
    }
}

/// The runtime is asked for the locals of the current task, then [`forward_calls`].
pub open spec fn into_future_calls<R, X, K>(
    calls: Seq<Call>,
    awaitable: PyObject,
    into_future_with_locals: K,
    r: PyResult<X>,
) -> bool where R: ContextExt, K: FnOnce(Turn, &TaskLocals, PyObject) -> PyResult<X> {
    exists|told: Option<TaskLocals>| #[trigger]
        call_ensures(R::get_task_locals, (), told) && forward_calls(
            calls,
            told,
            awaitable,
            into_future_with_locals,
            r,
        )
}

/// First [`current_locals_calls`], then, where that succeeded, the awaitable is handed on with the
/// task locals.
pub open spec fn forward_calls<X, K: FnOnce(Turn, &TaskLocals, PyObject) -> PyResult<X>>(
    calls: Seq<Call>,
    told: Option<TaskLocals>,
    awaitable: PyObject,
    into_future_with_locals: K,
    r: PyResult<X>,
) -> bool {
    exists|first: Seq<Call>, rest: Seq<Call>, current: PyResult<TaskLocals>|
        {
            &&& calls == #[trigger] (first + rest)
            &&& #[trigger] current_locals_calls(first, told, current)
            &&& match current {
                Err(e) => rest.len() == 0 && r == Err::<X, PyErr>(e),
                Ok(locals) => {
                    &&& rest == seq![Call::Forward(locals, awaitable)]
                    &&& forwarded(into_future_with_locals, locals, awaitable, r)
                },
            }
        }
}

/// Convert a Python `awaitable` into a Rust Future
///
/// This function simply forwards the future and the task locals returned by
/// [`get_current_locals`] to `into_future_with_locals`.
pub fn into_future<R, X, K>(
    interpreter: &mut Interpreter<'_>,
    awaitable: PyObject,
    into_future_with_locals: K,
) -> (r: PyResult<X>) where R: ContextExt, K: FnOnce(Turn, &TaskLocals, PyObject) -> PyResult<X>
    requires
        forall|turn: Turn, locals: &TaskLocals| #[trigger]
            call_requires(into_future_with_locals, (turn, locals, awaitable)),
    ensures
        final(interpreter).continues(*old(interpreter)),
        into_future_calls::<R, X, K>(
            final(interpreter).since(*old(interpreter)),
            awaitable,
            into_future_with_locals,
            r,
        ),
{
    broadcast use Interpreter::lemma_then;

    let ghost start = *interpreter;
    match get_current_locals::<R>(interpreter) {
        Err(e) => {
            proof {
                let calls = interpreter.since(start);
                assert(calls == calls + Seq::<Call>::empty());
            }
            Err(e)
        },
        Ok(locals) => {
            let ghost current = *interpreter;
            let r = interpreter.forward(&locals, awaitable, into_future_with_locals);
            proof {
                assert(interpreter.since(start) == current.since(start) + interpreter.since(
                    current,
                ));
            }
            r
        },
    }
}

} // verus!
