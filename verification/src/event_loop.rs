//! What the library asks of `asyncio`: its modules, its event loops and its futures.
//!
//! Each function here comes with a predicate on a stretch of calls, named after it: the stretch is
//! exactly what the function asks of Python, in that order, and `r` is what it then returns.

use crate::interpreter::{can_show, is_none, shown, Call, Interpreter, Request, Turn};
use pyo3::{PyErr, PyObject, PyResult};
use vstd::prelude::*;

verus! {

/// The call at `i` is `request`.
pub open spec fn asked(calls: Seq<Call>, i: int, request: Request) -> bool {
    &&& 0 <= i < calls.len()
    &&& calls[i] is Object
    &&& calls[i]->Object_0 == request
}

/// The object that the call at `i` was answered with.
pub open spec fn answer(calls: Seq<Call>, i: int) -> PyResult<PyObject> {
    calls[i]->Object_1
}

/// An answer of which only the failure matters.
pub open spec fn discard(answer: PyResult<PyObject>) -> PyResult<()> {
    match answer {
        Err(e) => Err(e),
        Ok(_) => Ok(()),
    }
}

/// The module is imported, then its function is called.
pub open spec fn call_module_calls(
    calls: Seq<Call>,
    module: &'static str,
    function: &'static str,
    r: PyResult<PyObject>,
) -> bool {
    &&& asked(calls, 0, Request::Import(module))
    &&& match answer(calls, 0) {
        Err(e) => calls.len() == 1 && r == Err::<PyObject, PyErr>(e),
        Ok(m) => {
            &&& calls.len() == 2
            &&& asked(calls, 1, Request::CallMethod0(m, function))
            &&& r == answer(calls, 1)
        },
    }
}

/// Calls a function of a module, without arguments.
pub(crate) fn call_module(
    interpreter: &mut Interpreter<'_>,
    module: &'static str,
    function: &'static str,
) -> (r: PyResult<PyObject>)
    ensures
        final(interpreter).continues(*old(interpreter)),
        call_module_calls(final(interpreter).since(*old(interpreter)), module, function, r),
{
    broadcast use Interpreter::lemma_then;

    match interpreter.import(module) {
        Err(e) => Err(e),
        Ok(m) => interpreter.call_method0(&m, function),
    }
}

/// The method `cancelled` is looked up and called, and the truth of its answer is `r`.
pub open spec fn cancelled_calls(calls: Seq<Call>, future: PyObject, r: PyResult<bool>) -> bool {
    &&& asked(calls, 0, Request::GetAttr(future, "cancelled"))
    &&& match answer(calls, 0) {
        Err(e) => calls.len() == 1 && r == Err::<bool, PyErr>(e),
        Ok(method) => {
            &&& asked(calls, 1, Request::Call0(method))
            &&& match answer(calls, 1) {
                Err(e) => calls.len() == 2 && r == Err::<bool, PyErr>(e),
                Ok(value) => calls.len() == 3 && calls[2] == Call::Truth(value, r),
            }
        },
    }
}

/// Asks a Python future whether it is cancelled.
pub fn cancelled(interpreter: &mut Interpreter<'_>, future: &PyObject) -> (r: PyResult<bool>)
    ensures
        final(interpreter).continues(*old(interpreter)),
        cancelled_calls(final(interpreter).since(*old(interpreter)), *future, r),
{
    broadcast use Interpreter::lemma_then;

    match interpreter.getattr(future, "cancelled") {
        Err(e) => Err(e),
        Ok(method) => match interpreter.call0(&method) {
            Err(e) => Err(e),
            Ok(value) => interpreter.is_true(&value),
        },
    }
}

/// `answer` says that a Python future was cancelled. A failure to answer does not.
pub open spec fn says_cancelled(answer: PyResult<bool>) -> bool {
    answer == Ok::<bool, PyErr>(true)
}

/// [`cancelled_calls`], of which an error is shown and counts as `false`.
pub open spec fn cancelled_or_show_calls<S: Fn(Turn, PyErr)>(
    calls: Seq<Call>,
    future: PyObject,
    show: S,
    r: bool,
) -> bool {
    exists|first: Seq<Call>, rest: Seq<Call>, answer: PyResult<bool>|
        {
            &&& calls == #[trigger] (first + rest)
            &&& #[trigger] cancelled_calls(first, future, answer)
            &&& shown(rest, answer, show)
            &&& r == says_cancelled(answer)
        }
}

/// Whether a Python future is cancelled. One that fails to answer counts as not cancelled, and the
/// error is shown.
pub fn cancelled_or_show<S: Fn(Turn, PyErr)>(
    interpreter: &mut Interpreter<'_>,
    future: &PyObject,
    show: &S,
) -> (r: bool)
    requires
        can_show(*show),
    ensures
        final(interpreter).continues(*old(interpreter)),
        cancelled_or_show_calls(final(interpreter).since(*old(interpreter)), *future, *show, r),
{
    broadcast use Interpreter::lemma_then;

    let ghost start = *interpreter;
    let answer = cancelled(interpreter, future);
    let ghost asked = *interpreter;
    proof {
        asked.lemma_idle();
    }
    let r = match answer {
        Ok(cancelled) => cancelled,
        Err(e) => {
            interpreter.show(e, show);
            false
        },
    };
    assert(interpreter.since(start) == asked.since(start) + interpreter.since(asked));
    r
}

/// The setter for a value or for an exception is looked up, then the loop is to call it with
/// `result` and with `None` for a context.
pub open spec fn set_result_calls(
    calls: Seq<Call>,
    event_loop: PyObject,
    future: PyObject,
    result: PyResult<PyObject>,
    r: PyResult<()>,
) -> bool {
    &&& asked(
        calls,
        0,
        Request::GetAttr(
            future,
            if result is Ok {
                "set_result"
            } else {
                "set_exception"
            },
        ),
    )
    &&& match answer(calls, 0) {
        Err(e) => calls.len() == 1 && r == Err::<(), PyErr>(e),
        Ok(method) => {
            &&& calls.len() == 2
            &&& exists|none: PyObject| #[trigger]
                is_none(none) && asked(
                    calls,
                    1,
                    Request::CallSoonThreadsafe {
                        event_loop,
                        context: none,
                        callback: method,
                        argument: result,
                    },
                )
            &&& r == discard(answer(calls, 1))
        },
    }
}

/// Has `event_loop` complete `future`: with the value of `result`, or with its exception.
pub fn set_result(
    interpreter: &mut Interpreter<'_>,
    event_loop: &PyObject,
    future: &PyObject,
    result: PyResult<PyObject>,
) -> (r: PyResult<()>)
    ensures
        final(interpreter).continues(*old(interpreter)),
        set_result_calls(
            final(interpreter).since(*old(interpreter)),
            *event_loop,
            *future,
            result,
            r,
        ),
{
    broadcast use Interpreter::lemma_then;

    let none = interpreter.none();
    let setter = match &result {
        Ok(_) => interpreter.getattr(future, "set_result"),
        Err(_) => interpreter.getattr(future, "set_exception"),
    };
    match setter {
        Err(e) => Err(e),
        Ok(method) => match interpreter.call_soon_threadsafe(event_loop, &none, method, result) {
            Err(e) => Err(e),
            Ok(_) => Ok(()),
        },
    }
}

/// The asynchronous generators are shut down, then the executor if the loop has a method for that,
/// then the loop is closed. The first error is the last call.
pub open spec fn close_calls(calls: Seq<Call>, event_loop: PyObject, r: PyResult<()>) -> bool {
    &&& asked(calls, 0, Request::CallMethod0(event_loop, "shutdown_asyncgens"))
    &&& match answer(calls, 0) {
        Err(e) => calls.len() == 1 && r == Err::<(), PyErr>(e),
        Ok(generators) => {
            &&& asked(
                calls,
                1,
                Request::CallMethod1(event_loop, "run_until_complete", generators),
            )
            &&& match answer(calls, 1) {
                Err(e) => calls.len() == 2 && r == Err::<(), PyErr>(e),
                Ok(_) => {
                    &&& asked(calls, 2, Request::GetAttr(event_loop, "shutdown_default_executor"))
                    &&& if answer(calls, 2) is Err {
                        close_last(calls, 3, event_loop, r)
                    } else {
                        close_executor_calls(calls, event_loop, r)
                    }
                },
            }
        },
    }
}

/// The part of [`close_calls`] that loops with an executor to shut down have in addition.
pub open spec fn close_executor_calls(
    calls: Seq<Call>,
    event_loop: PyObject,
    r: PyResult<()>,
) -> bool {
    &&& asked(calls, 3, Request::CallMethod0(event_loop, "shutdown_default_executor"))
    &&& match answer(calls, 3) {
        Err(e) => calls.len() == 4 && r == Err::<(), PyErr>(e),
        Ok(executor) => {
            &&& asked(calls, 4, Request::CallMethod1(event_loop, "run_until_complete", executor))
            &&& match answer(calls, 4) {
                Err(e) => calls.len() == 5 && r == Err::<(), PyErr>(e),
                Ok(_) => close_last(calls, 5, event_loop, r),
            }
        },
    }
}

/// The last call, at `i`, closes the loop.
pub open spec fn close_last(
    calls: Seq<Call>,
    i: int,
    event_loop: PyObject,
    r: PyResult<()>,
) -> bool {
    &&& calls.len() == i + 1
    &&& asked(calls, i, Request::CallMethod0(event_loop, "close"))
    &&& r == discard(answer(calls, i))
}

/// Closes an event loop that is not running, after its asynchronous generators and, where the loop
/// knows how, its executor were shut down.
pub fn close(interpreter: &mut Interpreter<'_>, event_loop: &PyObject) -> (r: PyResult<()>)
    ensures
        final(interpreter).continues(*old(interpreter)),
        close_calls(final(interpreter).since(*old(interpreter)), *event_loop, r),
{
    broadcast use Interpreter::lemma_then;

    match interpreter.call_method0(event_loop, "shutdown_asyncgens") {
        Err(e) => return Err(e),
        Ok(generators) => match interpreter.call_method1(
            event_loop,
            "run_until_complete",
            generators,
        ) {
            Err(e) => return Err(e),
            Ok(_) => {},
        },
    }
    match interpreter.getattr(event_loop, "shutdown_default_executor") {
        Err(_) => {},
        Ok(_) => match interpreter.call_method0(event_loop, "shutdown_default_executor") {
            Err(e) => return Err(e),
            Ok(executor) => match interpreter.call_method1(
                event_loop,
                "run_until_complete",
                executor,
            ) {
                Err(e) => return Err(e),
                Ok(_) => {},
            },
        },
    }
    match interpreter.call_method0(event_loop, "close") {
        Err(e) => Err(e),
        Ok(_) => Ok(()),
    }
}

} // verus!
