//! What each function does to Python, to the Rust runtime and to the code that its caller hands in.
//!
//! Each law is about the calls of one function that have returned: it starts from `call_ensures` of
//! the function and ends with the entries that the call has put on record, from the first to the
//! last, and with the result. It names the outside functions, the methods and the arguments
//! themselves.

use crate::cancel::{cancellation, Cancellable, Poll, PyDoneCallback};
use crate::convert::{
    cancellable_future_into_py, cancellable_future_into_py_with_loop, convert_calls, current_calls,
    future_into_py, future_into_py_with_locals, future_into_py_with_loop,
    future_into_py_with_loop_calls, local_cancellable_future_into_py,
    local_cancellable_future_into_py_with_loop,
    local_future_into_py, local_future_into_py_with_locals, local_future_into_py_with_loop,
    start_calls, start_local_calls, with_locals_calls, with_loop_calls, Conversion,
};
use crate::delivery::{Delivery, Supervisor, Worker};
use crate::event_loop::{
    asked, call_module_calls, cancelled, cancelled_calls, cancelled_or_show,
    cancelled_or_show_calls, close, close_calls,
    says_cancelled, set_result, set_result_calls,
};
use crate::interpreter::{
    forwarded, is_none, produced, shown, wrapped, Call, Interpreter, Request, Turn,
};
use crate::locals::{
    copy_context_calls, current_locals_calls, forward_calls, get_current_locals,
    get_current_locals_calls, get_current_loop, get_running_loop, into_future,
    with_running_loop_calls, TaskLocals,
};
use crate::oneshot::{receiver_polled, Listener, Signal};
use crate::run::{
    run, run_and_close_calls, run_loop_calls, run_until_complete, run_until_complete_calls,
    ResultSlot,
};
use crate::runtime::{ContextExt, JoinError, Runtime, SpawnLocalExt};
use futures::channel::oneshot::{channel, Receiver, Sender};
use pyo3::exceptions::PyBaseException;
use pyo3::types::{PyDict, PyModule};
use pyo3::{Py, PyAny, PyErr, PyObject, PyResult, Python};
use std::future::Future;
use std::task::Context;
use vstd::prelude::*;

verus! {

// ---- Entries of the record ----

/// If the entry is a call to Python, the function of `pyo3` for it was called with `py` and with
/// what the entry names, and it gave what the entry says.
pub open spec fn genuine(call: Call, py: Python<'_>) -> bool {
    match call {
        Call::Object(Request::Import(name), answer) => exists|module: PyResult<&PyModule>|
            {
                &&& #[trigger] call_ensures(Python::import, (py, name), module)
                &&& module is Err ==> answer == Err::<PyObject, PyErr>(module->Err_0)
                &&& module is Ok ==> answer is Ok && call_ensures(
                    <PyObject as From<&PyModule>>::from,
                    (module->Ok_0,),
                    answer->Ok_0,
                )
            },
        Call::Object(Request::GetAttr(obj, name), answer) => call_ensures(
            Py::<PyAny>::getattr::<&'static str>,
            (&obj, py, name),
            answer,
        ),
        Call::Object(Request::Call0(obj), answer) => call_ensures(
            Py::<PyAny>::call0,
            (&obj, py),
            answer,
        ),
        Call::Object(Request::CallMethod0(obj, name), answer) => call_ensures(
            Py::<PyAny>::call_method0,
            (&obj, py, name),
            answer,
        ),
        Call::Object(Request::CallMethod1(obj, name, argument), answer) => call_ensures(
            Py::<PyAny>::call_method1,
            (&obj, py, name, (argument,)),
            answer,
        ),
        Call::Object(
            Request::CallSoonThreadsafe { event_loop, context, callback, argument },
            answer,
        ) => exists|kwargs: &PyDict, set: PyResult<()>|
            {
                &&& #[trigger] call_ensures(PyDict::new, (py,), kwargs)
                &&& #[trigger] call_ensures(
                    PyDict::set_item::<&'static str, &PyObject>,
                    (kwargs, "context", &context),
                    set,
                )
                &&& set is Err ==> answer == Err::<PyObject, PyErr>(set->Err_0)
                &&& set is Ok && argument is Ok ==> call_ensures(
                    Py::<PyAny>::call_method,
                    (
                        &event_loop,
                        py,
                        "call_soon_threadsafe",
                        (callback, argument->Ok_0),
                        Some(kwargs),
                    ),
                    answer,
                )
                &&& set is Ok && argument is Err ==> call_ensures(
                    Py::<PyAny>::call_method,
                    (
                        &event_loop,
                        py,
                        "call_soon_threadsafe",
                        (callback, argument->Err_0),
                        Some(kwargs),
                    ),
                    answer,
                )
            },
        Call::Truth(obj, answer) => call_ensures(Py::<PyAny>::is_true, (&obj, py), answer),
        _ => true,
    }
}

/// What went on record between two states of the interpreter.
pub open spec fn added(before: Interpreter<'_>, after: Interpreter<'_>) -> Seq<Call> {
    after@.skip(before@.len() as int)
}

/// Between two states of the interpreter the record has only grown, and each call to Python on it
/// was made.
pub open spec fn grew(before: Interpreter<'_>, after: Interpreter<'_>) -> bool {
    &&& after.token() == before.token()
    &&& after@ == before@ + added(before, after)
    &&& forall|i: int|
        before@.len() <= i < after@.len() ==> genuine(#[trigger] after@[i], after.token())
}

/// What Python raised in answer to a call, if it did.
pub open spec fn error_of(call: Call) -> Option<PyErr> {
    match call {
        Call::Object(_, Err(e)) => Some(e),
        Call::Truth(_, Err(e)) => Some(e),
        _ => None,
    }
}

/// No call but the last was answered with an error.
pub open spec fn stops_at_error(calls: Seq<Call>) -> bool {
    forall|i: int| 0 <= i < calls.len() - 1 ==> error_of(#[trigger] calls[i]) is None
}

/// The object that the call at `i` was answered with.
pub open spec fn got(calls: Seq<Call>, i: int) -> PyObject {
    calls[i]->Object_1->Ok_0
}

/// If there is a call at `i`, it is `request`.
pub open spec fn requests(calls: Seq<Call>, i: int, request: Request) -> bool {
    i < calls.len() ==> calls[i] == Call::Object(request, calls[i]->Object_1)
}

/// `obj` is what `Python::None` gave.
pub open spec fn none_given(obj: PyObject) -> bool {
    exists|py: Python<'_>| #[trigger] call_ensures(Python::None, (py,), obj)
}

/// In its turn, `show` was called with `e`.
pub open spec fn show_called<S: Fn(Turn, PyErr)>(show: S, e: PyErr) -> bool {
    exists|turn: Turn|
        turn.call() == Call::Show(e) && #[trigger] call_ensures(show, (turn, e), ())
}

/// A record that continues another has grown from it.
proof fn lemma_grew(before: Interpreter<'_>, after: Interpreter<'_>)
    requires
        after.continues(before),
    ensures
        grew(before, after),
        added(before, after) == after.since(before),
{
    assert(after@ == before@ + added(before, after));
    assert forall|i: int| before@.len() <= i < after@.len() implies genuine(
        #[trigger] after@[i],
        after.token(),
    ) by {
        assert(after@[i].was_made(after.token()));
    }
}

// ---- The event loop and its futures ----

/// A future is asked whether it is cancelled through its method of that name, and the answer is
/// taken for true or false as Python takes it. The first error is the result.
pub open spec fn asks_cancelled(calls: Seq<Call>, future: PyObject, r: PyResult<bool>) -> bool {
    &&& 1 <= calls.len() <= 3
    &&& stops_at_error(calls)
    &&& requests(calls, 0, Request::GetAttr(future, "cancelled"))
    &&& requests(calls, 1, Request::Call0(got(calls, 0)))
    &&& calls.len() > 2 ==> calls[2] == Call::Truth(got(calls, 1), r)
    &&& match error_of(calls.last()) {
        Some(e) => r == Err::<bool, PyErr>(e),
        None => calls.len() == 3 && r is Ok,
    }
}

proof fn lemma_asks_cancelled(calls: Seq<Call>, future: PyObject, r: PyResult<bool>)
    requires
        cancelled_calls(calls, future, r),
    ensures
        asks_cancelled(calls, future, r),
{
}

/// [`cancelled`] asks the method `cancelled` of the future, and nothing else.
pub proof fn law_cancelled(
    interpreter: &mut Interpreter<'_>,
    future: &PyObject,
    r: PyResult<bool>,
)
    requires
        call_ensures(cancelled, (interpreter, future), r),
    ensures
        grew(*old(interpreter), *final(interpreter)),
        asks_cancelled(added(*old(interpreter), *final(interpreter)), *future, r),
{
    lemma_grew(*old(interpreter), *final(interpreter));
    lemma_asks_cancelled(added(*old(interpreter), *final(interpreter)), *future, r);
}

/// [`asks_cancelled`], and an error is shown. The future counts as cancelled only if it says so.
pub open spec fn asks_cancelled_or_shows<S: Fn(Turn, PyErr)>(
    calls: Seq<Call>,
    future: PyObject,
    show: S,
    r: bool,
) -> bool {
    &&& calls.len() > 0
    &&& match calls.last() {
        Call::Show(e) => {
            &&& !r
            &&& asks_cancelled(calls.drop_last(), future, Err(e))
            &&& show_called(show, e)
        },
        _ => asks_cancelled(calls, future, Ok(r)),
    }
}

proof fn lemma_asks_cancelled_or_shows<S: Fn(Turn, PyErr)>(
    calls: Seq<Call>,
    future: PyObject,
    show: S,
    r: bool,
)
    requires
        cancelled_or_show_calls(calls, future, show, r),
    ensures
        asks_cancelled_or_shows(calls, future, show, r),
{
    let (first, rest, answer) = choose|first: Seq<Call>, rest: Seq<Call>, answer: PyResult<bool>|
        {
            &&& calls == #[trigger] (first + rest)
            &&& #[trigger] cancelled_calls(first, future, answer)
            &&& shown(rest, answer, show)
            &&& r == says_cancelled(answer)
        };
    lemma_asks_cancelled(first, future, answer);
    match answer {
        Err(e) => {
            assert(calls.drop_last() == first);
            assert(calls.last() == Call::Show(e));
        },
        Ok(said) => {
            assert(calls == first);
            assert(said == r);
        },
    }
}

/// [`cancelled_or_show`] says that a future is cancelled exactly if its method `cancelled` gave
/// something true. An error is shown, once.
pub proof fn law_cancelled_or_show<S: Fn(Turn, PyErr)>(
    interpreter: &mut Interpreter<'_>,
    future: &PyObject,
    show: &S,
    r: bool,
)
    requires
        call_ensures(cancelled_or_show::<S>, (interpreter, future, show), r),
    ensures
        grew(*old(interpreter), *final(interpreter)),
        asks_cancelled_or_shows(added(*old(interpreter), *final(interpreter)), *future, *show, r),
{
    lemma_grew(*old(interpreter), *final(interpreter));
    lemma_asks_cancelled_or_shows(
        added(*old(interpreter), *final(interpreter)),
        *future,
        *show,
        r,
    );
}

/// A future is completed by its event loop, with `result` itself: through `set_result` if it is a
/// value and through `set_exception` if it is an error. The first error is `r`.
pub open spec fn completes_with(
    calls: Seq<Call>,
    event_loop: PyObject,
    future: PyObject,
    result: PyResult<PyObject>,
    r: PyResult<()>,
) -> bool {
    &&& 1 <= calls.len() <= 2
    &&& stops_at_error(calls)
    &&& result is Ok ==> requests(calls, 0, Request::GetAttr(future, "set_result"))
    &&& result is Err ==> requests(calls, 0, Request::GetAttr(future, "set_exception"))
    &&& calls.len() == 2 ==> exists|none: PyObject| #[trigger]
        none_given(none) && requests(
            calls,
            1,
            Request::CallSoonThreadsafe {
                event_loop,
                context: none,
                callback: got(calls, 0),
                argument: result,
            },
        )
    &&& match error_of(calls.last()) {
        Some(e) => r == Err::<(), PyErr>(e),
        None => calls.len() == 2 && r is Ok,
    }
}

proof fn lemma_completes_with(
    calls: Seq<Call>,
    event_loop: PyObject,
    future: PyObject,
    result: PyResult<PyObject>,
    r: PyResult<()>,
)
    requires
        set_result_calls(calls, event_loop, future, result, r),
    ensures
        completes_with(calls, event_loop, future, result, r),
{
    if calls.len() == 2 {
        let none = choose|none: PyObject| #[trigger]
            is_none(none) && calls[1]->Object_0 == (Request::CallSoonThreadsafe {
                event_loop,
                context: none,
                callback: got(calls, 0),
                argument: result,
            });
        assert(none_given(none));
    }
}

/// [`set_result`] hands the loop the very value or error that it was given.
pub proof fn law_set_result(
    interpreter: &mut Interpreter<'_>,
    event_loop: &PyObject,
    future: &PyObject,
    result: PyResult<PyObject>,
    r: PyResult<()>,
)
    requires
        call_ensures(set_result, (interpreter, event_loop, future, result), r),
    ensures
        grew(*old(interpreter), *final(interpreter)),
        completes_with(
            added(*old(interpreter), *final(interpreter)),
            *event_loop,
            *future,
            result,
            r,
        ),
{
    lemma_grew(*old(interpreter), *final(interpreter));
    lemma_completes_with(
        added(*old(interpreter), *final(interpreter)),
        *event_loop,
        *future,
        result,
        r,
    );
}

/// A loop is shut down: first its asynchronous generators, then its executor if the loop has a
/// method for that, each of them by running the loop until that is done, and then the loop is
/// closed.
pub open spec fn shuts_down(calls: Seq<Call>, event_loop: PyObject, r: PyResult<()>) -> bool {
    let plain = calls.len() > 3 && error_of(calls[2]) is Some;
    &&& 1 <= calls.len() <= 6
    &&& forall|i: int|
        0 <= i < calls.len() - 1 && i != 2 ==> error_of(#[trigger] calls[i]) is None
    &&& requests(calls, 0, Request::CallMethod0(event_loop, "shutdown_asyncgens"))
    &&& requests(calls, 1, Request::CallMethod1(event_loop, "run_until_complete", got(calls, 0)))
    &&& requests(calls, 2, Request::GetAttr(event_loop, "shutdown_default_executor"))
    &&& if plain {
        calls.len() == 4 && requests(calls, 3, Request::CallMethod0(event_loop, "close"))
    } else {
        &&& requests(calls, 3, Request::CallMethod0(event_loop, "shutdown_default_executor"))
        &&& requests(
            calls,
            4,
            Request::CallMethod1(event_loop, "run_until_complete", got(calls, 3)),
        )
        &&& requests(calls, 5, Request::CallMethod0(event_loop, "close"))
    }
    &&& match error_of(calls.last()) {
        Some(e) => calls.len() != 3 && r == Err::<(), PyErr>(e),
        None => (plain || calls.len() == 6) && r is Ok,
    }
}

proof fn lemma_shuts_down(calls: Seq<Call>, event_loop: PyObject, r: PyResult<()>)
    requires
        close_calls(calls, event_loop, r),
    ensures
        shuts_down(calls, event_loop, r),
{
}

/// [`close`] shuts the loop down and closes it. If it succeeds, the loop has been closed.
pub proof fn law_close(
    interpreter: &mut Interpreter<'_>,
    event_loop: &PyObject,
    r: PyResult<()>,
)
    requires
        call_ensures(close, (interpreter, event_loop), r),
    ensures
        grew(*old(interpreter), *final(interpreter)),
        shuts_down(added(*old(interpreter), *final(interpreter)), *event_loop, r),
{
    lemma_grew(*old(interpreter), *final(interpreter));
    lemma_shuts_down(added(*old(interpreter), *final(interpreter)), *event_loop, r);
}

// ---- Task locals ----

/// `asyncio` is imported, at `i`, and its function `get_running_loop` is called.
pub open spec fn looks_up_running_loop(calls: Seq<Call>, i: int) -> bool {
    &&& requests(calls, i, Request::Import("asyncio"))
    &&& requests(calls, i + 1, Request::CallMethod0(got(calls, i), "get_running_loop"))
}

/// `contextvars` is imported, at `i`, and its function `copy_context` is called.
pub open spec fn copies_context(calls: Seq<Call>, i: int) -> bool {
    &&& requests(calls, i, Request::Import("contextvars"))
    &&& requests(calls, i + 1, Request::CallMethod0(got(calls, i), "copy_context"))
}

/// There are `n` calls, fewer only if one fails. If one fails, its error is the result.
pub open spec fn all_or_error<T>(calls: Seq<Call>, n: int, r: PyResult<T>) -> bool {
    &&& 1 <= calls.len() <= n
    &&& stops_at_error(calls)
    &&& match error_of(calls.last()) {
        Some(e) => r == Err::<T, PyErr>(e),
        None => calls.len() == n && r is Ok,
    }
}

/// [`get_running_loop`] gives what `asyncio.get_running_loop()` gives.
pub proof fn law_get_running_loop(interpreter: &mut Interpreter<'_>, r: PyResult<PyObject>)
    requires
        call_ensures(get_running_loop, (interpreter,), r),
    ensures
        grew(*old(interpreter), *final(interpreter)),
        ({
            let calls = added(*old(interpreter), *final(interpreter));
            &&& all_or_error(calls, 2, r)
            &&& looks_up_running_loop(calls, 0)
            &&& r is Ok ==> r->Ok_0 == got(calls, 1)
        }),
{
    lemma_grew(*old(interpreter), *final(interpreter));
}

/// [`TaskLocals::new`] holds the event loop and no context.
pub proof fn law_new_locals(interpreter: &Interpreter<'_>, event_loop: PyObject, r: TaskLocals)
    requires
        call_ensures(TaskLocals::new, (interpreter, event_loop), r),
    ensures
        r.event_loop == event_loop,
        none_given(r.context),
{
}

/// [`TaskLocals::with_context`] exchanges the context and nothing else.
pub proof fn law_with_context(locals: TaskLocals, context: PyObject, r: TaskLocals)
    requires
        call_ensures(TaskLocals::with_context, (locals, context), r),
    ensures
        r.event_loop == locals.event_loop,
        r.context == context,
{
}

/// [`TaskLocals::with_running_loop`] holds the loop that `asyncio.get_running_loop()` gives, and no
/// context.
pub proof fn law_with_running_loop(interpreter: &mut Interpreter<'_>, r: PyResult<TaskLocals>)
    requires
        call_ensures(TaskLocals::with_running_loop, (interpreter,), r),
    ensures
        grew(*old(interpreter), *final(interpreter)),
        ({
            let calls = added(*old(interpreter), *final(interpreter));
            &&& all_or_error(calls, 2, r)
            &&& looks_up_running_loop(calls, 0)
            &&& r is Ok ==> r->Ok_0.event_loop == got(calls, 1) && none_given(r->Ok_0.context)
        }),
{
    lemma_grew(*old(interpreter), *final(interpreter));
}

/// [`TaskLocals::copy_context`] keeps the loop. The context is what `contextvars.copy_context()`
/// gives.
pub proof fn law_copy_context(
    locals: TaskLocals,
    interpreter: &mut Interpreter<'_>,
    r: PyResult<TaskLocals>,
)
    requires
        call_ensures(TaskLocals::copy_context, (locals, interpreter), r),
    ensures
        grew(*old(interpreter), *final(interpreter)),
        ({
            let calls = added(*old(interpreter), *final(interpreter));
            &&& all_or_error(calls, 2, r)
            &&& copies_context(calls, 0)
            &&& r is Ok ==> r->Ok_0.event_loop == locals.event_loop && r->Ok_0.context == got(
                calls,
                1,
            )
        }),
{
    lemma_grew(*old(interpreter), *final(interpreter));
}

/// [`get_current_loop`] gives the loop of the task locals that the runtime tells, without asking
/// Python. Where the runtime tells none, it gives what `asyncio.get_running_loop()` gives.
pub proof fn law_get_current_loop<R: ContextExt>(
    interpreter: &mut Interpreter<'_>,
    r: PyResult<PyObject>,
)
    requires
        call_ensures(get_current_loop::<R>, (interpreter,), r),
    ensures
        grew(*old(interpreter), *final(interpreter)),
        exists|told: Option<TaskLocals>|
            {
                let calls = added(*old(interpreter), *final(interpreter));
                &&& #[trigger] call_ensures(R::get_task_locals, (), told)
                &&& told is Some ==> calls.len() == 0 && r == Ok::<PyObject, PyErr>(
                    told->0.event_loop,
                )
                &&& told is None ==> {
                    &&& all_or_error(calls, 2, r)
                    &&& looks_up_running_loop(calls, 0)
                    &&& r is Ok ==> r->Ok_0 == got(calls, 1)
                }
            },
{
    lemma_grew(*old(interpreter), *final(interpreter));
}

/// The running loop is looked up and the context is copied. The result holds both.
pub open spec fn looks_up_locals(calls: Seq<Call>, r: PyResult<TaskLocals>) -> bool {
    &&& all_or_error(calls, 4, r)
    &&& looks_up_running_loop(calls, 0)
    &&& copies_context(calls, 2)
    &&& r is Ok ==> r->Ok_0.event_loop == got(calls, 1) && r->Ok_0.context == got(calls, 3)
}

/// The result is what the runtime has told, or, where it has told nothing, what Python gives.
pub open spec fn finds_locals(
    calls: Seq<Call>,
    told: Option<TaskLocals>,
    r: PyResult<TaskLocals>,
) -> bool {
    &&& told is Some ==> calls.len() == 0 && r == Ok::<TaskLocals, PyErr>(told->0)
    &&& told is None ==> looks_up_locals(calls, r)
}

proof fn lemma_finds_locals(
    calls: Seq<Call>,
    told: Option<TaskLocals>,
    r: PyResult<TaskLocals>,
)
    requires
        current_locals_calls(calls, told, r),
    ensures
        finds_locals(calls, told, r),
{
    if told is None {
        let (first, rest, running) = choose|
            first: Seq<Call>,
            rest: Seq<Call>,
            running: PyResult<TaskLocals>,
        |
            {
                &&& calls == #[trigger] (first + rest)
                &&& #[trigger] with_running_loop_calls(first, running)
                &&& match running {
                    Err(e) => rest.len() == 0 && r == Err::<TaskLocals, PyErr>(e),
                    Ok(locals) => copy_context_calls(rest, locals, r),
                }
            };
        assert(forall|i: int| 0 <= i < first.len() ==> calls[i] == first[i]);
        assert(forall|i: int|
            first.len() <= i < calls.len() ==> calls[i] == rest[i - first.len()]);
        if running is Err {
            assert(calls == first);
        } else {
            assert(first.len() == 2);
            assert(calls[2] == rest[0]);
            if rest.len() == 2 {
                assert(calls[3] == rest[1]);
            }
        }
    }
}

/// [`get_current_locals`] gives the task locals that the runtime tells, without asking Python.
/// Where the runtime tells none, they hold what `asyncio.get_running_loop()` and
/// `contextvars.copy_context()` give.
pub proof fn law_get_current_locals<R: ContextExt>(
    interpreter: &mut Interpreter<'_>,
    r: PyResult<TaskLocals>,
)
    requires
        call_ensures(get_current_locals::<R>, (interpreter,), r),
    ensures
        grew(*old(interpreter), *final(interpreter)),
        exists|told: Option<TaskLocals>| #[trigger]
            call_ensures(R::get_task_locals, (), told) && finds_locals(
                added(*old(interpreter), *final(interpreter)),
                told,
                r,
            ),
{
    lemma_grew(*old(interpreter), *final(interpreter));
    let calls = added(*old(interpreter), *final(interpreter));
    let told = choose|told: Option<TaskLocals>| #[trigger]
        call_ensures(R::get_task_locals, (), told) && current_locals_calls(calls, told, r);
    lemma_finds_locals(calls, told, r);
}

/// [`into_future`] hands the awaitable on with the current task locals, wherever these come from,
/// and gives what comes of that. Where they cannot be had, the awaitable is not handed on.
pub proof fn law_into_future<R, X, K>(
    interpreter: &mut Interpreter<'_>,
    awaitable: PyObject,
    into_future_with_locals: K,
    r: PyResult<X>,
) where R: ContextExt, K: FnOnce(Turn, &TaskLocals, PyObject) -> PyResult<X>
    requires
        call_ensures(
            into_future::<R, X, K>,
            (interpreter, awaitable, into_future_with_locals),
            r,
        ),
    ensures
        grew(*old(interpreter), *final(interpreter)),
        exists|told: Option<TaskLocals>, current: PyResult<TaskLocals>, lookup: Seq<Call>|
            {
                let calls = added(*old(interpreter), *final(interpreter));
                &&& #[trigger] call_ensures(R::get_task_locals, (), told)
                &&& #[trigger] finds_locals(lookup, told, current)
                &&& match current {
                    Err(e) => calls == lookup && r == Err::<X, PyErr>(e),
                    Ok(locals) => {
                        &&& calls == lookup.push(Call::Forward(locals, awaitable))
                        &&& exists|turn: Turn|
                            turn.call() == Call::Forward(locals, awaitable)
                                && #[trigger] call_ensures(
                                into_future_with_locals,
                                (turn, &locals, awaitable),
                                r,
                            )
                    },
                }
            },
{
    lemma_grew(*old(interpreter), *final(interpreter));
    let calls = added(*old(interpreter), *final(interpreter));
    let told = choose|told: Option<TaskLocals>| #[trigger]
        call_ensures(R::get_task_locals, (), told) && forward_calls(
            calls,
            told,
            awaitable,
            into_future_with_locals,
            r,
        );
    let (first, rest, current) = choose|
        first: Seq<Call>,
        rest: Seq<Call>,
        current: PyResult<TaskLocals>,
    |
        {
            &&& calls == #[trigger] (first + rest)
            &&& #[trigger] current_locals_calls(first, told, current)
            &&& match current {
                Err(e) => rest.len() == 0 && r == Err::<X, PyErr>(e),
                Ok(locals) => {
                    &&& rest == seq![Call::Forward(locals, awaitable)]
                    &&& forwarded(into_future_with_locals, locals, awaitable, r)
                },
            }
        };
    lemma_finds_locals(first, told, current);
    match current {
        Err(_) => {
            assert(calls == first);
        },
        Ok(locals) => {
            assert(calls == first.push(Call::Forward(locals, awaitable)));
        },
    }
}

// ---- Conversions ----

/// In its turn, `wrap` made `callable` of `callback`.
pub open spec fn wrap_called<W: FnOnce(Turn, PyDoneCallback) -> PyObject>(
    wrap: W,
    callback: PyDoneCallback,
    callable: PyObject,
) -> bool {
    exists|turn: Turn|
        turn.call() == Call::Wrap(callback) && #[trigger] call_ensures(
            wrap,
            (turn, callback),
            callable,
        )
}

/// A worker and a supervisor for the Python future `py_fut`: both complete it on the event loop of
/// `locals`, the worker is to set `locals` and listens to `cancel_rx`, and the supervisor is to
/// report a panic with `panic_message`.
pub open spec fn work_for(
    worker: Worker,
    supervisor: Supervisor,
    py_fut: PyObject,
    locals: TaskLocals,
    cancel_rx: Receiver<()>,
    panic_message: &'static str,
) -> bool {
    &&& worker.locals == locals
    &&& worker.delivery.event_loop == locals.event_loop
    &&& worker.delivery.future == py_fut
    &&& worker.cancel.poll_cancel_rx
    &&& worker.cancel.cancel_rx.receiver() == cancel_rx
    &&& worker.cancel.cancel_rx.signals().len() == 0
    &&& supervisor.delivery.event_loop == locals.event_loop
    &&& supervisor.delivery.future == py_fut
    &&& supervisor.panic_message == panic_message
}

/// The event loop creates the Python future. A callback with the sender of a new channel is added
/// to it. Then the task is spawned for a worker that has the receiver. The future is the result.
pub open spec fn makes_awaitable<W: FnOnce(Turn, PyDoneCallback) -> PyObject>(
    calls: Seq<Call>,
    locals: TaskLocals,
    wrap: W,
    panic_message: &'static str,
    r: PyResult<PyObject>,
) -> bool {
    &&& all_or_error(calls, 4, r)
    &&& requests(calls, 0, Request::CallMethod0(locals.event_loop, "create_future"))
    &&& calls.len() > 1 ==> exists|tx: Sender<()>, rx: Receiver<()>, callable: PyObject|
        {
            &&& #[trigger] call_ensures(channel::<()>, (), (tx, rx))
            &&& calls[1] == Call::Wrap(PyDoneCallback { cancel_tx: Some(tx) })
            &&& #[trigger] wrap_called(wrap, PyDoneCallback { cancel_tx: Some(tx) }, callable)
            &&& requests(
                calls,
                2,
                Request::CallMethod1(got(calls, 0), "add_done_callback", callable),
            )
            &&& calls.len() == 4 ==> {
                &&& calls[3] is Spawn
                &&& work_for(
                    calls[3]->Spawn_0,
                    calls[3]->Spawn_1,
                    got(calls, 0),
                    locals,
                    rx,
                    panic_message,
                )
                &&& r == Ok::<PyObject, PyErr>(got(calls, 0))
            }
        }
}

/// The context is copied, then [`makes_awaitable`] with the loop and the copy.
pub open spec fn makes_awaitable_for_loop<W: FnOnce(Turn, PyDoneCallback) -> PyObject>(
    calls: Seq<Call>,
    event_loop: PyObject,
    wrap: W,
    panic_message: &'static str,
    r: PyResult<PyObject>,
) -> bool {
    &&& copies_context(calls, 0)
    &&& if calls.len() <= 2 {
        all_or_error(calls, 2, r) && r is Err
    } else {
        &&& error_of(calls[0]) is None
        &&& error_of(calls[1]) is None
        &&& makes_awaitable(
            calls.skip(2),
            (TaskLocals { event_loop, context: got(calls, 1) }),
            wrap,
            panic_message,
            r,
        )
    }
}

/// The locals of the current task are found, with `lookup`, then [`makes_awaitable`] with them.
pub open spec fn makes_awaitable_here<W: FnOnce(Turn, PyDoneCallback) -> PyObject>(
    calls: Seq<Call>,
    lookup: Seq<Call>,
    told: Option<TaskLocals>,
    wrap: W,
    panic_message: &'static str,
    r: PyResult<PyObject>,
) -> bool {
    exists|current: PyResult<TaskLocals>|
        {
            &&& #[trigger] finds_locals(lookup, told, current)
            &&& match current {
                Err(e) => calls == lookup && r == Err::<PyObject, PyErr>(e),
                Ok(locals) => {
                    &&& lookup.is_prefix_of(calls)
                    &&& makes_awaitable(
                        calls.skip(lookup.len() as int),
                        locals,
                        wrap,
                        panic_message,
                        r,
                    )
                },
            }
        }
}

/// In the turn of the entry `spawn`, `task` made a task for its worker and supervisor, and that
/// task went to `R::spawn`.
pub open spec fn task_spawned<R, M, F>(spawn: Call, task: M) -> bool where
    R: Runtime,
    M: FnOnce(Turn, Worker, Supervisor) -> F,
    F: Future<Output = ()> + Send + 'static,
 {
    exists|turn: Turn, fut: F, handle: R::JoinHandle|
        {
            &&& turn.call() == spawn
            &&& #[trigger] call_ensures(task, (turn, spawn->Spawn_0, spawn->Spawn_1), fut)
            &&& #[trigger] call_ensures(R::spawn::<F>, (fut,), handle)
        }
}

/// In the turn of the entry `spawn`, `task` made a task for its worker and supervisor, and that
/// task went to `R::spawn_local`.
pub open spec fn task_spawned_local<R, M, F>(spawn: Call, task: M) -> bool where
    R: SpawnLocalExt,
    M: FnOnce(Turn, Worker, Supervisor) -> F,
    F: Future<Output = ()> + 'static,
 {
    exists|turn: Turn, fut: F, handle: R::JoinHandle|
        {
            &&& turn.call() == spawn
            &&& #[trigger] call_ensures(task, (turn, spawn->Spawn_0, spawn->Spawn_1), fut)
            &&& #[trigger] call_ensures(R::spawn_local::<F>, (fut,), handle)
        }
}

/// `starting` spawns the task of `converted`, or does nothing if that is an error.
spec fn starts(
    starting: Seq<Call>,
    converted: PyResult<Conversion>,
    r: PyResult<PyObject>,
) -> bool {
    match converted {
        Err(e) => starting.len() == 0 && r == Err::<PyObject, PyErr>(e),
        Ok(c) => starting == seq![Call::Spawn(c.worker, c.supervisor)] && r == Ok::<
            PyObject,
            PyErr,
        >(c.py_fut),
    }
}

proof fn lemma_makes_awaitable<W: FnOnce(Turn, PyDoneCallback) -> PyObject>(
    converting: Seq<Call>,
    starting: Seq<Call>,
    locals: TaskLocals,
    wrap: W,
    panic_message: &'static str,
    converted: PyResult<Conversion>,
    r: PyResult<PyObject>,
)
    requires
        with_locals_calls(converting, locals, wrap, panic_message, converted),
        starts(starting, converted, r),
    ensures
        makes_awaitable(converting + starting, locals, wrap, panic_message, r),
{
    let calls = converting + starting;
    let halves = choose|halves: (Sender<()>, Receiver<()>)|
        {
            &&& #[trigger] call_ensures(channel::<()>, (), halves)
            &&& convert_calls(converting, locals, wrap, halves, panic_message, converted)
        };
    assert(call_ensures(channel::<()>, (), (halves.0, halves.1)));
    assert(forall|i: int| 0 <= i < converting.len() ==> calls[i] == converting[i]);
    if converting.len() > 1 {
        let callback = PyDoneCallback { cancel_tx: Some(halves.0) };
        let callable = choose|callable: PyObject| #[trigger]
            wrapped(wrap, callback, callable) && asked(
                converting,
                2,
                Request::CallMethod1(got(converting, 0), "add_done_callback", callable),
            );
        assert(wrap_called(wrap, callback, callable));
        if converted is Ok {
            assert(calls[3] == starting[0]);
            assert(calls.len() == 4);
        } else {
            assert(calls == converting);
        }
    } else {
        assert(calls == converting);
    }
}

proof fn lemma_makes_awaitable_for_loop<W: FnOnce(Turn, PyDoneCallback) -> PyObject>(
    converting: Seq<Call>,
    starting: Seq<Call>,
    event_loop: PyObject,
    wrap: W,
    panic_message: &'static str,
    converted: PyResult<Conversion>,
    r: PyResult<PyObject>,
)
    requires
        with_loop_calls(converting, event_loop, wrap, panic_message, converted),
        starts(starting, converted, r),
    ensures
        makes_awaitable_for_loop(converting + starting, event_loop, wrap, panic_message, r),
{
    let calls = converting + starting;
    let (first, rest, fresh, copied) = choose|
        first: Seq<Call>,
        rest: Seq<Call>,
        fresh: TaskLocals,
        copied: PyResult<TaskLocals>,
    |
        {
            &&& converting == #[trigger] (first + rest)
            &&& fresh.event_loop == event_loop
            &&& is_none(fresh.context)
            &&& #[trigger] copy_context_calls(first, fresh, copied)
            &&& match copied {
                Err(e) => rest.len() == 0 && converted == Err::<Conversion, PyErr>(e),
                Ok(locals) => with_locals_calls(rest, locals, wrap, panic_message, converted),
            }
        };
    assert(forall|i: int| 0 <= i < first.len() ==> calls[i] == first[i]);
    match copied {
        Err(_) => {
            assert(calls == first);
        },
        Ok(locals) => {
            lemma_makes_awaitable(rest, starting, locals, wrap, panic_message, converted, r);
            assert(first.len() == 2);
            assert(calls.skip(2) == rest + starting);
            assert(locals == TaskLocals { event_loop, context: got(calls, 1) });
        },
    }
}

proof fn lemma_makes_awaitable_here<R, W>(
    converting: Seq<Call>,
    starting: Seq<Call>,
    wrap: W,
    panic_message: &'static str,
    converted: PyResult<Conversion>,
    r: PyResult<PyObject>,
) where R: ContextExt, W: FnOnce(Turn, PyDoneCallback) -> PyObject
    requires
        current_calls::<R, W>(converting, wrap, panic_message, converted),
        starts(starting, converted, r),
    ensures
        exists|told: Option<TaskLocals>, lookup: Seq<Call>| #[trigger]
            call_ensures(R::get_task_locals, (), told) && #[trigger] makes_awaitable_here(
                converting + starting,
                lookup,
                told,
                wrap,
                panic_message,
                r,
            ),
{
    let calls = converting + starting;
    let (first, rest, current) = choose|
        first: Seq<Call>,
        rest: Seq<Call>,
        current: PyResult<TaskLocals>,
    |
        {
            &&& converting == #[trigger] (first + rest)
            &&& #[trigger] get_current_locals_calls::<R>(first, current)
            &&& match current {
                Err(e) => rest.len() == 0 && converted == Err::<Conversion, PyErr>(e),
                Ok(locals) => with_locals_calls(rest, locals, wrap, panic_message, converted),
            }
        };
    let told = choose|told: Option<TaskLocals>| #[trigger]
        call_ensures(R::get_task_locals, (), told) && current_locals_calls(first, told, current);
    lemma_finds_locals(first, told, current);
    match current {
        Err(_) => {
            assert(calls == first);
        },
        Ok(locals) => {
            lemma_makes_awaitable(rest, starting, locals, wrap, panic_message, converted, r);
            assert(calls.skip(first.len() as int) == rest + starting);
        },
    }
    assert(makes_awaitable_here(calls, first, told, wrap, panic_message, r));
}

/// [`future_into_py_with_locals`] makes a Python future with the task locals that it is given, and
/// spawns one task exactly if that succeeds.
pub proof fn law_future_into_py_with_locals<R, W, M, F>(
    interpreter: &mut Interpreter<'_>,
    locals: TaskLocals,
    wrap: W,
    task: M,
    r: PyResult<PyObject>,
) where
    R: ContextExt,
    W: FnOnce(Turn, PyDoneCallback) -> PyObject,
    M: FnOnce(Turn, Worker, Supervisor) -> F,
    F: Future<Output = ()> + Send + 'static,

    requires
        call_ensures(
            future_into_py_with_locals::<R, W, M, F>,
            (interpreter, locals, wrap, task),
            r,
        ),
    ensures
        grew(*old(interpreter), *final(interpreter)),
        makes_awaitable(
            added(*old(interpreter), *final(interpreter)),
            locals,
            wrap,
            "rust future panicked",
            r,
        ),
        r is Ok ==> task_spawned::<R, M, F>(
            added(*old(interpreter), *final(interpreter)).last(),
            task,
        ),
{
    lemma_grew(*old(interpreter), *final(interpreter));
    let calls = added(*old(interpreter), *final(interpreter));
    let message = "rust future panicked";
    let (converting, starting, converted) = choose|
        converting: Seq<Call>,
        starting: Seq<Call>,
        converted: PyResult<Conversion>,
    |
        {
            &&& calls == #[trigger] (converting + starting)
            &&& #[trigger] with_locals_calls(converting, locals, wrap, message, converted)
            &&& start_calls::<R, M, F>(starting, converted, task, r)
        };
    lemma_makes_awaitable(converting, starting, locals, wrap, message, converted, r);
    if r is Ok {
        assert(calls.last() == starting[0]);
    }
}

/// [`future_into_py_with_loop`] makes a Python future for the loop that it is given, with a copy of
/// the current context, and spawns one task exactly if that succeeds.
pub proof fn law_future_into_py_with_loop<R, W, M, F>(
    interpreter: &mut Interpreter<'_>,
    event_loop: PyObject,
    wrap: W,
    task: M,
    r: PyResult<PyObject>,
) where
    R: ContextExt,
    W: FnOnce(Turn, PyDoneCallback) -> PyObject,
    M: FnOnce(Turn, Worker, Supervisor) -> F,
    F: Future<Output = ()> + Send + 'static,

    requires
        call_ensures(
            future_into_py_with_loop::<R, W, M, F>,
            (interpreter, event_loop, wrap, task),
            r,
        ),
    ensures
        grew(*old(interpreter), *final(interpreter)),
        makes_awaitable_for_loop(
            added(*old(interpreter), *final(interpreter)),
            event_loop,
            wrap,
            "rust future panicked",
            r,
        ),
        r is Ok ==> task_spawned::<R, M, F>(
            added(*old(interpreter), *final(interpreter)).last(),
            task,
        ),
{
    lemma_grew(*old(interpreter), *final(interpreter));
    let calls = added(*old(interpreter), *final(interpreter));
    let message = "rust future panicked";
    let (converting, starting, converted) = choose|
        converting: Seq<Call>,
        starting: Seq<Call>,
        converted: PyResult<Conversion>,
    |
        {
            &&& calls == #[trigger] (converting + starting)
            &&& #[trigger] with_loop_calls(converting, event_loop, wrap, message, converted)
            &&& start_calls::<R, M, F>(starting, converted, task, r)
        };
    lemma_makes_awaitable_for_loop(converting, starting, event_loop, wrap, message, converted, r);
    if r is Ok {
        assert(calls.last() == starting[0]);
    }
}

/// [`cancellable_future_into_py_with_loop`] makes a Python future for the loop that it is given,
/// with a copy of the current context, and spawns one task exactly if that succeeds.
pub proof fn law_cancellable_future_into_py_with_loop<R, W, M, F>(
    interpreter: &mut Interpreter<'_>,
    event_loop: PyObject,
    wrap: W,
    task: M,
    r: PyResult<PyObject>,
) where
    R: ContextExt,
    W: FnOnce(Turn, PyDoneCallback) -> PyObject,
    M: FnOnce(Turn, Worker, Supervisor) -> F,
    F: Future<Output = ()> + Send + 'static,

    requires
        call_ensures(
            cancellable_future_into_py_with_loop::<R, W, M, F>,
            (interpreter, event_loop, wrap, task),
            r,
        ),
    ensures
        grew(*old(interpreter), *final(interpreter)),
        makes_awaitable_for_loop(
            added(*old(interpreter), *final(interpreter)),
            event_loop,
            wrap,
            "rust future panicked",
            r,
        ),
        r is Ok ==> task_spawned::<R, M, F>(
            added(*old(interpreter), *final(interpreter)).last(),
            task,
        ),
{
    lemma_grew(*old(interpreter), *final(interpreter));
    let calls = added(*old(interpreter), *final(interpreter));
    let message = "rust future panicked";
    let (converting, starting, converted) = choose|
        converting: Seq<Call>,
        starting: Seq<Call>,
        converted: PyResult<Conversion>,
    |
        {
            &&& calls == #[trigger] (converting + starting)
            &&& #[trigger] with_loop_calls(converting, event_loop, wrap, message, converted)
            &&& start_calls::<R, M, F>(starting, converted, task, r)
        };
    lemma_makes_awaitable_for_loop(converting, starting, event_loop, wrap, message, converted, r);
    if r is Ok {
        assert(calls.last() == starting[0]);
    }
}

/// [`future_into_py`] makes a Python future with the locals of the current task, and spawns one
/// task exactly if that succeeds.
pub proof fn law_future_into_py<R, W, M, F>(
    interpreter: &mut Interpreter<'_>,
    wrap: W,
    task: M,
    r: PyResult<PyObject>,
) where
    R: ContextExt,
    W: FnOnce(Turn, PyDoneCallback) -> PyObject,
    M: FnOnce(Turn, Worker, Supervisor) -> F,
    F: Future<Output = ()> + Send + 'static,

    requires
        call_ensures(
            future_into_py::<R, W, M, F>,
            (interpreter, wrap, task),
            r,
        ),
    ensures
        grew(*old(interpreter), *final(interpreter)),
        exists|told: Option<TaskLocals>, lookup: Seq<Call>| #[trigger]
            call_ensures(R::get_task_locals, (), told) && #[trigger] makes_awaitable_here(
                added(*old(interpreter), *final(interpreter)),
                lookup,
                told,
                wrap,
                "rust future panicked",
                r,
            ),
        r is Ok ==> task_spawned::<R, M, F>(
            added(*old(interpreter), *final(interpreter)).last(),
            task,
        ),
{
    lemma_grew(*old(interpreter), *final(interpreter));
    let calls = added(*old(interpreter), *final(interpreter));
    let message = "rust future panicked";
    let (converting, starting, converted) = choose|
        converting: Seq<Call>,
        starting: Seq<Call>,
        converted: PyResult<Conversion>,
    |
        {
            &&& calls == #[trigger] (converting + starting)
            &&& #[trigger] current_calls::<R, W>(converting, wrap, message, converted)
            &&& start_calls::<R, M, F>(starting, converted, task, r)
        };
    lemma_makes_awaitable_here::<R, W>(converting, starting, wrap, message, converted, r);
    if r is Ok {
        assert(calls.last() == starting[0]);
    }
}

/// [`cancellable_future_into_py`] makes a Python future with the locals of the current task, and
/// spawns one task exactly if that succeeds.
pub proof fn law_cancellable_future_into_py<R, W, M, F>(
    interpreter: &mut Interpreter<'_>,
    wrap: W,
    task: M,
    r: PyResult<PyObject>,
) where
    R: ContextExt,
    W: FnOnce(Turn, PyDoneCallback) -> PyObject,
    M: FnOnce(Turn, Worker, Supervisor) -> F,
    F: Future<Output = ()> + Send + 'static,

    requires
        call_ensures(
            cancellable_future_into_py::<R, W, M, F>,
            (interpreter, wrap, task),
            r,
        ),
    ensures
        grew(*old(interpreter), *final(interpreter)),
        exists|told: Option<TaskLocals>, lookup: Seq<Call>| #[trigger]
            call_ensures(R::get_task_locals, (), told) && #[trigger] makes_awaitable_here(
                added(*old(interpreter), *final(interpreter)),
                lookup,
                told,
                wrap,
                "rust future panicked",
                r,
            ),
        r is Ok ==> task_spawned::<R, M, F>(
            added(*old(interpreter), *final(interpreter)).last(),
            task,
        ),
{
    lemma_grew(*old(interpreter), *final(interpreter));
    let calls = added(*old(interpreter), *final(interpreter));
    let message = "rust future panicked";
    let (converting, starting, converted) = choose|
        converting: Seq<Call>,
        starting: Seq<Call>,
        converted: PyResult<Conversion>,
    |
        {
            &&& calls == #[trigger] (converting + starting)
            &&& #[trigger] current_calls::<R, W>(converting, wrap, message, converted)
            &&& start_calls::<R, M, F>(starting, converted, task, r)
        };
    lemma_makes_awaitable_here::<R, W>(converting, starting, wrap, message, converted, r);
    if r is Ok {
        assert(calls.last() == starting[0]);
    }
}

/// [`local_future_into_py_with_locals`] makes a Python future with the task locals that it is
/// given, and spawns one task on the current thread exactly if that succeeds.
pub proof fn law_local_future_into_py_with_locals<R, W, M, F>(
    interpreter: &mut Interpreter<'_>,
    locals: TaskLocals,
    wrap: W,
    task: M,
    r: PyResult<PyObject>,
) where
    R: SpawnLocalExt,
    W: FnOnce(Turn, PyDoneCallback) -> PyObject,
    M: FnOnce(Turn, Worker, Supervisor) -> F,
    F: Future<Output = ()> + 'static,

    requires
        call_ensures(
            local_future_into_py_with_locals::<R, W, M, F>,
            (interpreter, locals, wrap, task),
            r,
        ),
    ensures
        grew(*old(interpreter), *final(interpreter)),
        makes_awaitable(
            added(*old(interpreter), *final(interpreter)),
            locals,
            wrap,
            "Rust future panicked",
            r,
        ),
        r is Ok ==> task_spawned_local::<R, M, F>(
            added(*old(interpreter), *final(interpreter)).last(),
            task,
        ),
{
    lemma_grew(*old(interpreter), *final(interpreter));
    let calls = added(*old(interpreter), *final(interpreter));
    let message = "Rust future panicked";
    let (converting, starting, converted) = choose|
        converting: Seq<Call>,
        starting: Seq<Call>,
        converted: PyResult<Conversion>,
    |
        {
            &&& calls == #[trigger] (converting + starting)
            &&& #[trigger] with_locals_calls(converting, locals, wrap, message, converted)
            &&& start_local_calls::<R, M, F>(starting, converted, task, r)
        };
    lemma_makes_awaitable(converting, starting, locals, wrap, message, converted, r);
    if r is Ok {
        assert(calls.last() == starting[0]);
    }
}

/// [`local_future_into_py_with_loop`] makes a Python future for the loop that it is given, with a
/// copy of the current context, and spawns one task on the current thread exactly if that succeeds.
pub proof fn law_local_future_into_py_with_loop<R, W, M, F>(
    interpreter: &mut Interpreter<'_>,
    event_loop: PyObject,
    wrap: W,
    task: M,
    r: PyResult<PyObject>,
) where
    R: SpawnLocalExt,
    W: FnOnce(Turn, PyDoneCallback) -> PyObject,
    M: FnOnce(Turn, Worker, Supervisor) -> F,
    F: Future<Output = ()> + 'static,

    requires
        call_ensures(
            local_future_into_py_with_loop::<R, W, M, F>,
            (interpreter, event_loop, wrap, task),
            r,
        ),
    ensures
        grew(*old(interpreter), *final(interpreter)),
        makes_awaitable_for_loop(
            added(*old(interpreter), *final(interpreter)),
            event_loop,
            wrap,
            "Rust future panicked",
            r,
        ),
        r is Ok ==> task_spawned_local::<R, M, F>(
            added(*old(interpreter), *final(interpreter)).last(),
            task,
        ),
{
    lemma_grew(*old(interpreter), *final(interpreter));
    let calls = added(*old(interpreter), *final(interpreter));
    let message = "Rust future panicked";
    let (converting, starting, converted) = choose|
        converting: Seq<Call>,
        starting: Seq<Call>,
        converted: PyResult<Conversion>,
    |
        {
            &&& calls == #[trigger] (converting + starting)
            &&& #[trigger] with_loop_calls(converting, event_loop, wrap, message, converted)
            &&& start_local_calls::<R, M, F>(starting, converted, task, r)
        };
    lemma_makes_awaitable_for_loop(converting, starting, event_loop, wrap, message, converted, r);
    if r is Ok {
        assert(calls.last() == starting[0]);
    }
}

/// [`local_cancellable_future_into_py_with_loop`] makes a Python future for the loop that it is
/// given, with a copy of the current context, and spawns one task on the current thread exactly if
/// that succeeds.
pub proof fn law_local_cancellable_future_into_py_with_loop<R, W, M, F>(
    interpreter: &mut Interpreter<'_>,
    event_loop: PyObject,
    wrap: W,
    task: M,
    r: PyResult<PyObject>,
) where
    R: SpawnLocalExt,
    W: FnOnce(Turn, PyDoneCallback) -> PyObject,
    M: FnOnce(Turn, Worker, Supervisor) -> F,
    F: Future<Output = ()> + 'static,

    requires
        call_ensures(
            local_cancellable_future_into_py_with_loop::<R, W, M, F>,
            (interpreter, event_loop, wrap, task),
            r,
        ),
    ensures
        grew(*old(interpreter), *final(interpreter)),
        makes_awaitable_for_loop(
            added(*old(interpreter), *final(interpreter)),
            event_loop,
            wrap,
            "Rust future panicked",
            r,
        ),
        r is Ok ==> task_spawned_local::<R, M, F>(
            added(*old(interpreter), *final(interpreter)).last(),
            task,
        ),
{
    lemma_grew(*old(interpreter), *final(interpreter));
    let calls = added(*old(interpreter), *final(interpreter));
    let message = "Rust future panicked";
    let (converting, starting, converted) = choose|
        converting: Seq<Call>,
        starting: Seq<Call>,
        converted: PyResult<Conversion>,
    |
        {
            &&& calls == #[trigger] (converting + starting)
            &&& #[trigger] with_loop_calls(converting, event_loop, wrap, message, converted)
            &&& start_local_calls::<R, M, F>(starting, converted, task, r)
        };
    lemma_makes_awaitable_for_loop(converting, starting, event_loop, wrap, message, converted, r);
    if r is Ok {
        assert(calls.last() == starting[0]);
    }
}

/// [`local_future_into_py`] makes a Python future with the locals of the current task, and spawns
/// one task on the current thread exactly if that succeeds.
pub proof fn law_local_future_into_py<R, W, M, F>(
    interpreter: &mut Interpreter<'_>,
    wrap: W,
    task: M,
    r: PyResult<PyObject>,
) where
    R: ContextExt + SpawnLocalExt,
    W: FnOnce(Turn, PyDoneCallback) -> PyObject,
    M: FnOnce(Turn, Worker, Supervisor) -> F,
    F: Future<Output = ()> + 'static,

    requires
        call_ensures(
            local_future_into_py::<R, W, M, F>,
            (interpreter, wrap, task),
            r,
        ),
    ensures
        grew(*old(interpreter), *final(interpreter)),
        exists|told: Option<TaskLocals>, lookup: Seq<Call>| #[trigger]
            call_ensures(R::get_task_locals, (), told) && #[trigger] makes_awaitable_here(
                added(*old(interpreter), *final(interpreter)),
                lookup,
                told,
                wrap,
                "Rust future panicked",
                r,
            ),
        r is Ok ==> task_spawned_local::<R, M, F>(
            added(*old(interpreter), *final(interpreter)).last(),
            task,
        ),
{
    lemma_grew(*old(interpreter), *final(interpreter));
    let calls = added(*old(interpreter), *final(interpreter));
    let message = "Rust future panicked";
    let (converting, starting, converted) = choose|
        converting: Seq<Call>,
        starting: Seq<Call>,
        converted: PyResult<Conversion>,
    |
        {
            &&& calls == #[trigger] (converting + starting)
            &&& #[trigger] current_calls::<R, W>(converting, wrap, message, converted)
            &&& start_local_calls::<R, M, F>(starting, converted, task, r)
        };
    lemma_makes_awaitable_here::<R, W>(converting, starting, wrap, message, converted, r);
    if r is Ok {
        assert(calls.last() == starting[0]);
    }
}

/// [`local_cancellable_future_into_py`] makes a Python future with the locals of the current task,
/// and spawns one task on the current thread exactly if that succeeds.
pub proof fn law_local_cancellable_future_into_py<R, W, M, F>(
    interpreter: &mut Interpreter<'_>,
    wrap: W,
    task: M,
    r: PyResult<PyObject>,
) where
    R: ContextExt + SpawnLocalExt,
    W: FnOnce(Turn, PyDoneCallback) -> PyObject,
    M: FnOnce(Turn, Worker, Supervisor) -> F,
    F: Future<Output = ()> + 'static,

    requires
        call_ensures(
            local_cancellable_future_into_py::<R, W, M, F>,
            (interpreter, wrap, task),
            r,
        ),
    ensures
        grew(*old(interpreter), *final(interpreter)),
        exists|told: Option<TaskLocals>, lookup: Seq<Call>| #[trigger]
            call_ensures(R::get_task_locals, (), told) && #[trigger] makes_awaitable_here(
                added(*old(interpreter), *final(interpreter)),
                lookup,
                told,
                wrap,
                "Rust future panicked",
                r,
            ),
        r is Ok ==> task_spawned_local::<R, M, F>(
            added(*old(interpreter), *final(interpreter)).last(),
            task,
        ),
{
    lemma_grew(*old(interpreter), *final(interpreter));
    let calls = added(*old(interpreter), *final(interpreter));
    let message = "Rust future panicked";
    let (converting, starting, converted) = choose|
        converting: Seq<Call>,
        starting: Seq<Call>,
        converted: PyResult<Conversion>,
    |
        {
            &&& calls == #[trigger] (converting + starting)
            &&& #[trigger] current_calls::<R, W>(converting, wrap, message, converted)
            &&& start_local_calls::<R, M, F>(starting, converted, task, r)
        };
    lemma_makes_awaitable_here::<R, W>(converting, starting, wrap, message, converted, r);
    if r is Ok {
        assert(calls.last() == starting[0]);
    }
}

// ---- Runs ----

/// The Rust future is converted for the loop. The loop is run until the Python future is done, and
/// then the value is taken. Nothing else is asked of the loop.
pub open spec fn runs<W, K, T>(
    calls: Seq<Call>,
    event_loop: PyObject,
    wrap: W,
    take: K,
    r: PyResult<Option<T>>,
) -> bool where
    W: FnOnce(Turn, PyDoneCallback) -> PyObject,
    K: FnOnce(Turn) -> Option<T>,
 {
    if calls.len() <= 5 {
        &&& r is Err
        &&& makes_awaitable_for_loop(
            calls,
            event_loop,
            wrap,
            "rust future panicked",
            Err(r->Err_0),
        )
    } else {
        &&& makes_awaitable_for_loop(
            calls.take(6),
            event_loop,
            wrap,
            "rust future panicked",
            Ok(got(calls, 2)),
        )
        &&& 7 <= calls.len() <= 8
        &&& requests(
            calls,
            6,
            Request::CallMethod1(event_loop, "run_until_complete", got(calls, 2)),
        )
        &&& match error_of(calls[6]) {
            Some(e) => calls.len() == 7 && r == Err::<Option<T>, PyErr>(e),
            None => {
                &&& calls.len() == 8
                &&& calls[7] is Take
                &&& r is Ok
                &&& exists|turn: Turn|
                    turn.call() is Take && #[trigger] call_ensures(take, (turn,), r->Ok_0)
            },
        }
    }
}

proof fn lemma_runs<R, W, M, F, K, T>(
    calls: Seq<Call>,
    event_loop: PyObject,
    wrap: W,
    task: M,
    take: K,
    r: PyResult<Option<T>>,
) where
    R: ContextExt,
    W: FnOnce(Turn, PyDoneCallback) -> PyObject,
    M: FnOnce(Turn, Worker, Supervisor) -> F,
    F: Future<Output = ()> + Send + 'static,
    K: FnOnce(Turn) -> Option<T>,

    requires
        run_until_complete_calls::<R, W, M, F, K, T>(calls, event_loop, wrap, task, take, r),
    ensures
        runs(calls, event_loop, wrap, take, r),
        calls.len() > 5 ==> task_spawned::<R, M, F>(calls[5], task),
{
    let message = "rust future panicked";
    let (first, rest, coro) = choose|first: Seq<Call>, rest: Seq<Call>, coro: PyResult<PyObject>|
        {
            &&& calls == #[trigger] (first + rest)
            &&& #[trigger] future_into_py_with_loop_calls::<R, W, M, F>(
                first,
                event_loop,
                wrap,
                task,
                coro,
            )
            &&& match coro {
                Err(e) => rest.len() == 0 && r == Err::<Option<T>, PyErr>(e),
                Ok(coro) => run_loop_calls(rest, event_loop, coro, take, r),
            }
        };
    let (converting, starting, converted) = choose|
        converting: Seq<Call>,
        starting: Seq<Call>,
        converted: PyResult<Conversion>,
    |
        {
            &&& first == #[trigger] (converting + starting)
            &&& #[trigger] with_loop_calls(converting, event_loop, wrap, message, converted)
            &&& start_calls::<R, M, F>(starting, converted, task, coro)
        };
    lemma_makes_awaitable_for_loop(
        converting,
        starting,
        event_loop,
        wrap,
        message,
        converted,
        coro,
    );
    match coro {
        Err(_) => {
            assert(calls == first);
            assert(first.len() <= 5);
        },
        Ok(py_fut) => {
            assert(first.len() == 6);
            assert(calls.take(6) == first);
            assert(first.skip(2)[0] == first[2]);
            assert(calls[2] == first[2]);
            assert(calls[5] == first[5]);
            assert(first[5] == starting[0]);
            assert(calls[6] == rest[0]);
            if rest.len() == 2 {
                assert(calls[7] == rest[1]);
            }
        },
    }
}

/// [`run_until_complete`] makes a Python future for the loop, spawns its task, runs the loop until
/// that future is done, and gives what is taken after that.
pub proof fn law_run_until_complete<R, W, M, F, K, T>(
    interpreter: &mut Interpreter<'_>,
    event_loop: &PyObject,
    wrap: W,
    task: M,
    take: K,
    r: PyResult<Option<T>>,
) where
    R: ContextExt,
    W: FnOnce(Turn, PyDoneCallback) -> PyObject,
    M: FnOnce(Turn, Worker, Supervisor) -> F,
    F: Future<Output = ()> + Send + 'static,
    K: FnOnce(Turn) -> Option<T>,

    requires
        call_ensures(
            run_until_complete::<R, W, M, F, K, T>,
            (interpreter, event_loop, wrap, task, take),
            r,
        ),
    ensures
        grew(*old(interpreter), *final(interpreter)),
        ({
            let calls = added(*old(interpreter), *final(interpreter));
            &&& runs(calls, *event_loop, wrap, take, r)
            &&& calls.len() > 5 ==> task_spawned::<R, M, F>(calls[5], task)
        }),
{
    lemma_grew(*old(interpreter), *final(interpreter));
    lemma_runs::<R, W, M, F, K, T>(
        added(*old(interpreter), *final(interpreter)),
        *event_loop,
        wrap,
        task,
        take,
        r,
    );
}

/// [`run`] opens a loop with `asyncio.new_event_loop()`, runs the Rust future on it, and shuts it
/// down, whatever came of the run. An error of the shutdown comes before the result of the run.
pub proof fn law_run<R, W, M, F, K, T>(
    interpreter: &mut Interpreter<'_>,
    wrap: W,
    task: M,
    take: K,
    r: PyResult<Option<T>>,
) where
    R: ContextExt,
    W: FnOnce(Turn, PyDoneCallback) -> PyObject,
    M: FnOnce(Turn, Worker, Supervisor) -> F,
    F: Future<Output = ()> + Send + 'static,
    K: FnOnce(Turn) -> Option<T>,

    requires
        call_ensures(run::<R, W, M, F, K, T>, (interpreter, wrap, task, take), r),
    ensures
        grew(*old(interpreter), *final(interpreter)),
        ({
            let calls = added(*old(interpreter), *final(interpreter));
            &&& calls.len() > 0
            &&& requests(calls, 0, Request::Import("asyncio"))
            &&& requests(calls, 1, Request::CallMethod0(got(calls, 0), "new_event_loop"))
            &&& if calls.len() <= 2 {
                all_or_error(calls, 2, r) && r is Err
            } else {
                let event_loop = got(calls, 1);
                &&& error_of(calls[0]) is None
                &&& error_of(calls[1]) is None
                &&& exists|n: int, result: PyResult<Option<T>>, closed: PyResult<()>|
                    {
                        &&& 2 <= n <= calls.len()
                        &&& #[trigger] runs(calls.subrange(2, n), event_loop, wrap, take, result)
                        &&& n > 7 ==> task_spawned::<R, M, F>(calls[7], task)
                        &&& #[trigger] shuts_down(calls.skip(n), event_loop, closed)
                        &&& closed is Err ==> r == Err::<Option<T>, PyErr>(closed->Err_0)
                        &&& closed is Ok ==> r == result
                    }
            }
        }),
{
    lemma_grew(*old(interpreter), *final(interpreter));
    let calls = added(*old(interpreter), *final(interpreter));
    let (first, rest, opened) = choose|
        first: Seq<Call>,
        rest: Seq<Call>,
        opened: PyResult<PyObject>,
    |
        {
            &&& calls == #[trigger] (first + rest)
            &&& #[trigger] call_module_calls(first, "asyncio", "new_event_loop", opened)
            &&& match opened {
                Err(e) => rest.len() == 0 && r == Err::<Option<T>, PyErr>(e),
                Ok(event_loop) => run_and_close_calls::<R, W, M, F, K, T>(
                    rest,
                    event_loop,
                    wrap,
                    task,
                    take,
                    r,
                ),
            }
        };
    assert(forall|i: int| 0 <= i < first.len() ==> calls[i] == first[i]);
    match opened {
        Err(_) => {
            assert(calls == first);
        },
        Ok(event_loop) => {
            let (ran, last, result, closed) = choose|
                ran: Seq<Call>,
                last: Seq<Call>,
                result: PyResult<Option<T>>,
                closed: PyResult<()>,
            |
                {
                    &&& rest == #[trigger] (ran + last)
                    &&& #[trigger] run_until_complete_calls::<R, W, M, F, K, T>(
                        ran,
                        event_loop,
                        wrap,
                        task,
                        take,
                        result,
                    )
                    &&& #[trigger] close_calls(last, event_loop, closed)
                    &&& r == (match closed {
                        Err(e) => Err(e),
                        Ok(()) => result,
                    })
                };
            lemma_runs::<R, W, M, F, K, T>(ran, event_loop, wrap, task, take, result);
            lemma_shuts_down(last, event_loop, closed);
            let n: int = 2 + ran.len() as int;
            assert(first.len() == 2);
            assert(calls.subrange(2, n) == ran);
            assert(calls.skip(n) == last);
            assert(event_loop == got(calls, 1));
            if n > 7 {
                assert(calls[7] == ran[5]);
            }
            assert(calls.len() > 2);
            assert(runs(calls.subrange(2, n), got(calls, 1), wrap, take, result));
            assert(shuts_down(calls.skip(n), got(calls, 1), closed));
        },
    }
}

// ---- Deliveries ----

/// [`Delivery::deliver`] asks whether the Python future was cancelled. If it was, nothing else is
/// done. Otherwise the event loop is asked to complete the future with the very result that
/// `result` gave, and an error of that is shown.
pub proof fn law_deliver<C: FnOnce(Turn) -> PyResult<PyObject>, S: Fn(Turn, PyErr)>(
    delivery: &Delivery,
    interpreter: &mut Interpreter<'_>,
    result: C,
    show: &S,
)
    requires
        call_ensures(Delivery::deliver::<C, S>, (delivery, interpreter, result, show), ()),
    ensures
        grew(*old(interpreter), *final(interpreter)),
        exists|asking: Seq<Call>, cancelled: bool|
            {
                let calls = added(*old(interpreter), *final(interpreter));
                &&& asking.is_prefix_of(calls)
                &&& #[trigger] asks_cancelled_or_shows(asking, delivery.future, *show, cancelled)
                &&& cancelled ==> calls == asking
                &&& !cancelled ==> delivers(
                    *delivery,
                    calls.skip(asking.len() as int),
                    result,
                    *show,
                )
            },
{
    lemma_grew(*old(interpreter), *final(interpreter));
    let calls = added(*old(interpreter), *final(interpreter));
    let delivered = choose|delivered: Option<PyResult<PyObject>>| #[trigger]
        delivery.deliver_calls(calls, result, delivered, *show);
    let (first, rest, cancelled) = choose|first: Seq<Call>, rest: Seq<Call>, cancelled: bool|
        {
            &&& calls == #[trigger] (first + rest)
            &&& #[trigger] cancelled_or_show_calls(first, delivery.future, *show, cancelled)
            &&& match delivered {
                None => cancelled && rest.len() == 0,
                Some(value) => {
                    &&& !cancelled
                    &&& rest.len() > 0
                    &&& rest[0] is Produce
                    &&& produced(result, value)
                    &&& delivery.complete_calls(rest.skip(1), value, *show)
                },
            }
        };
    lemma_asks_cancelled_or_shows(first, delivery.future, *show, cancelled);
    assert(calls.skip(first.len() as int) == rest);
    match delivered {
        None => {
            assert(calls == first);
        },
        Some(made) => {
            let complete = rest.skip(1);
            let (setting, showing, set) = choose|
                setting: Seq<Call>,
                showing: Seq<Call>,
                set: PyResult<()>,
            |
                {
                    &&& complete == #[trigger] (setting + showing)
                    &&& #[trigger] set_result_calls(
                        setting,
                        delivery.event_loop,
                        delivery.future,
                        made,
                        set,
                    )
                    &&& shown(showing, set, *show)
                };
            lemma_completes_with(setting, delivery.event_loop, delivery.future, made, set);
            match set {
                Err(e) => {
                    assert(complete.last() == Call::Show(e));
                    assert(complete.drop_last() == setting);
                },
                Ok(_) => {
                    assert(complete == setting);
                },
            }
            assert(result_made(result, made));
            assert(delivers(*delivery, rest, result, *show));
        },
    }
}

/// In its turn, `result` gave `made`.
pub open spec fn result_made<C: FnOnce(Turn) -> PyResult<PyObject>>(
    result: C,
    made: PyResult<PyObject>,
) -> bool {
    exists|turn: Turn| turn.call() is Produce && #[trigger] call_ensures(result, (turn,), made)
}

/// `result` is called, and the loop is asked to complete the future with what it gave. An error of
/// that is shown.
pub open spec fn delivers<C: FnOnce(Turn) -> PyResult<PyObject>, S: Fn(Turn, PyErr)>(
    delivery: Delivery,
    calls: Seq<Call>,
    result: C,
    show: S,
) -> bool {
    let setting = calls.skip(1);
    &&& calls.len() > 1
    &&& calls[0] is Produce
    &&& exists|made: PyResult<PyObject>|
        {
            &&& #[trigger] result_made(result, made)
            &&& match setting.last() {
                Call::Show(e) => {
                    &&& completes_with(
                        setting.drop_last(),
                        delivery.event_loop,
                        delivery.future,
                        made,
                        Err(e),
                    )
                    &&& show_called(show, e)
                },
                _ => completes_with(
                    setting,
                    delivery.event_loop,
                    delivery.future,
                    made,
                    Ok(()),
                ),
            }
        }
}

/// [`Supervisor::joined`] gives the panic message for a task of which the runtime says that it
/// panicked, and nothing for any other.
pub proof fn law_joined<J: JoinError>(
    supervisor: &Supervisor,
    end: Result<(), J>,
    r: Option<&'static str>,
)
    requires
        call_ensures(Supervisor::joined::<J>, (supervisor, end), r),
    ensures
        end is Ok ==> r is None,
        end is Err ==> exists|panicked: bool| #[trigger]
            call_ensures(J::is_panic, (&end->Err_0,), panicked) && r == (if panicked {
                Some(supervisor.panic_message)
            } else {
                None
            }),
{
}

/// [`Worker::spawn`] spawns the task that `work` makes for the worker, and gives its handle.
pub proof fn law_worker_spawn<R, N, F>(worker: Worker, work: N, handle: R::JoinHandle) where
    R: Runtime,
    N: FnOnce(Worker) -> F,
    F: Future<Output = ()> + Send + 'static,

    requires
        call_ensures(Worker::spawn::<R, N, F>, (worker, work), handle),
    ensures
        exists|fut: F| #[trigger]
            call_ensures(work, (worker,), fut) && call_ensures(R::spawn::<F>, (fut,), handle),
{
}

/// [`Worker::spawn_local`] spawns the task that `work` makes for the worker on the current thread,
/// and gives its handle.
pub proof fn law_worker_spawn_local<R, N, F>(worker: Worker, work: N, handle: R::JoinHandle) where
    R: SpawnLocalExt,
    N: FnOnce(Worker) -> F,
    F: Future<Output = ()> + 'static,

    requires
        call_ensures(Worker::spawn_local::<R, N, F>, (worker, work), handle),
    ensures
        exists|fut: F| #[trigger]
            call_ensures(work, (worker,), fut) && call_ensures(R::spawn_local::<F>, (fut,), handle),
{
}

// ---- The slot for a value ----

/// [`ResultSlot::keep`] puts the value of a future that has succeeded into the slot, and leaves the
/// slot alone otherwise. It tells success and error alike.
pub proof fn law_keep<T, E>(slot: &mut ResultSlot<T>, outcome: Result<T, E>, r: Result<(), E>)
    requires
        call_ensures(ResultSlot::<T>::keep::<E>, (Some(slot), outcome), r),
    ensures
        outcome is Ok ==> r is Ok && final(slot)@ == Some(outcome->Ok_0),
        outcome is Err ==> r == Err::<(), E>(outcome->Err_0) && final(slot)@ == old(slot)@,
{
}

/// Where there is no slot to be had, [`ResultSlot::keep`] tells success and error all the same.
pub proof fn law_keep_without_slot<T, E>(outcome: Result<T, E>, r: Result<(), E>)
    requires
        call_ensures(ResultSlot::<T>::keep::<E>, (None, outcome), r),
    ensures
        outcome is Ok ==> r is Ok,
        outcome is Err ==> r == Err::<(), E>(outcome->Err_0),
{
}

/// [`ResultSlot::take`] gives what is in the slot, once.
pub proof fn law_take<T>(slot: &mut ResultSlot<T>, r: Option<T>)
    requires
        call_ensures(ResultSlot::<T>::take, (slot,), r),
    ensures
        r == old(slot)@,
        final(slot)@ is None,
{
}

// ---- Cancellation ----

/// `r` is the error that stands for a cancellation.
pub open spec fn cancellation_error<T>(r: PyResult<T>) -> bool {
    r is Err && call_ensures(
        PyBaseException::new_err::<&'static str>,
        ("unreachable",),
        r->Err_0,
    )
}

/// [`PyDoneCallback::done`] sends the cancellation of a future that was cancelled, with its sender,
/// and does nothing otherwise.
pub proof fn law_done(callback: &mut PyDoneCallback, cancelled: bool)
    requires
        call_ensures(PyDoneCallback::done, (callback, cancelled), ()),
    ensures
        cancelled ==> final(callback).cancel_tx is None && exists|sent: Result<(), ()>| #[trigger]
            call_ensures(Sender::<()>::send, (old(callback).cancel_tx->0, ()), sent),
        !cancelled ==> *final(callback) == *old(callback),
{
}

/// [`PyDoneCallback::__call__`] asks the future whether it was cancelled. It sends the cancellation
/// exactly if the future says so and there is a sender.
pub proof fn law_callback<S: Fn(Turn, PyErr)>(
    callback: &mut PyDoneCallback,
    interpreter: &mut Interpreter<'_>,
    fut: &PyObject,
    show: &S,
    r: PyResult<Option<()>>,
)
    requires
        call_ensures(PyDoneCallback::__call__::<S>, (callback, interpreter, fut, show), r),
    ensures
        grew(*old(interpreter), *final(interpreter)),
        exists|cancelled: bool|
            {
                &&& #[trigger] asks_cancelled_or_shows(
                    added(*old(interpreter), *final(interpreter)),
                    *fut,
                    *show,
                    cancelled,
                )
                &&& !cancelled ==> *final(callback) == *old(callback) && r == Ok::<
                    Option<()>,
                    PyErr,
                >(Some(()))
                &&& cancelled && old(callback).cancel_tx is None ==> {
                    &&& *final(callback) == *old(callback)
                    &&& r == Ok::<Option<()>, PyErr>(None)
                }
                &&& cancelled && old(callback).cancel_tx is Some ==> {
                    &&& final(callback).cancel_tx is None
                    &&& exists|sent: Result<(), ()>| #[trigger]
                        call_ensures(Sender::<()>::send, (old(callback).cancel_tx->0, ()), sent)
                    &&& r == Ok::<Option<()>, PyErr>(Some(()))
                }
            },
{
    lemma_grew(*old(interpreter), *final(interpreter));
    let calls = added(*old(interpreter), *final(interpreter));
    let cancelled = choose|cancelled: bool|
        {
            &&& #[trigger] cancelled_or_show_calls(calls, *fut, *show, cancelled)
            &&& if cancelled && old(callback).cancel_tx is None {
                r == Ok::<Option<()>, PyErr>(None) && *final(callback) == *old(callback)
            } else {
                r == Ok::<Option<()>, PyErr>(Some(())) && final(callback).answered(
                    *old(callback),
                    cancelled,
                )
            }
        };
    lemma_asks_cancelled_or_shows(calls, *fut, *show, cancelled);
}

/// [`cancellation`] gives the sender and the receiver of one new channel.
pub proof fn law_cancellation(r: (PyDoneCallback, Cancellable))
    requires
        call_ensures(cancellation, (), r),
    ensures
        r.0.cancel_tx is Some,
        call_ensures(channel::<()>, (), (r.0.cancel_tx->0, r.1.cancel_rx.receiver())),
        r.1.cancel_rx.signals().len() == 0,
        r.1.poll_cancel_rx,
{
}

/// [`Cancellable::new_with_cancel_rx`] listens to the receiver that it is given.
pub proof fn law_new_with_cancel_rx(cancel_rx: Receiver<()>, r: Cancellable)
    requires
        call_ensures(Cancellable::new_with_cancel_rx, (cancel_rx,), r),
    ensures
        r.cancel_rx.receiver() == cancel_rx,
        r.cancel_rx.signals().len() == 0,
        r.poll_cancel_rx,
{
}

/// [`Cancellable::signalled`] completes a waiting future if it was cancelled, and only then. Any
/// signal but `Pending` is the last one.
pub proof fn law_signalled<T>(cancel: &mut Cancellable, signal: Signal, r: Poll<PyResult<T>>)
    requires
        call_ensures(Cancellable::signalled::<T>, (cancel, signal), r),
    ensures
        final(cancel).cancel_rx == old(cancel).cancel_rx,
        signal is Sent ==> r is Ready && cancellation_error(r->Ready_0),
        signal is Sent ==> !final(cancel).poll_cancel_rx,
        signal is Dropped ==> r is Pending && !final(cancel).poll_cancel_rx,
        signal is Pending ==> r is Pending,
        signal is Pending ==> final(cancel).poll_cancel_rx == old(cancel).poll_cancel_rx,
{
}

/// [`Cancellable::poll`] gives what the Rust future gives, and leaves the receiver alone, if the
/// future is ready or no signal can come any more. Otherwise the receiver is polled once, and the
/// future is completed exactly if that gave the cancellation.
pub proof fn law_poll<T>(
    cancel: &mut Cancellable,
    future: Poll<PyResult<T>>,
    cx: &mut Context<'_>,
    r: Poll<PyResult<T>>,
)
    requires
        call_ensures(Cancellable::poll::<T>, (cancel, future, cx), r),
    ensures
        *final(cx) == *old(cx),
        future is Ready || !old(cancel).poll_cancel_rx ==> {
            &&& r == future
            &&& *final(cancel) == *old(cancel)
        },
        future is Pending && old(cancel).poll_cancel_rx ==> {
            let before = old(cancel).cancel_rx;
            let after = final(cancel).cancel_rx;
            let signal = after.signals().last();
            &&& after.receiver() == before.receiver()
            &&& after.signals() == before.signals().push(signal)
            &&& receiver_polled(before.receiver(), *old(cx), signal)
            &&& signal is Sent ==> r is Ready && cancellation_error(r->Ready_0)
            &&& signal is Sent ==> !final(cancel).poll_cancel_rx
            &&& signal is Dropped ==> r is Pending && !final(cancel).poll_cancel_rx
            &&& signal is Pending ==> r is Pending && final(cancel).poll_cancel_rx
        },
{
    let signal = choose|signal: Option<Signal>| #[trigger]
        final(cancel).polled(*old(cancel), future, *old(cx), signal, r);
    assert(final(cancel).polled(*old(cancel), future, *old(cx), signal, r));
    if future is Pending && old(cancel).poll_cancel_rx {
        assert(final(cancel).cancel_rx.signals().last() == signal->0);
    }
}

/// [`Listener::poll`] polls its receiver and puts the signal on record.
pub proof fn law_listener_poll(listener: &mut Listener, cx: &mut Context<'_>, signal: Signal)
    requires
        call_ensures(Listener::poll, (listener, cx), signal),
    ensures
        *final(cx) == *old(cx),
        final(listener).receiver() == old(listener).receiver(),
        final(listener).signals() == old(listener).signals().push(signal),
        receiver_polled(old(listener).receiver(), *old(cx), signal),
{
}

// ---- The interpreter ----

/// [`Interpreter::new`] starts with an empty record.
pub proof fn law_new_interpreter(py: Python<'_>, r: Interpreter<'_>)
    requires
        call_ensures(Interpreter::new, (py,), r),
    ensures
        r.token() == py,
        r@.len() == 0,
{
}

/// [`Interpreter::none`] gives Python's `None`.
pub proof fn law_none(interpreter: &Interpreter<'_>, r: PyObject)
    requires
        call_ensures(Interpreter::none, (interpreter,), r),
    ensures
        none_given(r),
{
}

proof fn lemma_pushed(before: Interpreter<'_>, after: Interpreter<'_>, call: Call)
    requires
        after.made(before, call),
    ensures
        grew(before, after),
        after@ == before@.push(call),
{
    lemma_grew(before, after);
    assert(after@ == before@.push(call));
}

/// [`Interpreter::import`] imports the module, and that is what goes on record.
pub proof fn law_interpreter_import(
    interpreter: &mut Interpreter<'_>,
    name: &'static str,
    r: PyResult<PyObject>,
)
    requires
        call_ensures(Interpreter::import, (interpreter, name), r),
    ensures
        grew(*old(interpreter), *final(interpreter)),
        final(interpreter)@ == old(interpreter)@.push(Call::Object(Request::Import(name), r)),
{
    lemma_pushed(*old(interpreter), *final(interpreter), Call::Object(Request::Import(name), r));
}

/// [`Interpreter::getattr`] looks the attribute up, and that is what goes on record.
pub proof fn law_interpreter_getattr(
    interpreter: &mut Interpreter<'_>,
    obj: &PyObject,
    name: &'static str,
    r: PyResult<PyObject>,
)
    requires
        call_ensures(Interpreter::getattr, (interpreter, obj, name), r),
    ensures
        grew(*old(interpreter), *final(interpreter)),
        final(interpreter)@ == old(interpreter)@.push(
            Call::Object(Request::GetAttr(*obj, name), r),
        ),
{
    lemma_pushed(
        *old(interpreter),
        *final(interpreter),
        Call::Object(Request::GetAttr(*obj, name), r),
    );
}

/// [`Interpreter::call0`] calls the object, and that is what goes on record.
pub proof fn law_interpreter_call0(
    interpreter: &mut Interpreter<'_>,
    obj: &PyObject,
    r: PyResult<PyObject>,
)
    requires
        call_ensures(Interpreter::call0, (interpreter, obj), r),
    ensures
        grew(*old(interpreter), *final(interpreter)),
        final(interpreter)@ == old(interpreter)@.push(Call::Object(Request::Call0(*obj), r)),
{
    lemma_pushed(*old(interpreter), *final(interpreter), Call::Object(Request::Call0(*obj), r));
}

/// [`Interpreter::is_true`] asks for the truth of the object, and that is what goes on record.
pub proof fn law_interpreter_is_true(
    interpreter: &mut Interpreter<'_>,
    obj: &PyObject,
    r: PyResult<bool>,
)
    requires
        call_ensures(Interpreter::is_true, (interpreter, obj), r),
    ensures
        grew(*old(interpreter), *final(interpreter)),
        final(interpreter)@ == old(interpreter)@.push(Call::Truth(*obj, r)),
{
    lemma_pushed(*old(interpreter), *final(interpreter), Call::Truth(*obj, r));
}

/// [`Interpreter::call_method0`] calls the method, and that is what goes on record.
pub proof fn law_interpreter_call_method0(
    interpreter: &mut Interpreter<'_>,
    obj: &PyObject,
    name: &'static str,
    r: PyResult<PyObject>,
)
    requires
        call_ensures(Interpreter::call_method0, (interpreter, obj, name), r),
    ensures
        grew(*old(interpreter), *final(interpreter)),
        final(interpreter)@ == old(interpreter)@.push(
            Call::Object(Request::CallMethod0(*obj, name), r),
        ),
{
    lemma_pushed(
        *old(interpreter),
        *final(interpreter),
        Call::Object(Request::CallMethod0(*obj, name), r),
    );
}

/// [`Interpreter::call_method1`] calls the method, and that is what goes on record.
pub proof fn law_interpreter_call_method1(
    interpreter: &mut Interpreter<'_>,
    obj: &PyObject,
    name: &'static str,
    argument: PyObject,
    r: PyResult<PyObject>,
)
    requires
        call_ensures(Interpreter::call_method1, (interpreter, obj, name, argument), r),
    ensures
        grew(*old(interpreter), *final(interpreter)),
        final(interpreter)@ == old(interpreter)@.push(
            Call::Object(Request::CallMethod1(*obj, name, argument), r),
        ),
{
    lemma_pushed(
        *old(interpreter),
        *final(interpreter),
        Call::Object(Request::CallMethod1(*obj, name, argument), r),
    );
}

/// [`Interpreter::call_soon_threadsafe`] calls the method `call_soon_threadsafe` of the event loop,
/// for a value and for an error alike, and no other method: with the callback, with the value or
/// the error itself, and with the context as the keyword argument of that name.
pub proof fn law_call_soon_threadsafe(
    interpreter: &mut Interpreter<'_>,
    event_loop: &PyObject,
    context: &PyObject,
    callback: PyObject,
    argument: PyResult<PyObject>,
    r: PyResult<PyObject>,
)
    requires
        call_ensures(
            Interpreter::call_soon_threadsafe,
            (interpreter, event_loop, context, callback, argument),
            r,
        ),
    ensures
        grew(*old(interpreter), *final(interpreter)),
        final(interpreter)@ == old(interpreter)@.push(
            Call::Object(
                (Request::CallSoonThreadsafe {
                    event_loop: *event_loop,
                    context: *context,
                    callback,
                    argument,
                }),
                r,
            ),
        ),
        exists|kwargs: &PyDict, set: PyResult<()>|
            {
                &&& #[trigger] call_ensures(PyDict::new, (old(interpreter).token(),), kwargs)
                &&& #[trigger] call_ensures(
                    PyDict::set_item::<&'static str, &PyObject>,
                    (kwargs, "context", context),
                    set,
                )
                &&& match (set, argument) {
                    (Err(e), _) => r == Err::<PyObject, PyErr>(e),
                    (Ok(_), Ok(value)) => call_ensures(
                        Py::<PyAny>::call_method,
                        (
                            event_loop,
                            old(interpreter).token(),
                            "call_soon_threadsafe",
                            (callback, value),
                            Some(kwargs),
                        ),
                        r,
                    ),
                    (Ok(_), Err(error)) => call_ensures(
                        Py::<PyAny>::call_method,
                        (
                            event_loop,
                            old(interpreter).token(),
                            "call_soon_threadsafe",
                            (callback, error),
                            Some(kwargs),
                        ),
                        r,
                    ),
                }
            },
{
    let call = Call::Object(
        Request::CallSoonThreadsafe {
            event_loop: *event_loop,
            context: *context,
            callback,
            argument,
        },
        r,
    );
    lemma_pushed(*old(interpreter), *final(interpreter), call);
    assert(final(interpreter)@[old(interpreter)@.len() as int] == call);
    assert(genuine(call, final(interpreter).token()));
}

/// [`Interpreter::show`] calls `show` with the error, in its turn.
pub proof fn law_show<S: Fn(Turn, PyErr)>(interpreter: &mut Interpreter<'_>, e: PyErr, show: &S)
    requires
        call_ensures(Interpreter::show::<S>, (interpreter, e, show), ()),
    ensures
        grew(*old(interpreter), *final(interpreter)),
        final(interpreter)@ == old(interpreter)@.push(Call::Show(e)),
        show_called(*show, e),
{
    lemma_grew(*old(interpreter), *final(interpreter));
    assert(added(*old(interpreter), *final(interpreter)) == seq![Call::Show(e)]);
    assert(final(interpreter)@ == old(interpreter)@.push(Call::Show(e)));
}

/// [`Interpreter::wrap`] gives the callable that `wrap` makes of the callback, in its turn.
pub proof fn law_wrap<W: FnOnce(Turn, PyDoneCallback) -> PyObject>(
    interpreter: &mut Interpreter<'_>,
    callback: PyDoneCallback,
    wrap: W,
    r: PyObject,
)
    requires
        call_ensures(Interpreter::wrap::<W>, (interpreter, callback, wrap), r),
    ensures
        grew(*old(interpreter), *final(interpreter)),
        final(interpreter)@ == old(interpreter)@.push(Call::Wrap(callback)),
        wrap_called(wrap, callback, r),
{
    lemma_pushed(*old(interpreter), *final(interpreter), Call::Wrap(callback));
}

/// [`Interpreter::spawn`] makes the task, in its turn, and gives it to `R::spawn`.
pub proof fn law_spawn<R, M, F>(
    interpreter: &mut Interpreter<'_>,
    worker: Worker,
    supervisor: Supervisor,
    task: M,
) where
    R: Runtime,
    M: FnOnce(Turn, Worker, Supervisor) -> F,
    F: Future<Output = ()> + Send + 'static,

    requires
        call_ensures(
            Interpreter::spawn::<R, M, F>,
            (interpreter, worker, supervisor, task),
            (),
        ),
    ensures
        grew(*old(interpreter), *final(interpreter)),
        final(interpreter)@ == old(interpreter)@.push(Call::Spawn(worker, supervisor)),
        task_spawned::<R, M, F>(Call::Spawn(worker, supervisor), task),
{
    lemma_pushed(*old(interpreter), *final(interpreter), Call::Spawn(worker, supervisor));
}

/// [`Interpreter::spawn_local`] makes the task, in its turn, and gives it to `R::spawn_local`.
pub proof fn law_spawn_local<R, M, F>(
    interpreter: &mut Interpreter<'_>,
    worker: Worker,
    supervisor: Supervisor,
    task: M,
) where
    R: SpawnLocalExt,
    M: FnOnce(Turn, Worker, Supervisor) -> F,
    F: Future<Output = ()> + 'static,

    requires
        call_ensures(
            Interpreter::spawn_local::<R, M, F>,
            (interpreter, worker, supervisor, task),
            (),
        ),
    ensures
        grew(*old(interpreter), *final(interpreter)),
        final(interpreter)@ == old(interpreter)@.push(Call::Spawn(worker, supervisor)),
        task_spawned_local::<R, M, F>(Call::Spawn(worker, supervisor), task),
{
    lemma_pushed(*old(interpreter), *final(interpreter), Call::Spawn(worker, supervisor));
}

/// [`Interpreter::produce`] gives the very result that `result` gives, in its turn.
pub proof fn law_produce<C: FnOnce(Turn) -> PyResult<PyObject>>(
    interpreter: &mut Interpreter<'_>,
    result: C,
    r: PyResult<PyObject>,
)
    requires
        call_ensures(Interpreter::produce::<C>, (interpreter, result), r),
    ensures
        grew(*old(interpreter), *final(interpreter)),
        final(interpreter)@ == old(interpreter)@.push(Call::Produce),
        exists|turn: Turn| turn.call() is Produce && #[trigger] call_ensures(result, (turn,), r),
{
    lemma_pushed(*old(interpreter), *final(interpreter), Call::Produce);
}

/// [`Interpreter::take`] gives what `take` gives, in its turn.
pub proof fn law_interpreter_take<T, K: FnOnce(Turn) -> Option<T>>(
    interpreter: &mut Interpreter<'_>,
    take: K,
    r: Option<T>,
)
    requires
        call_ensures(Interpreter::take::<T, K>, (interpreter, take), r),
    ensures
        grew(*old(interpreter), *final(interpreter)),
        final(interpreter)@ == old(interpreter)@.push(Call::Take),
        exists|turn: Turn| turn.call() is Take && #[trigger] call_ensures(take, (turn,), r),
{
    lemma_pushed(*old(interpreter), *final(interpreter), Call::Take);
}

/// [`Interpreter::forward`] gives what `into_future_with_locals` gives for these task locals and
/// the awaitable, in its turn.
pub proof fn law_forward<X, K: FnOnce(Turn, &TaskLocals, PyObject) -> PyResult<X>>(
    interpreter: &mut Interpreter<'_>,
    locals: &TaskLocals,
    awaitable: PyObject,
    into_future_with_locals: K,
    r: PyResult<X>,
)
    requires
        call_ensures(
            Interpreter::forward::<X, K>,
            (interpreter, locals, awaitable, into_future_with_locals),
            r,
        ),
    ensures
        grew(*old(interpreter), *final(interpreter)),
        final(interpreter)@ == old(interpreter)@.push(Call::Forward(*locals, awaitable)),
        exists|turn: Turn|
            turn.call() == Call::Forward(*locals, awaitable) && #[trigger] call_ensures(
                into_future_with_locals,
                (turn, locals, awaitable),
                r,
            ),
{
    lemma_pushed(*old(interpreter), *final(interpreter), Call::Forward(*locals, awaitable));
}

// ---- What a user of a conversion relies on ----

/// Python gets the very result of the Rust future, whatever Python takes it for. Where a delivery
/// asks the loop to complete the Python future, the argument is what `result` gave, and the
/// callback is the setter of that future for a value or for an error.
pub proof fn law_python_gets_the_very_result<
    C: FnOnce(Turn) -> PyResult<PyObject>,
    S: Fn(Turn, PyErr),
>(
    delivery: &Delivery,
    interpreter: &mut Interpreter<'_>,
    result: C,
    show: &S,
    i: int,
)
    requires
        call_ensures(Delivery::deliver::<C, S>, (delivery, interpreter, result, show), ()),
        old(interpreter)@.len() <= i < final(interpreter)@.len(),
        final(interpreter)@[i] is Object,
        final(interpreter)@[i]->Object_0 is CallSoonThreadsafe,
    ensures
        ({
            let request = final(interpreter)@[i]->Object_0;
            let setter = final(interpreter)@[i - 1];
            &&& request->event_loop == delivery.event_loop
            &&& exists|turn: Turn| #[trigger] call_ensures(result, (turn,), request->argument)
            &&& request->argument is Ok ==> setter == Call::Object(
                Request::GetAttr(delivery.future, "set_result"),
                Ok(request->callback),
            )
            &&& request->argument is Err ==> setter == Call::Object(
                Request::GetAttr(delivery.future, "set_exception"),
                Ok(request->callback),
            )
        }),
{
    law_deliver(delivery, interpreter, result, show);
    let calls = added(*old(interpreter), *final(interpreter));
    let k = i - old(interpreter)@.len();
    assert(calls[k] == final(interpreter)@[i]);
    let (asking, cancelled) = choose|asking: Seq<Call>, cancelled: bool|
        {
            &&& asking.is_prefix_of(calls)
            &&& #[trigger] asks_cancelled_or_shows(asking, delivery.future, *show, cancelled)
            &&& cancelled ==> calls == asking
            &&& !cancelled ==> delivers(*delivery, calls.skip(asking.len() as int), result, *show)
        };
    lemma_asking_is_no_completion(asking, delivery.future, *show, cancelled);
    if k < asking.len() {
        assert(asking[k] == calls[k]);
    }
    let rest = calls.skip(asking.len() as int);
    let setting = rest.skip(1);
    assert(calls[k] == rest[k - asking.len()]);
    assert(calls[k] == setting[k - asking.len() - 1]);
    assert(k - asking.len() - 1 == 1);
    assert(setting[0] == calls[k - 1]);
    assert(calls[k - 1] == final(interpreter)@[i - 1]);
}

proof fn lemma_asking_is_no_completion<S: Fn(Turn, PyErr)>(
    calls: Seq<Call>,
    future: PyObject,
    show: S,
    r: bool,
)
    requires
        asks_cancelled_or_shows(calls, future, show, r),
    ensures
        forall|i: int|
            0 <= i < calls.len() ==> !((#[trigger] calls[i]) is Object
                && calls[i]->Object_0 is CallSoonThreadsafe),
{
    match calls.last() {
        Call::Show(_) => {
            let asking = calls.drop_last();
            assert forall|i: int| 0 <= i < calls.len() implies !((#[trigger] calls[i]) is Object
                && calls[i]->Object_0 is CallSoonThreadsafe) by {
                if i < asking.len() {
                    assert(asking[i] == calls[i]);
                }
            }
        },
        _ => {},
    }
}

/// While a Rust future runs on it, an event loop is asked for a future and to run until that future
/// is done, each once, and for nothing else. In particular it is not told to stop.
pub proof fn law_run_asks_the_loop_for_nothing_else<R, W, M, F, K, T>(
    interpreter: &mut Interpreter<'_>,
    event_loop: &PyObject,
    wrap: W,
    task: M,
    take: K,
    r: PyResult<Option<T>>,
    i: int,
) where
    R: ContextExt,
    W: FnOnce(Turn, PyDoneCallback) -> PyObject,
    M: FnOnce(Turn, Worker, Supervisor) -> F,
    F: Future<Output = ()> + Send + 'static,
    K: FnOnce(Turn) -> Option<T>,

    requires
        call_ensures(
            run_until_complete::<R, W, M, F, K, T>,
            (interpreter, event_loop, wrap, task, take),
            r,
        ),
        0 <= i < final(interpreter)@.len() - old(interpreter)@.len(),
    ensures
        ({
            let start: int = old(interpreter)@.len() as int;
            let calls = final(interpreter)@;
            let py_fut = calls[start + 2]->Object_1;
            match calls[start + i] {
                Call::Object(Request::Import(name), _) => i == 0 && name == "contextvars",
                Call::Object(Request::CallMethod0(obj, name), _) => {
                    ||| i == 1 && calls[start]->Object_1 == Ok::<PyObject, PyErr>(obj) && name
                        == "copy_context"
                    ||| i == 2 && obj == *event_loop && name == "create_future"
                },
                Call::Object(Request::CallMethod1(obj, name, argument), _) => {
                    ||| i == 4 && py_fut == Ok::<PyObject, PyErr>(obj) && name
                        == "add_done_callback"
                    ||| i == 6 && obj == *event_loop && name == "run_until_complete" && py_fut
                        == Ok::<PyObject, PyErr>(argument)
                },
                Call::Object(_, _) => false,
                Call::Wrap(_) => i == 3,
                Call::Spawn(_, _) => i == 5,
                Call::Take => i == 7,
                _ => false,
            }
        }),
{
    law_run_until_complete::<R, W, M, F, K, T>(interpreter, event_loop, wrap, task, take, r);
    let start: int = old(interpreter)@.len() as int;
    let calls = added(*old(interpreter), *final(interpreter));
    assert(forall|j: int|
        0 <= j < calls.len() ==> #[trigger] calls[j] == final(interpreter)@[start + j]);
    let converting = if calls.len() <= 5 {
        calls
    } else {
        calls.take(6)
    };
    assert(forall|j: int| 0 <= j < converting.len() ==> #[trigger] converting[j] == calls[j]);
    let making = converting.skip(2);
    assert(forall|j: int|
        2 <= j < converting.len() ==> #[trigger] converting[j] == making[j - 2]);
    assert(final(interpreter)@[start + i] == calls[i]);
    if i == 0 {
        assert(converting[0] == calls[0]);
    } else if i == 1 {
        assert(converting[1] == calls[1]);
        assert(converting[0] == calls[0]);
        assert(final(interpreter)@[start] == calls[0]);
    } else {
        assert(converting[2] == making[0]);
        assert(final(interpreter)@[start + 2] == calls[2]);
        if i < 6 {
            assert(converting[i] == making[i - 2]);
        }
    }
}

/// Where the task locals come from Python, their loop is what the function `get_running_loop` of
/// the module `asyncio` answered with, and their context is what the function `copy_context` of the
/// module `contextvars` answered with.
pub proof fn law_current_locals_come_from_python<R: ContextExt>(
    interpreter: &mut Interpreter<'_>,
    r: PyResult<TaskLocals>,
)
    requires
        call_ensures(get_current_locals::<R>, (interpreter,), r),
        r is Ok,
        final(interpreter)@ != old(interpreter)@,
    ensures
        ({
            let calls = final(interpreter)@.skip(old(interpreter)@.len() as int);
            &&& calls.len() == 4
            &&& calls[0] == Call::Object(Request::Import("asyncio"), calls[0]->Object_1)
            &&& calls[1] == Call::Object(
                Request::CallMethod0(calls[0]->Object_1->Ok_0, "get_running_loop"),
                Ok(r->Ok_0.event_loop),
            )
            &&& calls[2] == Call::Object(Request::Import("contextvars"), calls[2]->Object_1)
            &&& calls[3] == Call::Object(
                Request::CallMethod0(calls[2]->Object_1->Ok_0, "copy_context"),
                Ok(r->Ok_0.context),
            )
        }),
{
    law_get_current_locals::<R>(interpreter, r);
    let calls = added(*old(interpreter), *final(interpreter));
    if calls.len() == 0 {
        assert(final(interpreter)@ == old(interpreter)@);
    }
    assert(looks_up_locals(calls, r));
}

/// A future that is converted for a loop belongs to that loop, and its context is what the function
/// `copy_context` of the module `contextvars` answered with.
pub proof fn law_future_for_a_loop_has_a_copy_of_the_context<R, W, M, F>(
    interpreter: &mut Interpreter<'_>,
    event_loop: PyObject,
    wrap: W,
    task: M,
    r: PyResult<PyObject>,
) where
    R: ContextExt,
    W: FnOnce(Turn, PyDoneCallback) -> PyObject,
    M: FnOnce(Turn, Worker, Supervisor) -> F,
    F: Future<Output = ()> + Send + 'static,

    requires
        call_ensures(
            future_into_py_with_loop::<R, W, M, F>,
            (interpreter, event_loop, wrap, task),
            r,
        ),
        r is Ok,
    ensures
        final(interpreter)@.last() is Spawn,
        ({
            let start: int = old(interpreter)@.len() as int;
            let calls = final(interpreter)@;
            let locals = calls.last()->Spawn_0.locals;
            &&& locals.event_loop == event_loop
            &&& calls[start] == Call::Object(
                Request::Import("contextvars"),
                calls[start]->Object_1,
            )
            &&& calls[start + 1] == Call::Object(
                Request::CallMethod0(calls[start]->Object_1->Ok_0, "copy_context"),
                Ok(locals.context),
            )
        }),
{
    law_future_into_py_with_loop::<R, W, M, F>(interpreter, event_loop, wrap, task, r);
    let start: int = old(interpreter)@.len() as int;
    let calls = added(*old(interpreter), *final(interpreter));
    assert(calls.len() == 6);
    assert(calls[0] == final(interpreter)@[start]);
    assert(calls[1] == final(interpreter)@[start + 1]);
    assert(calls.skip(2)[3] == calls[5]);
    assert(final(interpreter)@.last() == calls[5]);
}

/// Where the runtime tells no task locals, an awaitable is handed on with the loop that
/// `asyncio.get_running_loop()` answered with and the context that `contextvars.copy_context()`
/// answered with, each in its place.
pub proof fn law_awaitable_goes_with_what_python_gives<R, X, K>(
    interpreter: &mut Interpreter<'_>,
    awaitable: PyObject,
    into_future_with_locals: K,
    r: PyResult<X>,
) where R: ContextExt, K: FnOnce(Turn, &TaskLocals, PyObject) -> PyResult<X>
    requires
        call_ensures(
            into_future::<R, X, K>,
            (interpreter, awaitable, into_future_with_locals),
            r,
        ),
        final(interpreter)@.len() >= old(interpreter)@.len() + 5,
    ensures
        ({
            let calls = final(interpreter)@.skip(old(interpreter)@.len() as int);
            let locals = calls[4]->Forward_0;
            &&& calls.len() == 5
            &&& calls[0] == Call::Object(Request::Import("asyncio"), calls[0]->Object_1)
            &&& calls[1] == Call::Object(
                Request::CallMethod0(calls[0]->Object_1->Ok_0, "get_running_loop"),
                Ok(locals.event_loop),
            )
            &&& calls[2] == Call::Object(Request::Import("contextvars"), calls[2]->Object_1)
            &&& calls[3] == Call::Object(
                Request::CallMethod0(calls[2]->Object_1->Ok_0, "copy_context"),
                Ok(locals.context),
            )
            &&& calls[4] == Call::Forward(locals, awaitable)
            &&& exists|turn: Turn| #[trigger]
                call_ensures(into_future_with_locals, (turn, &locals, awaitable), r)
        }),
{
    law_into_future::<R, X, K>(interpreter, awaitable, into_future_with_locals, r);
    let calls = added(*old(interpreter), *final(interpreter));
    let (told, current, lookup) = choose|
        told: Option<TaskLocals>,
        current: PyResult<TaskLocals>,
        lookup: Seq<Call>,
    |
        {
            &&& #[trigger] call_ensures(R::get_task_locals, (), told)
            &&& #[trigger] finds_locals(lookup, told, current)
            &&& match current {
                Err(e) => calls == lookup && r == Err::<X, PyErr>(e),
                Ok(locals) => {
                    &&& calls == lookup.push(Call::Forward(locals, awaitable))
                    &&& exists|turn: Turn|
                        turn.call() == Call::Forward(locals, awaitable) && #[trigger] call_ensures(
                            into_future_with_locals,
                            (turn, &locals, awaitable),
                            r,
                        )
                },
            }
        };
    assert(calls.len() >= 5);
    assert(lookup.len() == 4);
    assert(forall|j: int| 0 <= j < 4 ==> #[trigger] calls[j] == lookup[j]);
    assert(calls[4] == Call::Forward(current->Ok_0, awaitable));
}

/// The awaitable that comes out of a conversion is the future that the event loop of the task
/// locals created. A callback that holds the sender of a new channel was added to it. The task that
/// was spawned has the receiver of that channel and the task locals, and completes that future:
/// with its result, or with the report of a panic.
pub proof fn law_awaitable_is_tied_to_its_task<R, W, M, F>(
    interpreter: &mut Interpreter<'_>,
    locals: TaskLocals,
    wrap: W,
    task: M,
    py_fut: PyObject,
) where
    R: ContextExt,
    W: FnOnce(Turn, PyDoneCallback) -> PyObject,
    M: FnOnce(Turn, Worker, Supervisor) -> F,
    F: Future<Output = ()> + Send + 'static,

    requires
        call_ensures(
            future_into_py_with_locals::<R, W, M, F>,
            (interpreter, locals, wrap, task),
            Ok(py_fut),
        ),
    ensures
        ({
            let calls = final(interpreter)@.skip(old(interpreter)@.len() as int);
            let callback = calls[1]->Wrap_0;
            let worker = calls[3]->Spawn_0;
            let supervisor = calls[3]->Spawn_1;
            &&& calls.len() == 4
            &&& calls[0] == Call::Object(
                Request::CallMethod0(locals.event_loop, "create_future"),
                Ok(py_fut),
            )
            &&& calls[1] is Wrap
            &&& callback.cancel_tx is Some
            &&& call_ensures(
                channel::<()>,
                (),
                (callback.cancel_tx->0, worker.cancel.cancel_rx.receiver()),
            )
            &&& calls[2] is Object
            &&& calls[2]->Object_0 is CallMethod1
            &&& calls[2]->Object_0->CallMethod1_0 == py_fut
            &&& calls[2]->Object_0->CallMethod1_1 == "add_done_callback"
            &&& exists|turn: Turn| #[trigger]
                call_ensures(wrap, (turn, callback), calls[2]->Object_0->CallMethod1_2)
            &&& calls[3] is Spawn
            &&& worker.locals == locals
            &&& worker.cancel.poll_cancel_rx
            &&& worker.delivery.event_loop == locals.event_loop
            &&& worker.delivery.future == py_fut
            &&& supervisor.delivery.event_loop == locals.event_loop
            &&& supervisor.delivery.future == py_fut
            &&& supervisor.panic_message == "rust future panicked"
            &&& exists|turn: Turn, fut: F, handle: R::JoinHandle| #[trigger]
                call_ensures(task, (turn, worker, supervisor), fut) && #[trigger] call_ensures(
                    R::spawn::<F>,
                    (fut,),
                    handle,
                )
        }),
{
    law_future_into_py_with_locals::<R, W, M, F>(interpreter, locals, wrap, task, Ok(py_fut));
}

/// [`law_awaitable_is_tied_to_its_task`] for a task that stays on the current thread.
pub proof fn law_local_awaitable_is_tied_to_its_task<R, W, M, F>(
    interpreter: &mut Interpreter<'_>,
    locals: TaskLocals,
    wrap: W,
    task: M,
    py_fut: PyObject,
) where
    R: SpawnLocalExt,
    W: FnOnce(Turn, PyDoneCallback) -> PyObject,
    M: FnOnce(Turn, Worker, Supervisor) -> F,
    F: Future<Output = ()> + 'static,

    requires
        call_ensures(
            local_future_into_py_with_locals::<R, W, M, F>,
            (interpreter, locals, wrap, task),
            Ok(py_fut),
        ),
    ensures
        ({
            let calls = final(interpreter)@.skip(old(interpreter)@.len() as int);
            let callback = calls[1]->Wrap_0;
            let worker = calls[3]->Spawn_0;
            let supervisor = calls[3]->Spawn_1;
            &&& calls.len() == 4
            &&& calls[0] == Call::Object(
                Request::CallMethod0(locals.event_loop, "create_future"),
                Ok(py_fut),
            )
            &&& calls[1] is Wrap
            &&& callback.cancel_tx is Some
            &&& call_ensures(
                channel::<()>,
                (),
                (callback.cancel_tx->0, worker.cancel.cancel_rx.receiver()),
            )
            &&& calls[2] is Object
            &&& calls[2]->Object_0 is CallMethod1
            &&& calls[2]->Object_0->CallMethod1_0 == py_fut
            &&& calls[2]->Object_0->CallMethod1_1 == "add_done_callback"
            &&& exists|turn: Turn| #[trigger]
                call_ensures(wrap, (turn, callback), calls[2]->Object_0->CallMethod1_2)
            &&& calls[3] is Spawn
            &&& worker.locals == locals
            &&& worker.cancel.poll_cancel_rx
            &&& worker.delivery.event_loop == locals.event_loop
            &&& worker.delivery.future == py_fut
            &&& supervisor.delivery.event_loop == locals.event_loop
            &&& supervisor.delivery.future == py_fut
            &&& supervisor.panic_message == "Rust future panicked"
            &&& exists|turn: Turn, fut: F, handle: R::JoinHandle| #[trigger]
                call_ensures(task, (turn, worker, supervisor), fut) && #[trigger] call_ensures(
                    R::spawn_local::<F>,
                    (fut,),
                    handle,
                )
        }),
{
    law_local_future_into_py_with_locals::<R, W, M, F>(interpreter, locals, wrap, task, Ok(py_fut));
}

/// A conversion that fails has called neither the code that makes the task nor the runtime: it has
/// put no such entry on record. Its error is that of its last call to Python.
pub proof fn law_failed_conversion_spawns_nothing<R, W, M, F>(
    interpreter: &mut Interpreter<'_>,
    locals: TaskLocals,
    wrap: W,
    task: M,
    e: PyErr,
) where
    R: ContextExt,
    W: FnOnce(Turn, PyDoneCallback) -> PyObject,
    M: FnOnce(Turn, Worker, Supervisor) -> F,
    F: Future<Output = ()> + Send + 'static,

    requires
        call_ensures(
            future_into_py_with_locals::<R, W, M, F>,
            (interpreter, locals, wrap, task),
            Err(e),
        ),
    ensures
        final(interpreter)@.len() > old(interpreter)@.len(),
        final(interpreter)@.last() is Object,
        final(interpreter)@.last()->Object_1 == Err::<PyObject, PyErr>(e),
        forall|i: int|
            old(interpreter)@.len() <= i < final(interpreter)@.len() ==> !((
            #[trigger] final(interpreter)@[i]) is Spawn),
{
    law_future_into_py_with_locals::<R, W, M, F>(interpreter, locals, wrap, task, Err(e));
    let start: int = old(interpreter)@.len() as int;
    let calls = added(*old(interpreter), *final(interpreter));
    assert(final(interpreter)@.last() == calls.last());
    assert forall|i: int| start <= i < final(interpreter)@.len() implies !((
    #[trigger] final(interpreter)@[i]) is Spawn) by {
        assert(final(interpreter)@[i] == calls[i - start]);
    }
}

/// A delivery makes and delivers the result exactly if Python does not say that the future was
/// cancelled. Python says so where the truth of the answer of its method `cancelled` is true.
pub proof fn law_delivery_is_owed_unless_cancelled<
    C: FnOnce(Turn) -> PyResult<PyObject>,
    S: Fn(Turn, PyErr),
>(
    delivery: &Delivery,
    interpreter: &mut Interpreter<'_>,
    result: C,
    show: &S,
)
    requires
        call_ensures(Delivery::deliver::<C, S>, (delivery, interpreter, result, show), ()),
    ensures
        ({
            let calls = final(interpreter)@.skip(old(interpreter)@.len() as int);
            let said_cancelled = calls.len() == 3 && calls[2] is Truth && calls[2]->Truth_1 == Ok::<
                bool,
                PyErr,
            >(true);
            &&& calls.len() > 0
            &&& calls[0] == Call::Object(
                Request::GetAttr(delivery.future, "cancelled"),
                calls[0]->Object_1,
            )
            &&& calls[0]->Object_1 is Ok ==> calls.len() > 1 && calls[1] == Call::Object(
                Request::Call0(calls[0]->Object_1->Ok_0),
                calls[1]->Object_1,
            )
            &&& calls[0]->Object_1 is Ok && calls[1]->Object_1 is Ok ==> calls.len() > 2 && calls[2]
                == Call::Truth(calls[1]->Object_1->Ok_0, calls[2]->Truth_1)
            &&& !said_cancelled ==> exists|i: int|
                {
                    &&& 0 < i < calls.len() - 1
                    &&& (#[trigger] calls[i]) is Produce
                    &&& calls[i + 1] is Object
                    &&& calls[i + 1]->Object_0 is GetAttr
                    &&& calls[i + 1]->Object_0->GetAttr_0 == delivery.future
                    &&& calls[i + 1]->Object_1 is Ok ==> i + 2 < calls.len() && calls[i
                        + 2] is Object && calls[i + 2]->Object_0 is CallSoonThreadsafe
                }
        }),
{
    law_deliver(delivery, interpreter, result, show);
    let calls = added(*old(interpreter), *final(interpreter));
    let (asking, cancelled) = choose|asking: Seq<Call>, cancelled: bool|
        {
            &&& asking.is_prefix_of(calls)
            &&& #[trigger] asks_cancelled_or_shows(asking, delivery.future, *show, cancelled)
            &&& cancelled ==> calls == asking
            &&& !cancelled ==> delivers(*delivery, calls.skip(asking.len() as int), result, *show)
        };
    assert(forall|j: int| 0 <= j < asking.len() ==> #[trigger] calls[j] == asking[j]);
    let rest = calls.skip(asking.len() as int);
    let inner = if asking.last() is Show {
        asking.drop_last()
    } else {
        asking
    };
    assert(forall|j: int| 0 <= j < inner.len() ==> #[trigger] inner[j] == asking[j]);
    assert(calls[0] == inner[0]);
    if inner.len() > 1 {
        assert(calls[1] == inner[1]);
    }
    if inner.len() > 2 {
        assert(calls[2] == inner[2]);
    }
    if !cancelled {
        let i = asking.len() as int;
        let setting = rest.skip(1);
        assert(calls[i] == rest[0]);
        assert(calls[i + 1] == setting[0]);
        if setting.last() is Show {
            let completing = setting.drop_last();
            assert(completing[0] == setting[0]);
            if completing.len() > 1 {
                assert(completing[1] == setting[1]);
                assert(calls[i + 2] == setting[1]);
            }
        } else {
            assert(calls[i + 2] == setting[1]);
        }
        assert(calls[i] is Produce);
    }
}

/// The callback of a Python future uses up its sender exactly if Python says that the future was
/// cancelled, and then it has sent.
pub proof fn law_callback_sends_iff_python_says_cancelled<S: Fn(Turn, PyErr)>(
    callback: &mut PyDoneCallback,
    interpreter: &mut Interpreter<'_>,
    fut: &PyObject,
    show: &S,
    r: PyResult<Option<()>>,
)
    requires
        call_ensures(PyDoneCallback::__call__::<S>, (callback, interpreter, fut, show), r),
        old(callback).cancel_tx is Some,
    ensures
        ({
            let calls = final(interpreter)@.skip(old(interpreter)@.len() as int);
            let said_cancelled = calls.len() == 3 && calls[2] is Truth && calls[2]->Truth_1 == Ok::<
                bool,
                PyErr,
            >(true);
            &&& calls.len() > 0
            &&& calls[0] == Call::Object(
                Request::GetAttr(*fut, "cancelled"),
                calls[0]->Object_1,
            )
            &&& said_cancelled <==> final(callback).cancel_tx is None
            &&& said_cancelled ==> exists|sent: Result<(), ()>| #[trigger]
                call_ensures(Sender::<()>::send, (old(callback).cancel_tx->0, ()), sent)
            &&& !said_cancelled ==> *final(callback) == *old(callback)
            &&& r == Ok::<Option<()>, PyErr>(Some(()))
        }),
{
    law_callback(callback, interpreter, fut, show, r);
    let calls = added(*old(interpreter), *final(interpreter));
    if calls.last() is Show {
        let inner = calls.drop_last();
        assert(forall|j: int| 0 <= j < inner.len() ==> #[trigger] inner[j] == calls[j]);
        assert(inner[0] == calls[0]);
    }
}

/// A run that succeeds gives what was taken, and the last thing that it did is to close the loop
/// that `asyncio.new_event_loop()` gave it.
pub proof fn law_run_ends_with_a_closed_loop<R, W, M, F, K, T>(
    interpreter: &mut Interpreter<'_>,
    wrap: W,
    task: M,
    take: K,
    value: Option<T>,
) where
    R: ContextExt,
    W: FnOnce(Turn, PyDoneCallback) -> PyObject,
    M: FnOnce(Turn, Worker, Supervisor) -> F,
    F: Future<Output = ()> + Send + 'static,
    K: FnOnce(Turn) -> Option<T>,

    requires
        call_ensures(run::<R, W, M, F, K, T>, (interpreter, wrap, task, take), Ok(value)),
    ensures
        ({
            let calls = final(interpreter)@.skip(old(interpreter)@.len() as int);
            let event_loop = calls[1]->Object_1->Ok_0;
            &&& calls.len() > 2
            &&& calls[0] == Call::Object(Request::Import("asyncio"), calls[0]->Object_1)
            &&& calls[1] == Call::Object(
                Request::CallMethod0(calls[0]->Object_1->Ok_0, "new_event_loop"),
                Ok(event_loop),
            )
            &&& calls.last() is Object
            &&& calls.last()->Object_0 == Request::CallMethod0(event_loop, "close")
            &&& calls.last()->Object_1 is Ok
            &&& exists|turn: Turn| #[trigger] call_ensures(take, (turn,), value)
        }),
{
    let r = Ok::<Option<T>, PyErr>(value);
    law_run::<R, W, M, F, K, T>(interpreter, wrap, task, take, r);
    let calls = added(*old(interpreter), *final(interpreter));
    let event_loop = got(calls, 1);
    let (n, result, closed) = choose|n: int, result: PyResult<Option<T>>, closed: PyResult<()>|
        {
            &&& 2 <= n <= calls.len()
            &&& #[trigger] runs(calls.subrange(2, n), event_loop, wrap, take, result)
            &&& n > 7 ==> task_spawned::<R, M, F>(calls[7], task)
            &&& #[trigger] shuts_down(calls.skip(n), event_loop, closed)
            &&& closed is Err ==> r == Err::<Option<T>, PyErr>(closed->Err_0)
            &&& closed is Ok ==> r == result
        };
    let closing = calls.skip(n);
    assert(closing.last() == calls.last());
}

/// `show` was called with `e`, which Python gave in answer to `before`.
pub open spec fn shown_after<S: Fn(Turn, PyErr)>(before: Call, e: PyErr, show: S) -> bool {
    &&& exists|turn: Turn| #[trigger] call_ensures(show, (turn, e), ())
    &&& match before {
        Call::Object(_, answer) => answer == Err::<PyObject, PyErr>(e),
        Call::Truth(_, answer) => answer == Err::<bool, PyErr>(e),
        _ => false,
    }
}

proof fn lemma_asking_shows<S: Fn(Turn, PyErr)>(
    calls: Seq<Call>,
    future: PyObject,
    show: S,
    r: bool,
    k: int,
)
    requires
        asks_cancelled_or_shows(calls, future, show, r),
        0 <= k < calls.len(),
        calls[k] is Show,
    ensures
        k > 0,
        shown_after(calls[k - 1], calls[k]->Show_0, show),
{
    if calls.last() is Show {
        let inner = calls.drop_last();
        if k < inner.len() {
            assert(inner[k] == calls[k]);
        }
        assert(inner.last() == calls[k - 1]);
    }
}

proof fn lemma_delivering_shows<C: FnOnce(Turn) -> PyResult<PyObject>, S: Fn(Turn, PyErr)>(
    delivery: Delivery,
    calls: Seq<Call>,
    result: C,
    show: S,
    k: int,
)
    requires
        delivers(delivery, calls, result, show),
        0 <= k < calls.len(),
        calls[k] is Show,
    ensures
        k > 0,
        shown_after(calls[k - 1], calls[k]->Show_0, show),
{
    let setting = calls.skip(1);
    assert(setting[k - 1] == calls[k]);
    if setting.last() is Show {
        let completing = setting.drop_last();
        if k - 1 < completing.len() {
            assert(completing[k - 1] == setting[k - 1]);
        }
        assert(completing.last() == setting[k - 2]);
        assert(setting[k - 2] == calls[k - 1]);
    }
}

/// An error that is shown is the one that Python gave in answer to the call before.
pub proof fn law_shown_errors_are_those_of_python<
    C: FnOnce(Turn) -> PyResult<PyObject>,
    S: Fn(Turn, PyErr),
>(
    delivery: &Delivery,
    interpreter: &mut Interpreter<'_>,
    result: C,
    show: &S,
    i: int,
)
    requires
        call_ensures(Delivery::deliver::<C, S>, (delivery, interpreter, result, show), ()),
        old(interpreter)@.len() <= i < final(interpreter)@.len(),
        final(interpreter)@[i] is Show,
    ensures
        i > old(interpreter)@.len(),
        ({
            let e = final(interpreter)@[i]->Show_0;
            &&& exists|turn: Turn| #[trigger] call_ensures(*show, (turn, e), ())
            &&& match final(interpreter)@[i - 1] {
                Call::Object(_, answer) => answer == Err::<PyObject, PyErr>(e),
                Call::Truth(_, answer) => answer == Err::<bool, PyErr>(e),
                _ => false,
            }
        }),
{
    law_deliver(delivery, interpreter, result, show);
    let calls = added(*old(interpreter), *final(interpreter));
    let k = i - old(interpreter)@.len();
    assert(calls[k] == final(interpreter)@[i]);
    let (asking, cancelled) = choose|asking: Seq<Call>, cancelled: bool|
        {
            &&& asking.is_prefix_of(calls)
            &&& #[trigger] asks_cancelled_or_shows(asking, delivery.future, *show, cancelled)
            &&& cancelled ==> calls == asking
            &&& !cancelled ==> delivers(*delivery, calls.skip(asking.len() as int), result, *show)
        };
    let n = asking.len() as int;
    if k < n {
        assert(asking[k] == calls[k]);
        lemma_asking_shows(asking, delivery.future, *show, cancelled, k);
        assert(asking[k - 1] == calls[k - 1]);
    } else {
        let rest = calls.skip(n);
        assert(rest[k - n] == calls[k]);
        lemma_delivering_shows(*delivery, rest, result, *show, k - n);
        assert(rest[k - n - 1] == calls[k - 1]);
    }
    assert(final(interpreter)@[i - 1] == calls[k - 1]);
}

} // verus!
