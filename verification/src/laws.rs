//! What holds across the functions of the library.

use crate::cancel::{is_cancellation, Cancellable, Poll, PyDoneCallback};
use crate::convert::{
    convert_calls, current_calls, future_into_py_calls, future_into_py_with_locals_calls,
    future_into_py_with_loop_calls, local_future_into_py_calls,
    local_future_into_py_with_locals_calls, local_future_into_py_with_loop_calls, start_calls,
    start_local_calls, with_locals_calls, with_loop_calls, Conversion,
};
use crate::delivery::{Delivery, Supervisor, Worker};
use crate::event_loop::{
    answer, asked, call_module_calls, cancelled_or_show_calls, close_calls,
};
use crate::interpreter::{
    forwarded, is_none, produced, spawned, spawned_local, taken, wrapped, Call, Request, Turn,
};
use crate::locals::{
    copy_context_calls, current_locals_calls, current_loop_calls, forward_calls,
    get_current_locals_calls, get_running_loop_calls, with_running_loop_calls, TaskLocals,
};
use crate::oneshot::{receiver_polled, Signal};
use crate::run::{
    run_and_close_calls, run_calls, run_loop_calls, run_until_complete_calls, ResultSlot,
};
use crate::runtime::{ContextExt, JoinError, SpawnLocalExt};
use futures::channel::oneshot::{Receiver, Sender};
use pyo3::{PyErr, PyObject, PyResult};
use std::future::Future;
use std::task::Context;
use vstd::prelude::*;

verus! {

/// `call` asks an event loop to complete a Python future.
pub open spec fn completes(call: Call) -> bool {
    call is Object && call->Object_0 is CallSoonThreadsafe
}

/// No two calls of the stretch complete a Python future.
pub open spec fn completes_at_most_once(calls: Seq<Call>) -> bool {
    forall|i: int, j: int|
        0 <= i < calls.len() && 0 <= j < calls.len() && #[trigger] completes(calls[i])
            && #[trigger] completes(calls[j]) ==> i == j
}

/// `call` asks an event loop to complete a Python future, and the loop has agreed.
pub open spec fn completed(call: Call) -> bool {
    completes(call) && call->Object_1 is Ok
}

/// No two calls of the stretch have completed a Python future.
pub open spec fn completed_at_most_once(calls: Seq<Call>) -> bool {
    forall|i: int, j: int|
        0 <= i < calls.len() && 0 <= j < calls.len() && #[trigger] completed(calls[i])
            && #[trigger] completed(calls[j]) ==> i == j
}

/// None of the calls has completed a Python future.
pub open spec fn completed_nothing(calls: Seq<Call>) -> bool {
    forall|i: int| 0 <= i < calls.len() ==> !#[trigger] completed(calls[i])
}

/// None of the calls completes a Python future.
pub open spec fn completes_nothing(calls: Seq<Call>) -> bool {
    forall|i: int| 0 <= i < calls.len() ==> !#[trigger] completes(calls[i])
}

/// To ask whether a future was cancelled completes none, and makes no result.
proof fn lemma_asking_completes_nothing<S: Fn(Turn, PyErr)>(
    calls: Seq<Call>,
    future: PyObject,
    show: S,
    cancelled: bool,
)
    requires
        cancelled_or_show_calls(calls, future, show, cancelled),
    ensures
        completes_nothing(calls),
        forall|i: int| 0 <= i < calls.len() ==> !((#[trigger] calls[i]) is Produce),
{
}

/// The second call to complete a future is the one that does it.
proof fn lemma_completing_completes_once<S: Fn(Turn, PyErr)>(
    delivery: Delivery,
    calls: Seq<Call>,
    result: PyResult<PyObject>,
    show: S,
)
    requires
        delivery.complete_calls(calls, result, show),
    ensures
        forall|i: int|
            0 <= i < calls.len() && #[trigger] completes(calls[i]) ==> {
                &&& i == 1
                &&& calls[i]->Object_0->event_loop == delivery.event_loop
                &&& calls[i]->Object_0->argument == result
                &&& completed(calls[i]) ==> calls.len() == 2
            },
        forall|i: int| 0 <= i < calls.len() ==> !((#[trigger] calls[i]) is Produce),
{
}

/// A delivery completes the Python future at most once, on its event loop and with the result at
/// hand. It does not complete a future that Python has cancelled. Once the loop has agreed to
/// complete the future, nothing more is done.
pub proof fn law_delivery_completes_at_most_once<
    C: FnOnce(Turn) -> PyResult<PyObject>,
    S: Fn(Turn, PyErr),
>(
    delivery: Delivery,
    calls: Seq<Call>,
    result: C,
    delivered: Option<PyResult<PyObject>>,
    show: S,
)
    requires
        delivery.deliver_calls(calls, result, delivered, show),
    ensures
        completes_at_most_once(calls),
        forall|i: int|
            0 <= i < calls.len() && #[trigger] completes(calls[i]) ==> {
                &&& calls[i]->Object_0->event_loop == delivery.event_loop
                &&& delivered == Some(calls[i]->Object_0->argument)
            },
        delivered is None ==> completes_nothing(calls),
        // the result is made only for a delivery, and before it
        delivered is None ==> forall|i: int|
            0 <= i < calls.len() ==> !((#[trigger] calls[i]) is Produce),
        delivered is Some ==> produced(result, delivered->0),
        forall|i: int, j: int|
            0 <= i < calls.len() && 0 <= j < calls.len() && (#[trigger] calls[i]) is Produce
                && #[trigger] completes(calls[j]) ==> i < j,
        forall|i: int|
            0 <= i < calls.len() && #[trigger] completed(calls[i]) ==> i == calls.len() - 1,
{
    let (first, rest, cancelled) = choose|first: Seq<Call>, rest: Seq<Call>, cancelled: bool|
        {
            &&& calls == #[trigger] (first + rest)
            &&& #[trigger] cancelled_or_show_calls(first, delivery.future, show, cancelled)
            &&& match delivered {
                None => cancelled && rest.len() == 0,
                Some(value) => {
                    &&& !cancelled
                    &&& rest.len() > 0
                    &&& rest[0] is Produce
                    &&& produced(result, value)
                    &&& delivery.complete_calls(rest.skip(1), value, show)
                },
            }
        };
    lemma_asking_completes_nothing(first, delivery.future, show, cancelled);
    assert forall|i: int| 0 <= i < first.len() implies !completes(calls[i])
        && !((#[trigger] calls[i]) is Produce) by {
        assert(calls[i] == first[i]);
    }
    if delivered is Some {
        let complete = rest.skip(1);
        lemma_completing_completes_once(delivery, complete, delivered->0, show);
        assert forall|i: int| 0 <= i < calls.len() implies {
            &&& (#[trigger] calls[i]) is Produce ==> i == first.len()
            &&& completes(calls[i]) ==> {
                &&& i == first.len() + 2
                &&& calls[i]->Object_0->event_loop == delivery.event_loop
                &&& delivered == Some(calls[i]->Object_0->argument)
                &&& completed(calls[i]) ==> i == calls.len() - 1
            }
        } by {
            if i > first.len() {
                assert(calls[i] == complete[i - first.len() - 1]);
            }
        }
    }
}

/// A delivery that is cut short has not completed the Python future: not if it stops before its last
/// call, and not if it stops in code that the caller handed in, where it may panic.
pub proof fn law_interrupted_delivery_completes_nothing<
    C: FnOnce(Turn) -> PyResult<PyObject>,
    S: Fn(Turn, PyErr),
>(
    delivery: Delivery,
    calls: Seq<Call>,
    result: C,
    delivered: Option<PyResult<PyObject>>,
    show: S,
    n: int,
)
    requires
        delivery.deliver_calls(calls, result, delivered, show),
        0 <= n <= calls.len(),
        n == calls.len() ==> n > 0 && (calls[n - 1] is Show || calls[n - 1] is Produce),
    ensures
        completed_nothing(calls.take(n)),
{
    law_delivery_completes_at_most_once(delivery, calls, result, delivered, show);
    let done = calls.take(n);
    assert forall|i: int| 0 <= i < n implies !#[trigger] completed(done[i]) by {
        assert(done[i] == calls[i]);
    }
}

/// Between them, the worker and the supervisor of a conversion complete the Python future at most
/// once. The worker either delivers and ends well, or it ends otherwise and its delivery, if it has
/// begun one, was cut short: [`law_interrupted_delivery_completes_nothing`]. For example, it panics
/// while its result is made.
pub proof fn law_conversion_completes_at_most_once<J, C, D, S>(
    conversion: Conversion,
    finished: bool,
    worker_result: C,
    worker_delivered: Option<PyResult<PyObject>>,
    worker_calls: Seq<Call>,
    end: Result<(), J>,
    message: Option<&'static str>,
    supervisor_result: D,
    supervisor_delivered: Option<PyResult<PyObject>>,
    supervisor_calls: Seq<Call>,
    show: S,
) where
    J: JoinError,
    C: FnOnce(Turn) -> PyResult<PyObject>,
    D: FnOnce(Turn) -> PyResult<PyObject>,
    S: Fn(Turn, PyErr),

    requires
        if finished {
            end is Ok && conversion.worker.delivery.deliver_calls(
                worker_calls,
                worker_result,
                worker_delivered,
                show,
            )
        } else {
            completed_nothing(worker_calls)
        },
        conversion.supervisor.owes(end, message),
        match message {
            Some(_) => conversion.supervisor.delivery.deliver_calls(
                supervisor_calls,
                supervisor_result,
                supervisor_delivered,
                show,
            ),
            None => supervisor_calls.len() == 0,
        },
    ensures
        completed_at_most_once(worker_calls + supervisor_calls),
        finished || completes_nothing(worker_calls) ==> completes_at_most_once(
            worker_calls + supervisor_calls,
        ),
{
    let calls = worker_calls + supervisor_calls;
    if finished {
        law_delivery_completes_at_most_once(
            conversion.worker.delivery,
            worker_calls,
            worker_result,
            worker_delivered,
            show,
        );
        assert(calls == worker_calls);
    } else {
        if message is Some {
            law_delivery_completes_at_most_once(
                conversion.supervisor.delivery,
                supervisor_calls,
                supervisor_result,
                supervisor_delivered,
                show,
            );
        }
        let n = worker_calls.len();
        assert forall|i: int| 0 <= i < n implies (#[trigger] calls[i]) == worker_calls[i] by {}
        assert forall|i: int| n <= i < calls.len() implies (#[trigger] calls[i])
            == supervisor_calls[i - n] by {}
        assert forall|i: int, j: int|
            0 <= i < calls.len() && 0 <= j < calls.len() && #[trigger] completed(calls[i])
                && #[trigger] completed(calls[j]) implies i == j by {
            assert(i < n ==> !completed(worker_calls[i]));
            assert(j < n ==> !completed(worker_calls[j]));
            assert(completes(supervisor_calls[i - n]));
            assert(completes(supervisor_calls[j - n]));
        }
        if completes_nothing(worker_calls) {
            assert forall|i: int, j: int|
                0 <= i < calls.len() && 0 <= j < calls.len() && #[trigger] completes(calls[i])
                    && #[trigger] completes(calls[j]) implies i == j by {
                assert(i < n ==> !completes(worker_calls[i]));
                assert(j < n ==> !completes(worker_calls[j]));
                assert(completes(supervisor_calls[i - n]));
                assert(completes(supervisor_calls[j - n]));
            }
        }
    }
}

/// A worker's task of which the runtime says that it panicked owes Python the message of its
/// conversion. One that ended well, or of which the runtime says otherwise, owes nothing.
pub proof fn law_only_panics_are_reported<J: JoinError>(
    supervisor: Supervisor,
    end: Result<(), J>,
    message: Option<&'static str>,
)
    requires
        supervisor.owes(end, message),
    ensures
        match message {
            Some(message) => {
                &&& message == supervisor.panic_message
                &&& end is Err
                &&& call_ensures(J::is_panic, (&end->Err_0,), true)
            },
            None => end is Ok || call_ensures(J::is_panic, (&end->Err_0,), false),
        },
{
}

/// A conversion that succeeds has made one Python future. Both its tasks complete that future, on
/// the event loop of the task locals that were given, and the Rust future sees these task locals.
pub proof fn law_conversion_keeps_locals<W: FnOnce(Turn, PyDoneCallback) -> PyObject>(
    calls: Seq<Call>,
    locals: TaskLocals,
    wrap: W,
    panic_message: &'static str,
    conversion: Conversion,
)
    requires
        with_locals_calls(calls, locals, wrap, panic_message, Ok(conversion)),
    ensures
        asked(calls, 0, Request::CallMethod0(locals.event_loop, "create_future")),
        answer(calls, 0) == Ok::<PyObject, PyErr>(conversion.py_fut),
        conversion.worker.locals == locals,
        conversion.worker.delivery == (Delivery {
            event_loop: locals.event_loop,
            future: conversion.py_fut,
        }),
        conversion.supervisor.delivery == conversion.worker.delivery,
        conversion.supervisor.panic_message == panic_message,
{
}

/// A run of polls of one cancellable future: the state before each and after the last, what polling
/// the Rust future gave, the signal if one was asked for, and the result.
pub struct Polls<'a, T> {
    pub states: Seq<Cancellable>,
    pub futures: Seq<Poll<PyResult<T>>>,
    pub cxs: Seq<Context<'a>>,
    pub signals: Seq<Option<Signal>>,
    pub results: Seq<Poll<PyResult<T>>>,
}

impl<'a, T> Polls<'a, T> {
    /// The number of polls.
    pub open spec fn len(self) -> int {
        self.results.len() as int
    }

    /// The poll at `i` led from one state to the next.
    pub open spec fn step(self, i: int) -> bool {
        self.states[i + 1].polled(
            self.states[i],
            self.futures[i],
            self.cxs[i],
            self.signals[i],
            self.results[i],
        )
    }

    /// There is one of each for every poll, and every poll led from one state to the next.
    pub open spec fn wf(self) -> bool {
        &&& self.states.len() == self.len() + 1
        &&& self.futures.len() == self.len()
        &&& self.cxs.len() == self.len()
        &&& self.signals.len() == self.len()
        &&& forall|i: int| 0 <= i < self.len() ==> #[trigger] self.step(i)
    }

    /// No poll before the one at `i` was given a signal other than `Pending`.
    pub open spec fn no_signal_before(self, i: int) -> bool {
        forall|k: int|
            0 <= k < i ==> ((#[trigger] self.signals[k]) is Some ==> self.signals[k]->0 is Pending)
    }

    /// The receiver stays the same, and a signal may come until one has.
    proof fn lemma_listens(self, i: int)
        requires
            self.wf(),
            0 <= i <= self.len(),
        ensures
            self.states[i].cancel_rx.receiver() == self.states[0].cancel_rx.receiver(),
            self.states[0].poll_cancel_rx && self.no_signal_before(i)
                ==> self.states[i].poll_cancel_rx,
        decreases i,
    {
        if i > 0 {
            self.lemma_listens(i - 1);
            assert(self.step(i - 1));
            if self.no_signal_before(i) {
                assert(self.no_signal_before(i - 1));
                assert(self.signals[i - 1] is Some ==> self.signals[i - 1]->0 is Pending);
            }
        }
    }

    /// What the receiver has given by the `i`th state stays on its record.
    proof fn lemma_kept(self, i: int, n: int, j: int)
        requires
            self.wf(),
            0 <= i <= n <= self.len(),
            0 <= j < self.states[i].cancel_rx.signals().len(),
        ensures
            j < self.states[n].cancel_rx.signals().len(),
            self.states[n].cancel_rx.signals()[j] == self.states[i].cancel_rx.signals()[j],
        decreases n,
    {
        if i < n {
            self.lemma_kept(i, n - 1, j);
            assert(self.step(n - 1));
        }
    }

    /// Whatever the receiver of a new cancellable future has given by the `i`th state, it has given
    /// to one of the polls before.
    proof fn lemma_given(self, i: int, j: int)
        requires
            self.wf(),
            self.states[0].cancel_rx.signals().len() == 0,
            0 <= i <= self.len(),
            0 <= j < self.states[i].cancel_rx.signals().len(),
        ensures
            exists|k: int|
                0 <= k < i && #[trigger] self.signals[k] == Some(
                    self.states[i].cancel_rx.signals()[j],
                ),
        decreases i,
    {
        if i > 0 {
            assert(self.step(i - 1));
            let before = self.states[i - 1].cancel_rx.signals();
            let after = self.states[i].cancel_rx.signals();
            if j < before.len() {
                self.lemma_given(i - 1, j);
                assert(before[j] == after[j]);
            } else {
                assert(self.signals[i - 1] == Some(after[j]));
            }
        }
    }
}

/// Cancelling the Python future cancels the Rust future.
///
/// The callback of the Python future sends the cancellation over the channel that the conversion
/// has made. Every poll that finds the Rust future waiting polls the receiver of that channel, until
/// a poll was given a signal, and by then the receiver has given no signal to anyone. The poll that
/// is given the cancellation completes the Rust future.
pub proof fn law_cancelling_python_cancels_rust<
    W: FnOnce(Turn, PyDoneCallback) -> PyObject,
    T,
>(
    calls: Seq<Call>,
    locals: TaskLocals,
    wrap: W,
    halves: (Sender<()>, Receiver<()>),
    panic_message: &'static str,
    conversion: Conversion,
    called: PyDoneCallback,
    polls: Polls<'_, T>,
    i: int,
)
    requires
        convert_calls(calls, locals, wrap, halves, panic_message, Ok(conversion)),
        // Python calls the callback of a future that was cancelled
        called.answered(PyDoneCallback { cancel_tx: Some(halves.0) }, true),
        // a poll finds the Rust future waiting
        polls.wf(),
        polls.states[0] == conversion.worker.cancel,
        0 <= i < polls.len(),
        polls.futures[i] is Pending,
        polls.no_signal_before(i),
    ensures
        exists|callback: PyObject| #[trigger]
            wrapped(wrap, PyDoneCallback { cancel_tx: Some(halves.0) }, callback) && asked(
                calls,
                2,
                Request::CallMethod1(conversion.py_fut, "add_done_callback", callback),
            ),
        exists|sent: Result<(), ()>| #[trigger]
            call_ensures(Sender::<()>::send, (halves.0, ()), sent),
        called.cancel_tx is None,
        polls.signals[i] is Some,
        receiver_polled(halves.1, polls.cxs[i], polls.signals[i]->0),
        forall|j: int|
            0 <= j < polls.states[i].cancel_rx.signals().len()
                ==> (#[trigger] polls.states[i].cancel_rx.signals()[j]) is Pending,
        polls.states[i + 1].cancel_rx.signals() == polls.states[i].cancel_rx.signals().push(
            polls.signals[i]->0,
        ),
        polls.signals[i] == Some(Signal::Sent) <==> polls.results[i] is Ready,
        polls.results[i] is Ready ==> is_cancellation(polls.results[i]->Ready_0),
{
    polls.lemma_listens(i);
    assert(polls.step(i));
    let given = polls.states[i].cancel_rx.signals();
    assert forall|j: int| 0 <= j < given.len() implies (#[trigger] given[j]) is Pending by {
        polls.lemma_given(i, j);
    }
}

/// No cancellation is lost: if the receiver has given the cancellation at all, one of the polls has
/// completed the Rust future with it.
pub proof fn law_no_cancellation_is_lost<T>(polls: Polls<'_, T>, cancel_rx: Receiver<()>)
    requires
        polls.wf(),
        polls.states[0].is_new(cancel_rx),
        polls.states.last().cancel_rx.signals().contains(Signal::Sent),
    ensures
        exists|k: int|
            {
                &&& 0 <= k < polls.len()
                &&& polls.signals[k] == Some(Signal::Sent)
                &&& (#[trigger] polls.results[k]) is Ready
                &&& is_cancellation(polls.results[k]->Ready_0)
            },
{
    let n = polls.len();
    let given = polls.states[n].cancel_rx.signals();
    let j = choose|j: int| 0 <= j < given.len() && given[j] == Signal::Sent;
    polls.lemma_given(n, j);
    let k = choose|k: int| 0 <= k < n && #[trigger] polls.signals[k] == Some(Signal::Sent);
    assert(polls.step(k));
    assert(polls.results[k] is Ready);
}

/// If the receiver has not given a cancellation, each poll gives what the Rust future gives, and so
/// the cancellable future completes when the Rust future does, with its result. A sender that is
/// dropped makes no difference.
pub proof fn law_without_cancellation_nothing_changes<T>(polls: Polls<'_, T>, k: int)
    requires
        polls.wf(),
        !polls.states.last().cancel_rx.signals().contains(Signal::Sent),
        0 <= k < polls.len(),
    ensures
        polls.results[k] == polls.futures[k],
{
    assert(polls.step(k));
    if polls.signals[k] == Some(Signal::Sent) {
        let n = polls.len();
        let j = polls.states[k].cancel_rx.signals().len() as int;
        assert(polls.states[k + 1].cancel_rx.signals()[j] == Signal::Sent);
        polls.lemma_kept(k + 1, n, j);
        assert(polls.states[n].cancel_rx.signals()[j] == Signal::Sent);
    }
}

/// A Python future that is done without having been cancelled leaves the Rust future alone: its
/// callback keeps the sender, and a poll that finds the sender dropped completes nothing.
pub proof fn law_completion_does_not_cancel<T>(
    callback: PyDoneCallback,
    called: PyDoneCallback,
    before: Cancellable,
    cx: Context<'_>,
    after: Cancellable,
    r: Poll<PyResult<T>>,
)
    requires
        called.answered(callback, false),
        after.polled(before, Poll::Pending, cx, Some(Signal::Dropped), r),
    ensures
        called == callback,
        r is Pending,
        !after.poll_cancel_rx,
{
}

/// What polling a cancellable future gives is what the Rust future gives, or a cancellation in place
/// of a future that is not ready.
pub proof fn law_poll_adds_only_cancellation<T>(
    before: Cancellable,
    future: Poll<PyResult<T>>,
    cx: Context<'_>,
    signal: Option<Signal>,
    after: Cancellable,
    r: Poll<PyResult<T>>,
)
    requires
        after.polled(before, future, cx, signal, r),
    ensures
        r == future || (future is Pending && r is Ready && is_cancellation(r->Ready_0)),
        after.cancel_rx.receiver() == before.cancel_rx.receiver(),
        after.poll_cancel_rx ==> before.poll_cancel_rx,
        // each signal that the receiver gives is the one that is used
        after.cancel_rx.signals() == (match signal {
            Some(signal) => before.cancel_rx.signals().push(signal),
            None => before.cancel_rx.signals(),
        }),
{
}

/// The receiver is no longer asked once it has given a signal other than `Pending`: from then on
/// every poll gives what the Rust future gives.
pub proof fn law_last_signal_is_final<T>(polls: Polls<'_, T>, i: int, j: int)
    requires
        polls.wf(),
        0 <= i < j < polls.len(),
        polls.signals[i] is Some && !(polls.signals[i]->0 is Pending),
    ensures
        polls.states[j + 1] == polls.states[i + 1],
        polls.signals[j] is None,
        polls.results[j] == polls.futures[j],
    decreases j,
{
    assert(polls.step(i));
    assert(polls.step(j));
    if j > i + 1 {
        law_last_signal_is_final(polls, i, j - 1);
    }
}

/// A conversion that fails spawns nothing. One that succeeds spawns its task once, as the last thing
/// it does, and gives the Python future that is for it to complete.
pub proof fn law_task_spawned_iff_converted<R, W, M, F>(
    calls: Seq<Call>,
    locals: TaskLocals,
    wrap: W,
    task: M,
    r: PyResult<PyObject>,
) where
    R: ContextExt,
    W: FnOnce(Turn, PyDoneCallback) -> PyObject,
    M: FnOnce(Turn, Worker, Supervisor) -> F,
    F: Future<Output = ()> + Send + 'static,

    requires
        future_into_py_with_locals_calls::<R, W, M, F>(calls, locals, wrap, task, r),
    ensures
        forall|i: int|
            0 <= i < calls.len() ==> ((#[trigger] calls[i]) is Spawn <==> r is Ok && i
                == calls.len() - 1),
        r is Ok ==> {
            let spawn = calls.last();
            &&& calls.len() > 0
            &&& spawned::<R, M, F>(task, spawn->Spawn_0, spawn->Spawn_1)
            &&& spawn->Spawn_0.locals == locals
            &&& spawn->Spawn_0.delivery.future == r->Ok_0
            &&& spawn->Spawn_1.delivery.future == r->Ok_0
        },
{
}

/// [`law_task_spawned_iff_converted`] for a task that stays on the current thread.
pub proof fn law_local_task_spawned_iff_converted<R, W, M, F>(
    calls: Seq<Call>,
    locals: TaskLocals,
    wrap: W,
    task: M,
    r: PyResult<PyObject>,
) where
    R: SpawnLocalExt,
    W: FnOnce(Turn, PyDoneCallback) -> PyObject,
    M: FnOnce(Turn, Worker, Supervisor) -> F,
    F: Future<Output = ()> + 'static,

    requires
        local_future_into_py_with_locals_calls::<R, W, M, F>(calls, locals, wrap, task, r),
    ensures
        forall|i: int|
            0 <= i < calls.len() ==> ((#[trigger] calls[i]) is Spawn <==> r is Ok && i
                == calls.len() - 1),
        r is Ok ==> {
            let spawn = calls.last();
            &&& calls.len() > 0
            &&& spawned_local::<R, M, F>(task, spawn->Spawn_0, spawn->Spawn_1)
            &&& spawn->Spawn_0.locals == locals
            &&& spawn->Spawn_0.delivery.future == r->Ok_0
            &&& spawn->Spawn_1.delivery.future == r->Ok_0
        },
{
}

/// The calls of a conversion for an event loop are those that copy the context and those that
/// convert with the copy.
proof fn lemma_with_loop_splits<W: FnOnce(Turn, PyDoneCallback) -> PyObject>(
    calls: Seq<Call>,
    event_loop: PyObject,
    wrap: W,
    panic_message: &'static str,
    converted: PyResult<Conversion>,
) -> (r: (Seq<Call>, Seq<Call>, TaskLocals, PyResult<TaskLocals>))
    requires
        with_loop_calls(calls, event_loop, wrap, panic_message, converted),
    ensures
        calls == r.0 + r.1,
        r.2.event_loop == event_loop,
        copy_context_calls(r.0, r.2, r.3),
        match r.3 {
            Err(e) => r.1.len() == 0 && converted == Err::<Conversion, PyErr>(e),
            Ok(locals) => locals.event_loop == event_loop && with_locals_calls(
                r.1,
                locals,
                wrap,
                panic_message,
                converted,
            ),
        },
{
    choose|first: Seq<Call>, rest: Seq<Call>, fresh: TaskLocals, copied: PyResult<TaskLocals>|
        {
            &&& calls == #[trigger] (first + rest)
            &&& fresh.event_loop == event_loop
            &&& is_none(fresh.context)
            &&& #[trigger] copy_context_calls(first, fresh, copied)
            &&& match copied {
                Err(e) => rest.len() == 0 && converted == Err::<Conversion, PyErr>(e),
                Ok(locals) => with_locals_calls(rest, locals, wrap, panic_message, converted),
            }
        }
}

/// The calls of a conversion in the current task are those that look its locals up and those that
/// convert with them.
proof fn lemma_current_splits<R: ContextExt, W: FnOnce(Turn, PyDoneCallback) -> PyObject>(
    calls: Seq<Call>,
    wrap: W,
    panic_message: &'static str,
    converted: PyResult<Conversion>,
) -> (r: (Seq<Call>, Seq<Call>, PyResult<TaskLocals>))
    requires
        current_calls::<R, W>(calls, wrap, panic_message, converted),
    ensures
        calls == r.0 + r.1,
        get_current_locals_calls::<R>(r.0, r.2),
        match r.2 {
            Err(e) => r.1.len() == 0 && converted == Err::<Conversion, PyErr>(e),
            Ok(locals) => with_locals_calls(r.1, locals, wrap, panic_message, converted),
        },
{
    choose|first: Seq<Call>, rest: Seq<Call>, current: PyResult<TaskLocals>|
        {
            &&& calls == #[trigger] (first + rest)
            &&& #[trigger] get_current_locals_calls::<R>(first, current)
            &&& match current {
                Err(e) => rest.len() == 0 && converted == Err::<Conversion, PyErr>(e),
                Ok(locals) => with_locals_calls(rest, locals, wrap, panic_message, converted),
            }
        }
}

/// Converting for an event loop is converting with task locals that hold this loop and a copy of the
/// current context. Where the context cannot be copied, nothing else is done.
pub proof fn law_with_loop_is_with_copied_context<R, W, M, F>(
    calls: Seq<Call>,
    event_loop: PyObject,
    wrap: W,
    task: M,
    r: PyResult<PyObject>,
) where
    R: ContextExt,
    W: FnOnce(Turn, PyDoneCallback) -> PyObject,
    M: FnOnce(Turn, Worker, Supervisor) -> F,
    F: Future<Output = ()> + Send + 'static,

    requires
        future_into_py_with_loop_calls::<R, W, M, F>(calls, event_loop, wrap, task, r),
    ensures
        exists|first: Seq<Call>, rest: Seq<Call>, fresh: TaskLocals, copied: PyResult<TaskLocals>|
            {
                &&& calls == #[trigger] (first + rest)
                &&& #[trigger] copy_context_calls(first, fresh, copied)
                &&& fresh.event_loop == event_loop
                &&& match copied {
                    Err(e) => rest.len() == 0 && r == Err::<PyObject, PyErr>(e),
                    Ok(locals) => {
                        &&& locals.event_loop == event_loop
                        &&& future_into_py_with_locals_calls::<R, W, M, F>(
                            rest,
                            locals,
                            wrap,
                            task,
                            r,
                        )
                    },
                }
            },
{
    let message = "rust future panicked";
    let (converting, starting, converted) = choose|
        converting: Seq<Call>,
        starting: Seq<Call>,
        converted: PyResult<Conversion>,
    |
        {
            &&& calls == #[trigger] (converting + starting)
            &&& #[trigger] with_loop_calls(converting, event_loop, wrap, message, converted)
            &&& start_calls::<R, M, F>(starting, converted, task, r)
        };
    let (first, rest, fresh, copied) = lemma_with_loop_splits(
        converting,
        event_loop,
        wrap,
        message,
        converted,
    );
    assert(calls == first + (rest + starting));
    if copied is Ok {
        assert(future_into_py_with_locals_calls::<R, W, M, F>(
            rest + starting,
            copied->Ok_0,
            wrap,
            task,
            r,
        ));
    }
}

/// [`law_with_loop_is_with_copied_context`] for a task that stays on the current thread.
pub proof fn law_local_with_loop_is_with_copied_context<R, W, M, F>(
    calls: Seq<Call>,
    event_loop: PyObject,
    wrap: W,
    task: M,
    r: PyResult<PyObject>,
) where
    R: SpawnLocalExt,
    W: FnOnce(Turn, PyDoneCallback) -> PyObject,
    M: FnOnce(Turn, Worker, Supervisor) -> F,
    F: Future<Output = ()> + 'static,

    requires
        local_future_into_py_with_loop_calls::<R, W, M, F>(calls, event_loop, wrap, task, r),
    ensures
        exists|first: Seq<Call>, rest: Seq<Call>, fresh: TaskLocals, copied: PyResult<TaskLocals>|
            {
                &&& calls == #[trigger] (first + rest)
                &&& #[trigger] copy_context_calls(first, fresh, copied)
                &&& fresh.event_loop == event_loop
                &&& match copied {
                    Err(e) => rest.len() == 0 && r == Err::<PyObject, PyErr>(e),
                    Ok(locals) => {
                        &&& locals.event_loop == event_loop
                        &&& local_future_into_py_with_locals_calls::<R, W, M, F>(
                            rest,
                            locals,
                            wrap,
                            task,
                            r,
                        )
                    },
                }
            },
{
    let message = "Rust future panicked";
    let (converting, starting, converted) = choose|
        converting: Seq<Call>,
        starting: Seq<Call>,
        converted: PyResult<Conversion>,
    |
        {
            &&& calls == #[trigger] (converting + starting)
            &&& #[trigger] with_loop_calls(converting, event_loop, wrap, message, converted)
            &&& start_local_calls::<R, M, F>(starting, converted, task, r)
        };
    let (first, rest, fresh, copied) = lemma_with_loop_splits(
        converting,
        event_loop,
        wrap,
        message,
        converted,
    );
    assert(calls == first + (rest + starting));
    if copied is Ok {
        assert(local_future_into_py_with_locals_calls::<R, W, M, F>(
            rest + starting,
            copied->Ok_0,
            wrap,
            task,
            r,
        ));
    }
}

/// Converting in the current task is converting with the current task locals. Where they cannot be
/// had, nothing else is done.
pub proof fn law_into_py_is_with_current_locals<R, W, M, F>(
    calls: Seq<Call>,
    wrap: W,
    task: M,
    r: PyResult<PyObject>,
) where
    R: ContextExt,
    W: FnOnce(Turn, PyDoneCallback) -> PyObject,
    M: FnOnce(Turn, Worker, Supervisor) -> F,
    F: Future<Output = ()> + Send + 'static,

    requires
        future_into_py_calls::<R, W, M, F>(calls, wrap, task, r),
    ensures
        exists|first: Seq<Call>, rest: Seq<Call>, current: PyResult<TaskLocals>|
            {
                &&& calls == #[trigger] (first + rest)
                &&& #[trigger] get_current_locals_calls::<R>(first, current)
                &&& match current {
                    Err(e) => rest.len() == 0 && r == Err::<PyObject, PyErr>(e),
                    Ok(locals) => future_into_py_with_locals_calls::<R, W, M, F>(
                        rest,
                        locals,
                        wrap,
                        task,
                        r,
                    ),
                }
            },
{
    let message = "rust future panicked";
    let (converting, starting, converted) = choose|
        converting: Seq<Call>,
        starting: Seq<Call>,
        converted: PyResult<Conversion>,
    |
        {
            &&& calls == #[trigger] (converting + starting)
            &&& #[trigger] current_calls::<R, W>(converting, wrap, message, converted)
            &&& start_calls::<R, M, F>(starting, converted, task, r)
        };
    let (first, rest, current) = lemma_current_splits::<R, W>(converting, wrap, message, converted);
    assert(calls == first + (rest + starting));
    if current is Ok {
        assert(future_into_py_with_locals_calls::<R, W, M, F>(
            rest + starting,
            current->Ok_0,
            wrap,
            task,
            r,
        ));
    }
}

/// [`law_into_py_is_with_current_locals`] for a task that stays on the current thread.
pub proof fn law_local_into_py_is_with_current_locals<R, W, M, F>(
    calls: Seq<Call>,
    wrap: W,
    task: M,
    r: PyResult<PyObject>,
) where
    R: ContextExt + SpawnLocalExt,
    W: FnOnce(Turn, PyDoneCallback) -> PyObject,
    M: FnOnce(Turn, Worker, Supervisor) -> F,
    F: Future<Output = ()> + 'static,

    requires
        local_future_into_py_calls::<R, W, M, F>(calls, wrap, task, r),
    ensures
        exists|first: Seq<Call>, rest: Seq<Call>, current: PyResult<TaskLocals>|
            {
                &&& calls == #[trigger] (first + rest)
                &&& #[trigger] get_current_locals_calls::<R>(first, current)
                &&& match current {
                    Err(e) => rest.len() == 0 && r == Err::<PyObject, PyErr>(e),
                    Ok(locals) => local_future_into_py_with_locals_calls::<R, W, M, F>(
                        rest,
                        locals,
                        wrap,
                        task,
                        r,
                    ),
                }
            },
{
    let message = "Rust future panicked";
    let (converting, starting, converted) = choose|
        converting: Seq<Call>,
        starting: Seq<Call>,
        converted: PyResult<Conversion>,
    |
        {
            &&& calls == #[trigger] (converting + starting)
            &&& #[trigger] current_calls::<R, W>(converting, wrap, message, converted)
            &&& start_local_calls::<R, M, F>(starting, converted, task, r)
        };
    let (first, rest, current) = lemma_current_splits::<R, W>(converting, wrap, message, converted);
    assert(calls == first + (rest + starting));
    if current is Ok {
        assert(local_future_into_py_with_locals_calls::<R, W, M, F>(
            rest + starting,
            current->Ok_0,
            wrap,
            task,
            r,
        ));
    }
}

/// Where the runtime tells task locals, the current loop is the loop of the current locals, and
/// Python is not asked for either.
pub proof fn law_task_locals_come_first(
    told: TaskLocals,
    loop_calls: Seq<Call>,
    event_loop: PyResult<PyObject>,
    locals_calls: Seq<Call>,
    locals: PyResult<TaskLocals>,
)
    requires
        current_loop_calls(loop_calls, Some(told), event_loop),
        current_locals_calls(locals_calls, Some(told), locals),
    ensures
        loop_calls.len() == 0,
        event_loop == Ok::<PyObject, PyErr>(told.event_loop),
        locals_calls.len() == 0,
        locals == Ok::<TaskLocals, PyErr>(told),
{
}

/// Where the runtime tells none, both come from Python: the loop is the running one, and so is that
/// of the current locals.
pub proof fn law_python_comes_second(
    loop_calls: Seq<Call>,
    event_loop: PyResult<PyObject>,
    locals_calls: Seq<Call>,
    locals: PyResult<TaskLocals>,
)
    requires
        current_loop_calls(loop_calls, None, event_loop),
        current_locals_calls(locals_calls, None, locals),
    ensures
        get_running_loop_calls(loop_calls, event_loop),
        exists|first: Seq<Call>, rest: Seq<Call>, running: PyResult<PyObject>|
            {
                &&& locals_calls == #[trigger] (first + rest)
                &&& #[trigger] get_running_loop_calls(first, running)
                &&& running is Err ==> rest.len() == 0 && locals is Err && locals->Err_0
                    == running->Err_0
                &&& locals is Ok ==> running == Ok::<PyObject, PyErr>(locals->Ok_0.event_loop)
            },
{
    let (first, rest, running) = choose|
        first: Seq<Call>,
        rest: Seq<Call>,
        running: PyResult<TaskLocals>,
    |
        {
            &&& locals_calls == #[trigger] (first + rest)
            &&& #[trigger] with_running_loop_calls(first, running)
            &&& match running {
                Err(e) => rest.len() == 0 && locals == Err::<TaskLocals, PyErr>(e),
                Ok(l) => copy_context_calls(rest, l, locals),
            }
        };
    let event_loop = choose|event_loop: PyResult<PyObject>|
        {
            &&& #[trigger] get_running_loop_calls(first, event_loop)
            &&& match event_loop {
                Err(e) => running == Err::<TaskLocals, PyErr>(e),
                Ok(l) => running is Ok && running->Ok_0.event_loop == l && is_none(
                    running->Ok_0.context,
                ),
            }
        };
    assert(get_running_loop_calls(first, event_loop));
}

/// An awaitable that is made into a Rust future inside of a converted future goes with the task
/// locals of the conversion, whatever loop runs on the thread: where the runtime tells the locals that
/// the worker is to set, Python is not asked for any.
pub proof fn law_awaitables_see_the_locals_of_the_conversion<R, W, M, F, X, K>(
    calls: Seq<Call>,
    locals: TaskLocals,
    wrap: W,
    task: M,
    py_fut: PyObject,
    told: Option<TaskLocals>,
    into_calls: Seq<Call>,
    awaitable: PyObject,
    into_future_with_locals: K,
    r: PyResult<X>,
) where
    R: ContextExt,
    W: FnOnce(Turn, PyDoneCallback) -> PyObject,
    M: FnOnce(Turn, Worker, Supervisor) -> F,
    F: Future<Output = ()> + Send + 'static,
    K: FnOnce(Turn, &TaskLocals, PyObject) -> PyResult<X>,

    requires
        future_into_py_with_locals_calls::<R, W, M, F>(calls, locals, wrap, task, Ok(py_fut)),
        told == Some(calls.last()->Spawn_0.locals),
        forward_calls(into_calls, told, awaitable, into_future_with_locals, r),
    ensures
        told == Some(locals),
        into_calls == seq![Call::Forward(locals, awaitable)],
        forwarded(into_future_with_locals, locals, awaitable, r),
{
    law_task_spawned_iff_converted::<R, W, M, F>(calls, locals, wrap, task, Ok(py_fut));
}

/// [`law_awaitables_see_the_locals_of_the_conversion`] for a task that stays on the current thread.
pub proof fn law_local_awaitables_see_the_locals_of_the_conversion<R, W, M, F, X, K>(
    calls: Seq<Call>,
    locals: TaskLocals,
    wrap: W,
    task: M,
    py_fut: PyObject,
    told: Option<TaskLocals>,
    into_calls: Seq<Call>,
    awaitable: PyObject,
    into_future_with_locals: K,
    r: PyResult<X>,
) where
    R: ContextExt + SpawnLocalExt,
    W: FnOnce(Turn, PyDoneCallback) -> PyObject,
    M: FnOnce(Turn, Worker, Supervisor) -> F,
    F: Future<Output = ()> + 'static,
    K: FnOnce(Turn, &TaskLocals, PyObject) -> PyResult<X>,

    requires
        local_future_into_py_with_locals_calls::<R, W, M, F>(calls, locals, wrap, task, Ok(py_fut)),
        told == Some(calls.last()->Spawn_0.locals),
        forward_calls(into_calls, told, awaitable, into_future_with_locals, r),
    ensures
        told == Some(locals),
        into_calls == seq![Call::Forward(locals, awaitable)],
        forwarded(into_future_with_locals, locals, awaitable, r),
{
    law_local_task_spawned_iff_converted::<R, W, M, F>(calls, locals, wrap, task, Ok(py_fut));
}

/// `call` asks an event loop to close.
pub open spec fn closes(call: Call) -> bool {
    call is Object && call->Object_0 is CallMethod0 && call->Object_0->CallMethod0_1@ == "close"@
}

/// A stretch of calls without one that closes a loop.
pub open spec fn closes_nothing(calls: Seq<Call>) -> bool {
    forall|i: int| 0 <= i < calls.len() ==> !#[trigger] closes(calls[i])
}

/// A conversion closes no loop.
proof fn lemma_conversion_closes_nothing<W: FnOnce(Turn, PyDoneCallback) -> PyObject>(
    calls: Seq<Call>,
    event_loop: PyObject,
    wrap: W,
    panic_message: &'static str,
    r: PyResult<Conversion>,
)
    requires
        with_loop_calls(calls, event_loop, wrap, panic_message, r),
    ensures
        closes_nothing(calls),
{
    reveal_strlit("close");
    reveal_strlit("copy_context");
    reveal_strlit("create_future");
    assert("close"@.len() != "copy_context"@.len());
    assert("close"@.len() != "create_future"@.len());
}

/// Running an event loop until a future completes does not close the loop, so it can be run again.
pub proof fn law_run_until_complete_leaves_the_loop_open<R, W, M, F, K, T>(
    calls: Seq<Call>,
    event_loop: PyObject,
    wrap: W,
    task: M,
    take: K,
    r: PyResult<Option<T>>,
) where
    R: ContextExt,
    W: FnOnce(Turn, PyDoneCallback) -> PyObject,
    M: FnOnce(Turn, Worker, Supervisor) -> F,
    F: Future<Output = ()> + Send + 'static,
    K: FnOnce(Turn) -> Option<T>,

    requires
        run_until_complete_calls::<R, W, M, F, K, T>(calls, event_loop, wrap, task, take, r),
    ensures
        closes_nothing(calls),
{
    let message = "rust future panicked";
    let (first, rest, coro) = choose|first: Seq<Call>, rest: Seq<Call>, coro: PyResult<PyObject>|
        {
            &&& calls == #[trigger] (first + rest)
            &&& #[trigger] future_into_py_with_loop_calls::<R, W, M, F>(
                first,
                event_loop,
                wrap,
                task,
                coro,
            )
            &&& match coro {
                Err(e) => rest.len() == 0 && r == Err::<Option<T>, PyErr>(e),
                Ok(coro) => run_loop_calls(rest, event_loop, coro, take, r),
            }
        };
    let (a, b, converted) = choose|a: Seq<Call>, b: Seq<Call>, converted: PyResult<Conversion>|
        {
            &&& first == #[trigger] (a + b)
            &&& #[trigger] with_loop_calls(a, event_loop, wrap, message, converted)
            &&& start_calls::<R, M, F>(b, converted, task, coro)
        };
    lemma_conversion_closes_nothing(a, event_loop, wrap, message, converted);
    assert forall|i: int| 0 <= i < calls.len() implies !#[trigger] closes(calls[i]) by {
        if i < a.len() {
            assert(!closes(a[i]));
        }
    }
}

/// A value comes out of running a loop only after the loop has run until the Python future of the
/// Rust future was done, and that future's task was spawned before the loop ran.
pub proof fn law_value_comes_from_a_finished_loop<R, W, M, F, K, T>(
    calls: Seq<Call>,
    event_loop: PyObject,
    wrap: W,
    task: M,
    take: K,
    value: Option<T>,
) where
    R: ContextExt,
    W: FnOnce(Turn, PyDoneCallback) -> PyObject,
    M: FnOnce(Turn, Worker, Supervisor) -> F,
    F: Future<Output = ()> + Send + 'static,
    K: FnOnce(Turn) -> Option<T>,

    requires
        run_until_complete_calls::<R, W, M, F, K, T>(
            calls,
            event_loop,
            wrap,
            task,
            take,
            Ok(value),
        ),
    ensures
        calls.len() >= 3,
        calls[calls.len() - 3] is Spawn,
        ({
            let worker = calls[calls.len() - 3]->Spawn_0;
            &&& worker.locals.event_loop == event_loop
            &&& worker.delivery.event_loop == event_loop
            &&& asked(
                calls,
                calls.len() - 2,
                Request::CallMethod1(event_loop, "run_until_complete", worker.delivery.future),
            )
            &&& answer(calls, calls.len() - 2) is Ok
        }),
        calls.last() is Take,
        taken(take, value),
{
}

/// What is taken from a slot that was empty before a future came to its outcome is the value of that
/// future. If the future failed, there is none.
pub proof fn law_taken_value_is_that_of_the_future<T, E>(
    before: ResultSlot<T>,
    outcome: Result<T, E>,
    after: ResultSlot<T>,
    taken: Option<T>,
)
    requires
        before@ is None,
        after.kept(before, outcome),
        taken == after@,
    ensures
        taken == (match outcome {
            Ok(val) => Some(val),
            Err(_) => None,
        }),
{
}

/// A run that opened a loop asks for nothing but its shutdown once the future is done, whether or
/// not the future failed. If the run succeeds, the loop that it opened is closed at the end, and the
/// value is the one that the future left behind.
pub proof fn law_run_closes_its_loop<R, W, M, F, K, T>(
    calls: Seq<Call>,
    wrap: W,
    task: M,
    take: K,
    r: PyResult<Option<T>>,
    module: PyObject,
    event_loop: PyObject,
) where
    R: ContextExt,
    W: FnOnce(Turn, PyDoneCallback) -> PyObject,
    M: FnOnce(Turn, Worker, Supervisor) -> F,
    F: Future<Output = ()> + Send + 'static,
    K: FnOnce(Turn) -> Option<T>,

    requires
        run_calls::<R, W, M, F, K, T>(calls, wrap, task, take, r),
        answer(calls, 0) == Ok::<PyObject, PyErr>(module),
        answer(calls, 1) == Ok::<PyObject, PyErr>(event_loop),
    ensures
        asked(calls, 0, Request::Import("asyncio")),
        asked(calls, 1, Request::CallMethod0(module, "new_event_loop")),
        exists|k: int, result: PyResult<Option<T>>, closed: PyResult<()>|
            {
                &&& 2 <= k <= calls.len()
                &&& #[trigger] run_until_complete_calls::<R, W, M, F, K, T>(
                    calls.subrange(2, k),
                    event_loop,
                    wrap,
                    task,
                    take,
                    result,
                )
                &&& #[trigger] close_calls(calls.skip(k), event_loop, closed)
                &&& closed is Err ==> r is Err && r->Err_0 == closed->Err_0
                &&& closed is Ok ==> r == result
            },
        r is Ok ==> {
            &&& asked(calls, calls.len() - 1, Request::CallMethod0(event_loop, "close"))
            &&& answer(calls, calls.len() - 1) is Ok
            &&& taken(take, r->Ok_0)
        },
{
    let (first, rest, opened) = choose|
        first: Seq<Call>,
        rest: Seq<Call>,
        opened: PyResult<PyObject>,
    |
        {
            &&& calls == #[trigger] (first + rest)
            &&& #[trigger] call_module_calls(first, "asyncio", "new_event_loop", opened)
            &&& match opened {
                Err(e) => rest.len() == 0 && r == Err::<Option<T>, PyErr>(e),
                Ok(event_loop) => run_and_close_calls::<R, W, M, F, K, T>(
                    rest,
                    event_loop,
                    wrap,
                    task,
                    take,
                    r,
                ),
            }
        };
    assert(first[0] == calls[0]);
    assert(first[1] == calls[1]);
    assert(run_and_close_calls::<R, W, M, F, K, T>(rest, event_loop, wrap, task, take, r));
    let (ran, last, result, closed) = choose|
        ran: Seq<Call>,
        last: Seq<Call>,
        result: PyResult<Option<T>>,
        closed: PyResult<()>,
    |
        {
            &&& rest == #[trigger] (ran + last)
            &&& #[trigger] run_until_complete_calls::<R, W, M, F, K, T>(
                ran,
                event_loop,
                wrap,
                task,
                take,
                result,
            )
            &&& #[trigger] close_calls(last, event_loop, closed)
            &&& r == (match closed {
                Err(e) => Err(e),
                Ok(()) => result,
            })
        };
    let k: int = 2 + ran.len() as int;
    assert(calls.subrange(2, k) == ran);
    assert(calls.skip(k) == last);
    assert(last[last.len() - 1] == calls[calls.len() - 1]);
}

} // verus!
