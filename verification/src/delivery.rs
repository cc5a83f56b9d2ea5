//! Brings the outcome of a Rust future to the Python future that stands for it.

use crate::cancel::Cancellable;
use crate::event_loop::{
    cancelled_or_show, cancelled_or_show_calls, set_result, set_result_calls,
};
use crate::interpreter::{can_show, produced, shown, Call, Interpreter, Turn};
use crate::locals::TaskLocals;
use crate::runtime::{JoinError, Runtime, SpawnLocalExt};
use pyo3::{PyErr, PyObject, PyResult};
use std::future::Future;
use vstd::prelude::*;

verus! {

/// The way back to the Python future.
pub struct Delivery {
    /// The event loop that completes the Python future.
    pub event_loop: PyObject,
    /// The Python future.
    pub future: PyObject,
}

impl Delivery {
    /// The event loop was asked to complete the future with `result`. An error is shown.
    pub open spec fn complete_calls<S: Fn(Turn, PyErr)>(
        self,
        calls: Seq<Call>,
        result: PyResult<PyObject>,
        show: S,
    ) -> bool {
        exists|first: Seq<Call>, rest: Seq<Call>, set: PyResult<()>|
            {
                &&& calls == #[trigger] (first + rest)
                &&& #[trigger] set_result_calls(first, self.event_loop, self.future, result, set)
                &&& shown(rest, set, show)
            }
    }

    /// Python was asked whether the future was cancelled. If it was, that is all, and `delivered` is
    /// `None`. Otherwise `result` gave what is `delivered`, and the event loop was asked to complete
    /// the future with it. Errors are shown.
    pub open spec fn deliver_calls<C: FnOnce(Turn) -> PyResult<PyObject>, S: Fn(Turn, PyErr)>(
        self,
        calls: Seq<Call>,
        result: C,
        delivered: Option<PyResult<PyObject>>,
        show: S,
    ) -> bool {
        exists|first: Seq<Call>, rest: Seq<Call>, cancelled: bool|
            {
                &&& calls == #[trigger] (first + rest)
                &&& #[trigger] cancelled_or_show_calls(first, self.future, show, cancelled)
                &&& match delivered {
                    None => cancelled && rest.len() == 0,
                    Some(value) => {
                        &&& !cancelled
                        &&& rest.len() > 0
                        &&& rest[0] is Produce
                        &&& produced(result, value)
                        &&& self.complete_calls(rest.skip(1), value, show)
                    },
                }
            }
    }

    /// Asks the event loop to complete the future.
    fn complete<S: Fn(Turn, PyErr)>(
        &self,
        interpreter: &mut Interpreter<'_>,
        result: PyResult<PyObject>,
        show: &S,
    )
        requires
            can_show(*show),
        ensures
            final(interpreter).continues(*old(interpreter)),
            self.complete_calls(final(interpreter).since(*old(interpreter)), result, *show),
    {
        broadcast use Interpreter::lemma_then;

        let ghost start = *interpreter;
        let set = set_result(interpreter, &self.event_loop, &self.future, result);
        let ghost asked = *interpreter;
        proof {
            asked.lemma_idle();
        }
        if let Err(e) = set {
            interpreter.show(e, show);
        }
        assert(interpreter.since(start) == asked.since(start) + interpreter.since(asked));
    }

    /// Completes the Python future with what `result` gives, unless Python has cancelled it. Errors
    /// are shown.
    pub fn deliver<C: FnOnce(Turn) -> PyResult<PyObject>, S: Fn(Turn, PyErr)>(
        &self,
        interpreter: &mut Interpreter<'_>,
        result: C,
        show: &S,
    )
        requires
            forall|turn: Turn| #[trigger] call_requires(result, (turn,)),
            can_show(*show),
        ensures
            final(interpreter).continues(*old(interpreter)),
            exists|delivered: Option<PyResult<PyObject>>| #[trigger]
                self.deliver_calls(
                    final(interpreter).since(*old(interpreter)),
                    result,
                    delivered,
                    *show,
                ),
    {
        broadcast use Interpreter::lemma_then;

        let ghost start = *interpreter;
        if cancelled_or_show(interpreter, &self.future, show) {
            proof {
                let calls = interpreter.since(start);
                assert(calls == calls + Seq::<Call>::empty());
                assert(self.deliver_calls(calls, result, None, *show));
            }
            return ;
        }
        let ghost asked = *interpreter;
        let value = interpreter.produce(result);
        let ghost ready = *interpreter;
        let ghost delivered = value;
        self.complete(interpreter, value, show);
        proof {
            let rest = interpreter.since(asked);
            assert(rest.skip(1) == interpreter.since(ready));
            let calls = interpreter.since(start);
            assert(calls == asked.since(start) + rest);
            assert(self.deliver_calls(calls, result, Some(delivered), *show));
        }
    }
}

/// What the task that runs the Rust future works with.
pub struct Worker {
    /// The task-local data that the Rust future is to see.
    pub locals: TaskLocals,
    /// Signals the cancellation of the Python future.
    pub cancel: Cancellable,
    /// Takes the result of the Rust future.
    pub delivery: Delivery,
}

impl Worker {
    /// The task that `work` made for the worker was spawned on the runtime `R`.
    pub open spec fn started<R, N, F>(self, work: N, handle: R::JoinHandle) -> bool where
        R: Runtime,
        N: FnOnce(Worker) -> F,
        F: Future<Output = ()> + Send + 'static,
     {
        exists|fut: F| #[trigger]
            call_ensures(work, (self,), fut) && call_ensures(R::spawn::<F>, (fut,), handle)
    }

    /// The task that `work` made for the worker was spawned on the current thread of the runtime
    /// `R`.
    pub open spec fn started_local<R, N, F>(self, work: N, handle: R::JoinHandle) -> bool where
        R: SpawnLocalExt,
        N: FnOnce(Worker) -> F,
        F: Future<Output = ()> + 'static,
     {
        exists|fut: F| #[trigger]
            call_ensures(work, (self,), fut) && call_ensures(R::spawn_local::<F>, (fut,), handle)
    }

    /// Spawns the worker's task, which `work` makes. Its supervisor waits for it.
    pub fn spawn<R, N, F>(self, work: N) -> (handle: R::JoinHandle) where
        R: Runtime,
        N: FnOnce(Worker) -> F,
        F: Future<Output = ()> + Send + 'static,

        requires
            call_requires(work, (self,)),
        ensures
            self.started::<R, N, F>(work, handle),
    {
        let fut = work(self);
        R::spawn(fut)
    }

    /// Spawns the worker's task, which `work` makes, on the current thread. Its supervisor waits for
    /// it.
    pub fn spawn_local<R, N, F>(self, work: N) -> (handle: R::JoinHandle) where
        R: SpawnLocalExt,
        N: FnOnce(Worker) -> F,
        F: Future<Output = ()> + 'static,

        requires
            call_requires(work, (self,)),
        ensures
            self.started_local::<R, N, F>(work, handle),
    {
        let fut = work(self);
        R::spawn_local(fut)
    }
}

/// What the task that watches over the worker's task works with.
pub struct Supervisor {
    /// Takes the exception that reports a panic.
    pub delivery: Delivery,
    /// What to tell Python when the worker's task panicked.
    pub panic_message: &'static str,
}

impl Supervisor {
    /// `r` is the message of the exception that is due to Python when the worker's task has come to
    /// `end`. Only a panic is reported: a task that ended well has delivered its result itself.
    pub open spec fn owes<J: JoinError>(self, end: Result<(), J>, r: Option<&'static str>) -> bool {
        match end {
            Ok(()) => r is None,
            Err(e) => exists|panicked: bool|
                {
                    &&& #[trigger] call_ensures(J::is_panic, (&e,), panicked)
                    &&& r == (if panicked {
                        Some(self.panic_message)
                    } else {
                        None
                    })
                },
        }
    }

    /// Takes the end of the worker's task. Gives the message of the exception that is due to
    /// Python, if one is.
    pub fn joined<J: JoinError>(&self, end: Result<(), J>) -> (r: Option<&'static str>)
        ensures
            self.owes(end, r),
    {
        match end {
            Ok(()) => None,
            Err(e) => if e.is_panic() {
                Some(self.panic_message)
            } else {
                None
            },
        }
    }
}

} // verus!
