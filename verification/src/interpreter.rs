//! Access to the Python interpreter that keeps a record of what is done with it.

use crate::cancel::PyDoneCallback;
use crate::delivery::{Supervisor, Worker};
use crate::locals::TaskLocals;
use crate::runtime::{Runtime, SpawnLocalExt};
use pyo3::types::{PyDict, PyModule};
use pyo3::{Py, PyAny, PyErr, PyObject, PyResult, Python};
use std::future::Future;
use vstd::prelude::*;

verus! {

/// What the interpreter can be asked to do.
pub enum Request {
    /// Import the module of that name.
    Import(&'static str),
    /// Look the attribute of that name up.
    GetAttr(PyObject, &'static str),
    /// Call the object without arguments.
    Call0(PyObject),
    /// Call the method of that name without arguments.
    CallMethod0(PyObject, &'static str),
    /// Call the method of that name with one argument.
    CallMethod1(PyObject, &'static str, PyObject),
    /// Have the event loop call `callback` in `context`, with a value or an exception as the
    /// argument, from whichever thread.
    CallSoonThreadsafe {
        event_loop: PyObject,
        context: PyObject,
        callback: PyObject,
        argument: PyResult<PyObject>,
    },
}

/// An entry of the record.
pub enum Call {
    /// A request that is answered with an object, and the answer.
    Object(Request, PyResult<PyObject>),
    /// The truth value of an object was asked for, and the answer.
    Truth(PyObject, PyResult<bool>),
    /// An error was shown to the user.
    Show(PyErr),
    /// A Python callable was made of a callback.
    Wrap(PyDoneCallback),
    /// The task for a worker and its supervisor was spawned on the Rust runtime.
    Spawn(Worker, Supervisor),
    /// The result of a Rust future was made into an answer for Python.
    Produce,
    /// The value that a Rust future left behind was taken.
    Take,
    /// An awaitable was handed on, to be made into a Rust future with the given task locals.
    Forward(TaskLocals, PyObject),
}

/// Shows that code that the caller handed in has its turn, and which entry of the record goes with
/// it.
///
/// Such code takes a `Turn`, and only an [`Interpreter`] gives one out, each time with the entry. So
/// no other module can run the code and leave it off the record.
pub struct Turn {
    call: Ghost<Call>,
}

impl Turn {
    /// The entry that goes with the turn.
    pub closed spec fn call(self) -> Call {
        self.call@
    }
}

/// `obj` is a handle to Python's `None`.
pub open spec fn is_none(obj: PyObject) -> bool {
    exists|py: Python<'_>| #[trigger] call_ensures(Python::None, (py,), obj)
}

/// Asking `py` to import `name` was answered with `answer`.
pub open spec fn import_answered(
    py: Python<'_>,
    name: &'static str,
    answer: PyResult<PyObject>,
) -> bool {
    exists|m: PyResult<&PyModule>|
        {
            &&& #[trigger] call_ensures(Python::import, (py, name), m)
            &&& match m {
                Err(e) => answer == Err::<PyObject, PyErr>(e),
                Ok(m) => answer is Ok && call_ensures(
                    <PyObject as From<&PyModule>>::from,
                    (m,),
                    answer->Ok_0,
                ),
            }
        }
}

/// Asking `event_loop` for `call_soon_threadsafe(callback, argument, context=context)` was answered
/// with `answer`.
pub open spec fn call_soon_threadsafe_answered(
    py: Python<'_>,
    event_loop: PyObject,
    context: PyObject,
    callback: PyObject,
    argument: PyResult<PyObject>,
    answer: PyResult<PyObject>,
) -> bool {
    exists|kwargs: &PyDict, set: PyResult<()>|
        {
            &&& #[trigger] call_ensures(PyDict::new, (py,), kwargs)
            &&& #[trigger] call_ensures(
                PyDict::set_item::<&'static str, &PyObject>,
                (kwargs, "context", &context),
                set,
            )
            &&& match set {
                Err(e) => answer == Err::<PyObject, PyErr>(e),
                Ok(()) => match argument {
                    Ok(value) => call_ensures(
                        Py::<PyAny>::call_method,
                        (&event_loop, py, "call_soon_threadsafe", (callback, value), Some(kwargs)),
                        answer,
                    ),
                    Err(error) => call_ensures(
                        Py::<PyAny>::call_method,
                        (&event_loop, py, "call_soon_threadsafe", (callback, error), Some(kwargs)),
                        answer,
                    ),
                },
            }
        }
}

impl Call {
    /// If the call is one to Python, it was made with `py`, and Python gave that answer.
    pub open spec fn was_made(self, py: Python<'_>) -> bool {
        match self {
            Call::Object(Request::Import(name), answer) => import_answered(py, name, answer),
            Call::Object(Request::GetAttr(obj, name), answer) => call_ensures(
                Py::<PyAny>::getattr::<&'static str>,
                (&obj, py, name),
                answer,
            ),
            Call::Object(Request::Call0(obj), answer) => call_ensures(
                Py::<PyAny>::call0,
                (&obj, py),
                answer,
            ),
            Call::Object(Request::CallMethod0(obj, name), answer) => call_ensures(
                Py::<PyAny>::call_method0,
                (&obj, py, name),
                answer,
            ),
            Call::Object(Request::CallMethod1(obj, name, argument), answer) => call_ensures(
                Py::<PyAny>::call_method1,
                (&obj, py, name, (argument,)),
                answer,
            ),
            Call::Object(
                Request::CallSoonThreadsafe { event_loop, context, callback, argument },
                answer,
            ) => call_soon_threadsafe_answered(
                py,
                event_loop,
                context,
                callback,
                argument,
                answer,
            ),
            Call::Truth(obj, answer) => call_ensures(Py::<PyAny>::is_true, (&obj, py), answer),
            Call::Show(_) | Call::Wrap(_) | Call::Spawn(_, _) | Call::Produce | Call::Take
            | Call::Forward(_, _) => true,
        }
    }
}

/// `show` takes every error.
pub open spec fn can_show<S: Fn(Turn, PyErr)>(show: S) -> bool {
    forall|turn: Turn, e: PyErr| #[trigger] call_requires(show, (turn, e))
}

/// All that was done is that an error in `answer` was shown.
pub open spec fn shown<T, S: Fn(Turn, PyErr)>(
    calls: Seq<Call>,
    answer: PyResult<T>,
    show: S,
) -> bool {
    match answer {
        Err(e) => {
            &&& calls == seq![Call::Show(e)]
            &&& exists|turn: Turn|
                turn.call() == Call::Show(e) && #[trigger] call_ensures(show, (turn, e), ())
        },
        Ok(_) => calls.len() == 0,
    }
}

/// In the turn for it, `wrap` made `r` of `callback`.
pub open spec fn wrapped<W: FnOnce(Turn, PyDoneCallback) -> PyObject>(
    wrap: W,
    callback: PyDoneCallback,
    r: PyObject,
) -> bool {
    exists|turn: Turn|
        turn.call() == Call::Wrap(callback) && #[trigger] call_ensures(wrap, (turn, callback), r)
}

/// In the turn for it, `result` gave `r`.
pub open spec fn produced<C: FnOnce(Turn) -> PyResult<PyObject>>(
    result: C,
    r: PyResult<PyObject>,
) -> bool {
    exists|turn: Turn| turn.call() is Produce && #[trigger] call_ensures(result, (turn,), r)
}

/// In the turn for it, `take` gave `r`.
pub open spec fn taken<K: FnOnce(Turn) -> Option<T>, T>(take: K, r: Option<T>) -> bool {
    exists|turn: Turn| turn.call() is Take && #[trigger] call_ensures(take, (turn,), r)
}

/// In the turn for it, `into_future_with_locals` gave `r` for `awaitable`.
pub open spec fn forwarded<X, K: FnOnce(Turn, &TaskLocals, PyObject) -> PyResult<X>>(
    into_future_with_locals: K,
    locals: TaskLocals,
    awaitable: PyObject,
    r: PyResult<X>,
) -> bool {
    exists|turn: Turn|
        turn.call() == Call::Forward(locals, awaitable) && #[trigger] call_ensures(
            into_future_with_locals,
            (turn, &locals, awaitable),
            r,
        )
}

/// The task that `task` made for `worker` and `supervisor`, in the turn for it, was spawned on the
/// runtime `R`.
pub open spec fn spawned<R, M, F>(task: M, worker: Worker, supervisor: Supervisor) -> bool where
    R: Runtime,
    M: FnOnce(Turn, Worker, Supervisor) -> F,
    F: Future<Output = ()> + Send + 'static,
 {
    exists|turn: Turn, fut: F, handle: R::JoinHandle|
        {
            &&& turn.call() == Call::Spawn(worker, supervisor)
            &&& #[trigger] call_ensures(task, (turn, worker, supervisor), fut)
            &&& #[trigger] call_ensures(R::spawn::<F>, (fut,), handle)
        }
}

/// The task that `task` made for `worker` and `supervisor`, in the turn for it, was spawned on the
/// current thread of the runtime `R`.
pub open spec fn spawned_local<R, M, F>(task: M, worker: Worker, supervisor: Supervisor) -> bool where
    R: SpawnLocalExt,
    M: FnOnce(Turn, Worker, Supervisor) -> F,
    F: Future<Output = ()> + 'static,
 {
    exists|turn: Turn, fut: F, handle: R::JoinHandle|
        {
            &&& turn.call() == Call::Spawn(worker, supervisor)
            &&& #[trigger] call_ensures(task, (turn, worker, supervisor), fut)
            &&& #[trigger] call_ensures(R::spawn_local::<F>, (fut,), handle)
        }
}

/// The interpreter, while its lock is held.
///
/// Its view is the record of the calls made through it, oldest first. The token stays inside, so
/// code of other modules makes no Python call that the record lacks. Code that the caller hands in
/// has its [`Turn`] on the record as well. What such code does of its own, with Python or otherwise,
/// is not on it.
///
/// In this module itself, that a method makes the one call that it records, and makes it once, is
/// plain from reading the method. It is not proved: a call leaves no trace in its arguments that
/// would tell one call from two.
pub struct Interpreter<'py> {
    py: Python<'py>,
    calls: Ghost<Seq<Call>>,
}

impl<'py> View for Interpreter<'py> {
    type V = Seq<Call>;

    closed spec fn view(&self) -> Seq<Call> {
        self.calls@
    }
}

impl<'py> Interpreter<'py> {
    /// The token that the calls are made with.
    pub closed spec fn token(self) -> Python<'py> {
        self.py
    }

    /// `self` is `before` after some more calls, each of which was made.
    pub open spec fn continues(self, before: Self) -> bool {
        &&& self.token() == before.token()
        &&& before@.is_prefix_of(self@)
        &&& forall|i: int|
            before@.len() <= i < self@.len() ==> (#[trigger] self@[i]).was_made(self.token())
    }

    /// The calls that `self` has on top of those of `before`.
    pub open spec fn since(self, before: Self) -> Seq<Call> {
        self@.skip(before@.len() as int)
    }

    /// `self` is `before` after one more call, which was made.
    pub open spec fn made(self, before: Self, call: Call) -> bool {
        &&& self.continues(before)
        &&& self.since(before) == seq![call]
    }

    /// Nothing was called between a state and itself.
    pub proof fn lemma_idle(self)
        ensures
            self.continues(self),
            self.since(self) == Seq::<Call>::empty(),
    {
        assert(self.since(self) =~= Seq::<Call>::empty());
    }

    /// The calls of two stretches, one after the other, are those of the whole.
    pub broadcast proof fn lemma_then(a: Self, b: Self, c: Self)
        requires
            #[trigger] b.continues(a),
            #[trigger] c.continues(b),
        ensures
            c.continues(a),
            c.since(a) == b.since(a) + c.since(b),
    {
        assert forall|i: int| a@.len() <= i < c@.len() implies (#[trigger] c@[i]).was_made(
            c.token(),
        ) by {
            if i < b@.len() {
                assert(b@[i].was_made(b.token()));
                assert(b@[i] == c@[i]);
            }
        }
        assert(c.since(a) =~= b.since(a) + c.since(b));
    }

    /// Adds a call that was made to the record.
    fn record(&mut self, call: Ghost<Call>)
        requires
            call@.was_made(old(self).token()),
        ensures
            final(self).made(*old(self), call@),
    {
        self.calls = Ghost(self.calls@.push(call@));
        assert(self.since(*old(self)) =~= seq![call@]);
    }

    /// Starts with an empty record.
    pub fn new(py: Python<'py>) -> (r: Self)
        ensures
            r@ == Seq::<Call>::empty(),
            r.token() == py,
    {
        Interpreter { py, calls: Ghost(Seq::empty()) }
    }

    /// Python's `None`.
    pub fn none(&self) -> (r: PyObject)
        ensures
            is_none(r),
    {
        self.py.None()
    }

    /// Imports a module.
    pub fn import(&mut self, name: &'static str) -> (r: PyResult<PyObject>)
        ensures
            final(self).made(*old(self), Call::Object(Request::Import(name), r)),
    {
        let r = match self.py.import(name) {
            Err(e) => Err(e),
            Ok(module) => Ok(PyObject::from(module)),
        };
        self.record(Ghost(Call::Object(Request::Import(name), r)));
        r
    }

    /// Looks an attribute up.
    pub fn getattr(&mut self, obj: &PyObject, name: &'static str) -> (r: PyResult<PyObject>)
        ensures
            final(self).made(*old(self), Call::Object(Request::GetAttr(*obj, name), r)),
    {
        let r = obj.getattr(self.py, name);
        self.record(Ghost(Call::Object(Request::GetAttr(*obj, name), r)));
        r
    }

    /// Calls an object without arguments.
    pub fn call0(&mut self, obj: &PyObject) -> (r: PyResult<PyObject>)
        ensures
            final(self).made(*old(self), Call::Object(Request::Call0(*obj), r)),
    {
        let r = obj.call0(self.py);
        self.record(Ghost(Call::Object(Request::Call0(*obj), r)));
        r
    }

    /// Takes the truth value of an object.
    pub fn is_true(&mut self, obj: &PyObject) -> (r: PyResult<bool>)
        ensures
            final(self).made(*old(self), Call::Truth(*obj, r)),
    {
        let r = obj.is_true(self.py);
        self.record(Ghost(Call::Truth(*obj, r)));
        r
    }

    /// Calls a method without arguments.
    pub fn call_method0(&mut self, obj: &PyObject, name: &'static str) -> (r: PyResult<PyObject>)
        ensures
            final(self).made(*old(self), Call::Object(Request::CallMethod0(*obj, name), r)),
    {
        let r = obj.call_method0(self.py, name);
        self.record(Ghost(Call::Object(Request::CallMethod0(*obj, name), r)));
        r
    }

    /// Calls a method with one argument.
    pub fn call_method1(
        &mut self,
        obj: &PyObject,
        name: &'static str,
        argument: PyObject,
    ) -> (r: PyResult<PyObject>)
        ensures
            final(self).made(
                *old(self),
                Call::Object(Request::CallMethod1(*obj, name, argument), r),
            ),
    {
        let r = obj.call_method1(self.py, name, (argument,));
        self.record(Ghost(Call::Object(Request::CallMethod1(*obj, name, argument), r)));
        r
    }

    /// Has the event loop call `callback` with `argument`, in `context`.
    pub fn call_soon_threadsafe(
        &mut self,
        event_loop: &PyObject,
        context: &PyObject,
        callback: PyObject,
        argument: PyResult<PyObject>,
    ) -> (r: PyResult<PyObject>)
        ensures
            final(self).made(
                *old(self),
                Call::Object(
                    (Request::CallSoonThreadsafe {
                        event_loop: *event_loop,
                        context: *context,
                        callback,
                        argument,
                    }),
                    r,
                ),
            ),
    {
        let kwargs = PyDict::new(self.py);
        let r = match kwargs.set_item("context", context) {
            Err(e) => Err(e),
            Ok(()) => match argument {
                Ok(value) => event_loop.call_method(
                    self.py,
                    "call_soon_threadsafe",
                    (callback, value),
                    Some(kwargs),
                ),
                Err(error) => event_loop.call_method(
                    self.py,
                    "call_soon_threadsafe",
                    (callback, error),
                    Some(kwargs),
                ),
            },
        };
        self.record(
            Ghost(
                Call::Object(
                    Request::CallSoonThreadsafe {
                        event_loop: *event_loop,
                        context: *context,
                        callback,
                        argument,
                    },
                    r,
                ),
            ),
        );
        r
    }

    /// Adds the entry of a turn to the record.
    fn turn(&mut self, call: Ghost<Call>) -> (r: Turn)
        requires
            call@.was_made(old(self).token()),
        ensures
            final(self).made(*old(self), call@),
            r.call() == call@,
    {
        self.record(call);
        Turn { call }
    }

    /// Shows an error to the user.
    pub fn show<S: Fn(Turn, PyErr)>(&mut self, e: PyErr, show: &S)
        requires
            can_show(*show),
        ensures
            final(self).continues(*old(self)),
            shown(final(self).since(*old(self)), Err::<(), PyErr>(e), *show),
    {
        let turn = self.turn(Ghost(Call::Show(e)));
        show(turn, e);
    }

    /// Makes a Python callable of a callback.
    pub fn wrap<W: FnOnce(Turn, PyDoneCallback) -> PyObject>(
        &mut self,
        callback: PyDoneCallback,
        wrap: W,
    ) -> (r: PyObject)
        requires
            forall|turn: Turn| #[trigger] call_requires(wrap, (turn, callback)),
        ensures
            final(self).made(*old(self), Call::Wrap(callback)),
            wrapped(wrap, callback, r),
    {
        let turn = self.turn(Ghost(Call::Wrap(callback)));
        wrap(turn, callback)
    }

    /// Spawns the task that `task` makes for a worker and its supervisor.
    pub fn spawn<R, M, F>(&mut self, worker: Worker, supervisor: Supervisor, task: M) where
        R: Runtime,
        M: FnOnce(Turn, Worker, Supervisor) -> F,
        F: Future<Output = ()> + Send + 'static,

        requires
            forall|turn: Turn| #[trigger] call_requires(task, (turn, worker, supervisor)),
        ensures
            final(self).made(*old(self), Call::Spawn(worker, supervisor)),
            spawned::<R, M, F>(task, worker, supervisor),
    {
        let turn = self.turn(Ghost(Call::Spawn(worker, supervisor)));
        let fut = task(turn, worker, supervisor);
        let _ = R::spawn(fut);
    }

    /// Spawns the task that `task` makes for a worker and its supervisor on the current thread.
    pub fn spawn_local<R, M, F>(&mut self, worker: Worker, supervisor: Supervisor, task: M) where
        R: SpawnLocalExt,
        M: FnOnce(Turn, Worker, Supervisor) -> F,
        F: Future<Output = ()> + 'static,

        requires
            forall|turn: Turn| #[trigger] call_requires(task, (turn, worker, supervisor)),
        ensures
            final(self).made(*old(self), Call::Spawn(worker, supervisor)),
            spawned_local::<R, M, F>(task, worker, supervisor),
    {
        let turn = self.turn(Ghost(Call::Spawn(worker, supervisor)));
        let fut = task(turn, worker, supervisor);
        let _ = R::spawn_local(fut);
    }

    /// Makes the result of a Rust future into an answer for Python.
    pub fn produce<C: FnOnce(Turn) -> PyResult<PyObject>>(&mut self, result: C) -> (r: PyResult<
        PyObject,
    >)
        requires
            forall|turn: Turn| #[trigger] call_requires(result, (turn,)),
        ensures
            final(self).made(*old(self), Call::Produce),
            produced(result, r),
    {
        let turn = self.turn(Ghost(Call::Produce));
        result(turn)
    }

    /// Takes the value that a Rust future left behind, if it left one.
    pub fn take<T, K: FnOnce(Turn) -> Option<T>>(&mut self, take: K) -> (r: Option<T>)
        requires
            forall|turn: Turn| #[trigger] call_requires(take, (turn,)),
        ensures
            final(self).made(*old(self), Call::Take),
            taken(take, r),
    {
        let turn = self.turn(Ghost(Call::Take));
        take(turn)
    }

    /// Hands an awaitable on, to be made into a Rust future with the given task locals.
    pub fn forward<X, K: FnOnce(Turn, &TaskLocals, PyObject) -> PyResult<X>>(
        &mut self,
        locals: &TaskLocals,
        awaitable: PyObject,
        into_future_with_locals: K,
    ) -> (r: PyResult<X>)
        requires
            forall|turn: Turn| #[trigger]
                call_requires(into_future_with_locals, (turn, locals, awaitable)),
        ensures
            final(self).made(*old(self), Call::Forward(*locals, awaitable)),
            forwarded(into_future_with_locals, *locals, awaitable, r),
    {
        let turn = self.turn(Ghost(Call::Forward(*locals, awaitable)));
        into_future_with_locals(turn, locals, awaitable)
    }
}

} // verus!
