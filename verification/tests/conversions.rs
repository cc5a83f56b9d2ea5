//! Conversions of Rust futures into Python awaitables, and runs of them on an event loop.

use asyncio_bridge::cancel::{Poll, PyDoneCallback};
use asyncio_bridge::convert::{
    cancellable_future_into_py, cancellable_future_into_py_with_loop, future_into_py,
    future_into_py_with_locals, future_into_py_with_loop, local_cancellable_future_into_py,
    local_cancellable_future_into_py_with_loop, local_future_into_py,
    local_future_into_py_with_locals, local_future_into_py_with_loop,
};
use asyncio_bridge::delivery::{Delivery, Supervisor, Worker};
use asyncio_bridge::interpreter::{Interpreter, Turn};
use asyncio_bridge::locals::{into_future, TaskLocals};
use asyncio_bridge::run::{run, run_until_complete, ResultSlot};
use asyncio_bridge::runtime::{ContextExt, JoinError, Runtime, SpawnLocalExt};
use futures::task::noop_waker;
use pyo3::exceptions::{PyAttributeError, PyKeyError, PyRuntimeError, PyValueError};
use pyo3::types::{PyCFunction, PyDict, PyTuple};
use pyo3::{IntoPy, PyErr, PyObject, PyResult, Python};
use std::cell::RefCell;
use std::future::{poll_fn, ready, Future, Ready};
use std::rc::Rc;
use std::sync::{Arc, Mutex};
use std::task::Context;

fn python<T>(f: impl FnOnce(Python) -> T) -> T {
    pyo3::prepare_freethreaded_python();
    Python::with_gil(f)
}

fn same(py: Python, a: &PyObject, b: &PyObject) -> bool {
    let operator = py.import("operator").unwrap();
    operator.call_method1("is_", (a, b)).unwrap().is_true().unwrap()
}

fn holds(py: Python, names: &PyDict, condition: &str) -> bool {
    py.eval(condition, Some(names), None).unwrap().is_true().unwrap()
}

fn bind<'py>(py: Python<'py>, code: &str) -> &'py PyDict {
    let names = PyDict::new(py);
    py.run(code, Some(names), None).unwrap();
    names
}

fn name(names: &PyDict, name: &str) -> PyObject {
    PyObject::from(names.get_item(name).unwrap())
}

fn new_event_loop(py: Python) -> PyObject {
    PyObject::from(py.import("asyncio").unwrap().call_method0("new_event_loop").unwrap())
}

struct Ended {
    panicked: bool,
}

impl JoinError for Ended {
    fn is_panic(&self) -> bool {
        self.panicked
    }
}

/// A runtime that polls a task once, as soon as it is spawned. Its tasks have no task locals.
struct Eager;

/// The same runtime, with the task locals that Python's `builtins` hold.
struct Tasked;

fn poll_once<F: Future<Output = ()>>(fut: F) -> Ready<Result<(), Ended>> {
    let waker = noop_waker();
    let mut fut = Box::pin(fut);
    match fut.as_mut().poll(&mut Context::from_waker(&waker)) {
        std::task::Poll::Ready(()) => ready(Ok(())),
        std::task::Poll::Pending => ready(Err(Ended { panicked: false })),
    }
}

impl Runtime for Eager {
    type JoinError = Ended;
    type JoinHandle = Ready<Result<(), Ended>>;

    fn spawn<F>(fut: F) -> Self::JoinHandle
    where
        F: Future<Output = ()> + Send + 'static,
    {
        poll_once(fut)
    }
}

impl SpawnLocalExt for Eager {
    fn spawn_local<F>(fut: F) -> Self::JoinHandle
    where
        F: Future<Output = ()> + 'static,
    {
        poll_once(fut)
    }
}

impl ContextExt for Eager {
    fn get_task_locals() -> Option<TaskLocals> {
        None
    }
}

impl Runtime for Tasked {
    type JoinError = Ended;
    type JoinHandle = Ready<Result<(), Ended>>;

    fn spawn<F>(fut: F) -> Self::JoinHandle
    where
        F: Future<Output = ()> + Send + 'static,
    {
        poll_once(fut)
    }
}

impl SpawnLocalExt for Tasked {
    fn spawn_local<F>(fut: F) -> Self::JoinHandle
    where
        F: Future<Output = ()> + 'static,
    {
        poll_once(fut)
    }
}

impl ContextExt for Tasked {
    fn get_task_locals() -> Option<TaskLocals> {
        Python::with_gil(|py| {
            let builtins = py.import("builtins").unwrap();
            Some(TaskLocals {
                event_loop: PyObject::from(builtins.getattr("task_loop").unwrap()),
                context: PyObject::from(builtins.getattr("task_context").unwrap()),
            })
        })
    }
}

fn set_task_locals(py: Python, event_loop: &PyObject, context: &PyObject) {
    let builtins = py.import("builtins").unwrap();
    builtins.setattr("task_loop", event_loop).unwrap();
    builtins.setattr("task_context", context).unwrap();
}

/// Makes a Python callable of a callback.
fn wrap(py: Python, callback: PyDoneCallback) -> PyObject {
    let callback = Mutex::new(callback);
    let call = move |args: &PyTuple, _: Option<&PyDict>| -> PyResult<()> {
        let py = args.py();
        let fut = PyObject::from(args.get_item(0)?);
        let show = |_: Turn, e: PyErr| panic!("{}", e);
        let called = callback.lock().unwrap().__call__(&mut Interpreter::new(py), &fut, &show)?;
        assert_eq!(called, Some(()));
        Ok(())
    };
    PyObject::from(PyCFunction::new_closure(call, py).unwrap())
}

/// Where a task leaves what it was handed, for a test to look at.
#[derive(Clone)]
struct Handed(Arc<Mutex<Option<(Worker, Supervisor)>>>);

impl Handed {
    fn new() -> Handed {
        Handed(Arc::new(Mutex::new(None)))
    }

    /// A task that does nothing but leave what it was handed.
    fn task(&self) -> impl FnOnce(Turn, Worker, Supervisor) -> Ready<()> {
        let handed = self.clone();
        move |_, worker, supervisor| {
            *handed.0.lock().unwrap() = Some((worker, supervisor));
            ready(())
        }
    }

    fn take(&self) -> (Worker, Supervisor) {
        self.0.lock().unwrap().take().unwrap()
    }

    fn is_empty(&self) -> bool {
        self.0.lock().unwrap().is_none()
    }
}

fn no_show(_: Turn, e: PyErr) {
    panic!("{}", e)
}

/// Checks that both tasks complete `py_fut` on `event_loop`.
fn assert_handed(
    py: Python,
    worker: &Worker,
    supervisor: &Supervisor,
    py_fut: &PyObject,
    event_loop: &PyObject,
    panic_message: &str,
) {
    assert!(same(py, &worker.delivery.future, py_fut));
    assert!(same(py, &supervisor.delivery.future, py_fut));
    assert!(same(py, &worker.delivery.event_loop, event_loop));
    assert!(same(py, &supervisor.delivery.event_loop, event_loop));
    assert!(same(py, &worker.locals.event_loop, event_loop));
    assert!(worker.cancel.poll_cancel_rx);
    assert_eq!(supervisor.panic_message, panic_message);
}

fn has_context(py: Python, worker: &Worker) -> bool {
    worker.locals.context.as_ref(py).get_type().name().unwrap() == "Context"
}

#[test]
fn law_conversion_keeps_locals() {
    python(|py| {
        let event_loop = new_event_loop(py);
        let context: PyObject = "a context".into_py(py);
        let locals = TaskLocals { event_loop: event_loop.clone(), context: context.clone() };
        let handed = Handed::new();
        let py_fut = future_into_py_with_locals::<Eager, _, _, _>(
            &mut Interpreter::new(py),
            locals,
            |_: Turn, callback| wrap(py, callback),
            handed.task(),
        )
        .unwrap();
        let (worker, supervisor) = handed.take();
        assert_handed(py, &worker, &supervisor, &py_fut, &event_loop, "rust future panicked");
        assert!(same(py, &worker.locals.context, &context));
        assert!(!py_fut.call_method0(py, "done").unwrap().is_true(py).unwrap());
        let of = py_fut.call_method0(py, "get_loop").unwrap();
        assert!(same(py, &of, &event_loop));
    });
}

#[test]
fn local_conversion_runs_its_task() {
    python(|py| {
        let event_loop = new_event_loop(py);
        let locals = TaskLocals { event_loop: event_loop.clone(), context: py.None() };
        let runs = Rc::new(RefCell::new(0));
        let counted = runs.clone();
        // the task need not be `Send`
        let task = move |_: Turn, worker: Worker, _: Supervisor| {
            poll_fn(move |_| {
                *counted.borrow_mut() += 1;
                Python::with_gil(|py| {
                    worker.delivery.deliver(&mut Interpreter::new(py), |_| Ok(py.None()), &no_show)
                });
                std::task::Poll::Ready(())
            })
        };
        let py_fut = local_future_into_py_with_locals::<Eager, _, _, _>(
            &mut Interpreter::new(py),
            locals,
            |_: Turn, callback| wrap(py, callback),
            task,
        )
        .unwrap();
        assert_eq!(*runs.borrow(), 1);
        let value = event_loop.call_method1(py, "run_until_complete", (py_fut,)).unwrap();
        assert!(value.is_none(py));
    });
}

#[test]
fn local_conversion_keeps_locals() {
    python(|py| {
        let event_loop = new_event_loop(py);
        let locals = TaskLocals { event_loop: event_loop.clone(), context: py.None() };
        let handed = Handed::new();
        let py_fut = local_future_into_py_with_locals::<Eager, _, _, _>(
            &mut Interpreter::new(py),
            locals,
            |_: Turn, callback| wrap(py, callback),
            handed.task(),
        )
        .unwrap();
        let (worker, supervisor) = handed.take();
        assert_handed(py, &worker, &supervisor, &py_fut, &event_loop, "Rust future panicked");
    });
}

#[test]
fn law_with_loop_is_with_copied_context() {
    python(|py| {
        let event_loop = new_event_loop(py);
        let handed = Handed::new();
        let py_fut = future_into_py_with_loop::<Eager, _, _, _>(
            &mut Interpreter::new(py),
            event_loop.clone(),
            |_: Turn, callback| wrap(py, callback),
            handed.task(),
        )
        .unwrap();
        let (worker, supervisor) = handed.take();
        assert_handed(py, &worker, &supervisor, &py_fut, &event_loop, "rust future panicked");
        assert!(has_context(py, &worker));

        let py_fut = cancellable_future_into_py_with_loop::<Eager, _, _, _>(
            &mut Interpreter::new(py),
            event_loop.clone(),
            |_: Turn, callback| wrap(py, callback),
            handed.task(),
        )
        .unwrap();
        let (worker, supervisor) = handed.take();
        assert_handed(py, &worker, &supervisor, &py_fut, &event_loop, "rust future panicked");
        assert!(has_context(py, &worker));
    });
}

#[test]
fn local_with_loop_is_with_copied_context() {
    python(|py| {
        let event_loop = new_event_loop(py);
        let handed = Handed::new();
        let py_fut = local_future_into_py_with_loop::<Eager, _, _, _>(
            &mut Interpreter::new(py),
            event_loop.clone(),
            |_: Turn, callback| wrap(py, callback),
            handed.task(),
        )
        .unwrap();
        let (worker, supervisor) = handed.take();
        assert_handed(py, &worker, &supervisor, &py_fut, &event_loop, "Rust future panicked");
        assert!(has_context(py, &worker));

        let py_fut = local_cancellable_future_into_py_with_loop::<Eager, _, _, _>(
            &mut Interpreter::new(py),
            event_loop.clone(),
            |_: Turn, callback| wrap(py, callback),
            handed.task(),
        )
        .unwrap();
        let (worker, supervisor) = handed.take();
        assert_handed(py, &worker, &supervisor, &py_fut, &event_loop, "Rust future panicked");
        assert!(has_context(py, &worker));
    });
}

#[test]
fn law_into_py_is_with_current_locals() {
    python(|py| {
        let event_loop = new_event_loop(py);
        let context: PyObject = "the task's context".into_py(py);
        set_task_locals(py, &event_loop, &context);
        let handed = Handed::new();
        let py_fut = future_into_py::<Tasked, _, _, _>(
            &mut Interpreter::new(py),
            |_: Turn, callback| wrap(py, callback),
            handed.task(),
        )
        .unwrap();
        let (worker, supervisor) = handed.take();
        assert_handed(py, &worker, &supervisor, &py_fut, &event_loop, "rust future panicked");
        assert!(same(py, &worker.locals.context, &context));

        let py_fut = cancellable_future_into_py::<Tasked, _, _, _>(
            &mut Interpreter::new(py),
            |_: Turn, callback| wrap(py, callback),
            handed.task(),
        )
        .unwrap();
        let (worker, supervisor) = handed.take();
        assert_handed(py, &worker, &supervisor, &py_fut, &event_loop, "rust future panicked");
        assert!(same(py, &worker.locals.context, &context));
    });
}

#[test]
fn local_into_py_is_with_current_locals() {
    python(|py| {
        let event_loop = new_event_loop(py);
        let context: PyObject = "the task's context".into_py(py);
        set_task_locals(py, &event_loop, &context);
        let handed = Handed::new();
        let py_fut = local_future_into_py::<Tasked, _, _, _>(
            &mut Interpreter::new(py),
            |_: Turn, callback| wrap(py, callback),
            handed.task(),
        )
        .unwrap();
        let (worker, supervisor) = handed.take();
        assert_handed(py, &worker, &supervisor, &py_fut, &event_loop, "Rust future panicked");
        assert!(same(py, &worker.locals.context, &context));

        let py_fut = local_cancellable_future_into_py::<Tasked, _, _, _>(
            &mut Interpreter::new(py),
            |_: Turn, callback| wrap(py, callback),
            handed.task(),
        )
        .unwrap();
        let (worker, supervisor) = handed.take();
        assert_handed(py, &worker, &supervisor, &py_fut, &event_loop, "Rust future panicked");
        assert!(same(py, &worker.locals.context, &context));
    });
}

#[test]
fn law_task_spawned_iff_converted() {
    python(|py| {
        let handed = Handed::new();
        let mut interpreter = Interpreter::new(py);
        // no loop runs, and there are no task locals
        let e = future_into_py::<Eager, _, _, _>(
            &mut interpreter,
            |_: Turn, callback| wrap(py, callback),
            handed.task(),
        )
        .unwrap_err();
        assert!(e.is_instance::<PyRuntimeError>(py));
        assert!(handed.is_empty());
        // what is given for a loop creates no futures
        let e = future_into_py_with_loop::<Eager, _, _, _>(
            &mut interpreter,
            py.None(),
            |_: Turn, callback| wrap(py, callback),
            handed.task(),
        )
        .unwrap_err();
        assert!(e.is_instance::<PyAttributeError>(py));
        assert!(handed.is_empty());
        // the future takes no callbacks
        let names = bind(
            py,
            "
class Loop:
    def create_future(self):
        return object()
loop = Loop()
",
        );
        let e = future_into_py_with_loop::<Eager, _, _, _>(
            &mut interpreter,
            name(names, "loop"),
            |_: Turn, callback| wrap(py, callback),
            handed.task(),
        )
        .unwrap_err();
        assert!(e.is_instance::<PyAttributeError>(py));
        assert!(handed.is_empty());

        let event_loop = new_event_loop(py);
        future_into_py_with_loop::<Eager, _, _, _>(
            &mut interpreter,
            event_loop,
            |_: Turn, callback| wrap(py, callback),
            handed.task(),
        )
        .unwrap();
        assert!(!handed.is_empty());
    });
}

#[test]
fn law_local_task_spawned_iff_converted() {
    python(|py| {
        let handed = Handed::new();
        let mut interpreter = Interpreter::new(py);
        let locals = TaskLocals { event_loop: py.None(), context: py.None() };
        let e = local_future_into_py_with_locals::<Eager, _, _, _>(
            &mut interpreter,
            locals,
            |_: Turn, callback| wrap(py, callback),
            handed.task(),
        )
        .unwrap_err();
        assert!(e.is_instance::<PyAttributeError>(py));
        assert!(handed.is_empty());
        let locals = TaskLocals { event_loop: new_event_loop(py), context: py.None() };
        local_future_into_py_with_locals::<Eager, _, _, _>(
            &mut interpreter,
            locals,
            |_: Turn, callback| wrap(py, callback),
            handed.task(),
        )
        .unwrap();
        assert!(!handed.is_empty());
    });
}

#[test]
fn cancelling_the_python_future_reaches_the_worker() {
    python(|py| {
        let event_loop = new_event_loop(py);
        let handed = Handed::new();
        let py_fut = future_into_py_with_loop::<Eager, _, _, _>(
            &mut Interpreter::new(py),
            event_loop.clone(),
            |_: Turn, callback| wrap(py, callback),
            handed.task(),
        )
        .unwrap();
        let (mut worker, _supervisor) = handed.take();
        let waker = noop_waker();
        let mut cx = Context::from_waker(&waker);
        let waiting: Poll<PyResult<u8>> = worker.cancel.poll(Poll::Pending, &mut cx);
        assert!(matches!(waiting, Poll::Pending));

        py_fut.call_method0(py, "cancel").unwrap();
        // the loop calls the callbacks on its next turn
        let sleep = py.import("asyncio").unwrap().call_method1("sleep", (0,)).unwrap();
        event_loop.call_method1(py, "run_until_complete", (sleep,)).unwrap();

        let cancelled: Poll<PyResult<u8>> = worker.cancel.poll(Poll::Pending, &mut cx);
        let result = match cancelled {
            Poll::Ready(result) => result,
            Poll::Pending => panic!("the cancellation did not arrive"),
        };
        assert!(result.is_err());
        // and what comes of it is not delivered
        worker.delivery.deliver(
            &mut Interpreter::new(py),
            |_| unreachable!(),
            &no_show,
        );
        assert!(py_fut.call_method0(py, "cancelled").unwrap().is_true(py).unwrap());
    });
}

#[test]
fn completing_the_python_future_does_not_cancel() {
    python(|py| {
        let event_loop = new_event_loop(py);
        let handed = Handed::new();
        let py_fut = future_into_py_with_loop::<Eager, _, _, _>(
            &mut Interpreter::new(py),
            event_loop.clone(),
            |_: Turn, callback| wrap(py, callback),
            handed.task(),
        )
        .unwrap();
        let (mut worker, _supervisor) = handed.take();
        worker.delivery.deliver(&mut Interpreter::new(py), |_| Ok(5.into_py(py)), &no_show);
        let value = event_loop.call_method1(py, "run_until_complete", (py_fut,)).unwrap();
        assert_eq!(value.extract::<u8>(py).unwrap(), 5);
        let waker = noop_waker();
        let after: Poll<PyResult<u8>> =
            worker.cancel.poll(Poll::Pending, &mut Context::from_waker(&waker));
        assert!(matches!(after, Poll::Pending));
    });
}

/// A loop and a future that note what they are asked.
const NOTING: &str = "
log = []
class Future:
    def __init__(self, answer):
        self.answer = answer
    def cancelled(self):
        log.append('cancelled')
        if self.answer is None:
            raise KeyError('no answer')
        return self.answer
    def set_result(self, value):
        log.append(('set_result', value))
    def set_exception(self, error):
        log.append(('set_exception', type(error).__name__, str(error)))
class Loop:
    def call_soon_threadsafe(self, callback, argument, context):
        log.append('call_soon_threadsafe')
        callback(argument)
class Broken:
    def call_soon_threadsafe(self, callback, argument, context):
        raise ValueError('loop is closed')
loop, broken = Loop(), Broken()
cancelled, waiting, mute = Future(True), Future(False), Future(None)
";

fn delivery(names: &PyDict, event_loop: &str, future: &str) -> Delivery {
    Delivery { event_loop: name(names, event_loop), future: name(names, future) }
}

#[test]
fn law_delivery_completes_at_most_once() {
    python(|py| {
        let names = bind(py, NOTING);
        let mut interpreter = Interpreter::new(py);
        delivery(names, "loop", "waiting").deliver(
            &mut interpreter,
            |_| Ok(3.into_py(py)),
            &no_show,
        );
        let log = "log == ['cancelled', 'call_soon_threadsafe', ('set_result', 3)]";
        assert!(holds(py, names, log));
        py.run("log.clear()", Some(names), None).unwrap();
        delivery(names, "loop", "waiting").deliver(
            &mut interpreter,
            |_| Err(PyKeyError::new_err("k")),
            &no_show,
        );
        let log = "log == ['cancelled', 'call_soon_threadsafe', \
                   ('set_exception', 'KeyError', \"'k'\")]";
        assert!(holds(py, names, log));
    });
}

#[test]
fn result_is_made_between_answer_and_setter() {
    python(|py| {
        let names = bind(py, NOTING);
        let log = name(names, "log");
        delivery(names, "loop", "waiting").deliver(
            &mut Interpreter::new(py),
            |_| {
                log.call_method1(py, "append", ("made",)).unwrap();
                Ok(6.into_py(py))
            },
            &no_show,
        );
        let log = "log == ['cancelled', 'made', 'call_soon_threadsafe', ('set_result', 6)]";
        assert!(holds(py, names, log));
    });
}

#[test]
fn cancelled_futures_are_left_alone() {
    python(|py| {
        let names = bind(py, NOTING);
        delivery(names, "loop", "cancelled").deliver(
            &mut Interpreter::new(py),
            |_| unreachable!(),
            &no_show,
        );
        assert!(holds(py, names, "log == ['cancelled']"));
    });
}

#[test]
fn deliveries_show_their_errors() {
    python(|py| {
        let names = bind(py, NOTING);
        let shown: RefCell<Vec<PyErr>> = RefCell::new(vec![]);
        let show = |_: Turn, e: PyErr| shown.borrow_mut().push(e);
        let mut interpreter = Interpreter::new(py);
        // a future that does not answer is completed all the same
        delivery(names, "loop", "mute").deliver(&mut interpreter, |_| Ok(py.None()), &show);
        let log = "log == ['cancelled', 'call_soon_threadsafe', ('set_result', None)]";
        assert!(holds(py, names, log));
        assert_eq!(shown.borrow().len(), 1);
        assert!(shown.borrow()[0].is_instance::<PyKeyError>(py));

        delivery(names, "broken", "waiting").deliver(&mut interpreter, |_| Ok(py.None()), &show);
        assert_eq!(shown.borrow().len(), 2);
        assert!(shown.borrow()[1].is_instance::<PyValueError>(py));

        delivery(names, "broken", "mute").deliver(&mut interpreter, |_| Ok(py.None()), &show);
        assert_eq!(shown.borrow().len(), 4);
        assert!(shown.borrow()[2].is_instance::<PyKeyError>(py));
        assert!(shown.borrow()[3].is_instance::<PyValueError>(py));
    });
}

#[test]
fn law_only_panics_are_reported() {
    python(|py| {
        let names = bind(py, NOTING);
        let supervisor = Supervisor {
            delivery: delivery(names, "loop", "waiting"),
            panic_message: "rust future panicked",
        };
        assert_eq!(supervisor.joined::<Ended>(Ok(())), None);
        assert_eq!(supervisor.joined(Err(Ended { panicked: false })), None);
        assert_eq!(
            supervisor.joined(Err(Ended { panicked: true })),
            Some("rust future panicked")
        );
    });
}

#[test]
fn law_conversion_completes_at_most_once() {
    python(|py| {
        // a worker that has delivered ends well, so its supervisor owes nothing
        let names = bind(py, NOTING);
        let supervisor = Supervisor {
            delivery: delivery(names, "loop", "waiting"),
            panic_message: "rust future panicked",
        };
        let mut interpreter = Interpreter::new(py);
        delivery(names, "loop", "waiting").deliver(
            &mut interpreter,
            |_| Ok(1.into_py(py)),
            &no_show,
        );
        assert!(supervisor.joined::<Ended>(Ok(())).is_none());
        assert!(holds(py, names, "log.count('call_soon_threadsafe') == 1"));
        // one that panics has delivered nothing
        py.run("log.clear()", Some(names), None).unwrap();
        let message = supervisor.joined(Err(Ended { panicked: true })).unwrap();
        supervisor.delivery.deliver(
            &mut interpreter,
            |_| Err(PyRuntimeError::new_err(message)),
            &no_show,
        );
        let log = "log == ['cancelled', 'call_soon_threadsafe', \
                   ('set_exception', 'RuntimeError', 'rust future panicked')]";
        assert!(holds(py, names, log));
    });
}

#[test]
fn law_taken_value_is_that_of_the_future() {
    let mut slot = ResultSlot::new();
    let kept: Result<(), u8> = ResultSlot::keep(Some(&mut slot), Ok("value"));
    assert_eq!(kept, Ok(()));
    assert_eq!(slot.take(), Some("value"));
    assert_eq!(slot.take(), None);
}

#[test]
fn result_slot_passes_errors_on() {
    let mut slot: ResultSlot<&str> = ResultSlot::new();
    assert_eq!(ResultSlot::keep(Some(&mut slot), Err(4)), Err(4));
    assert_eq!(slot.take(), None);
    let kept: Result<(), u8> = ResultSlot::keep(None, Ok("lost"));
    assert_eq!(kept, Ok(()));
    let failed: Result<(), u8> = ResultSlot::<&str>::keep(None, Err(5));
    assert_eq!(failed, Err(5));
}

type Slot = Arc<Mutex<ResultSlot<u32>>>;

/// A task for a Rust future that ends with `outcome`.
fn finishing(
    outcome: PyResult<u32>,
    slot: Slot,
) -> impl FnOnce(Turn, Worker, Supervisor) -> Ready<()> {
    move |_, worker, _supervisor| {
        let mut guard = slot.lock().unwrap();
        let told = ResultSlot::keep(Some(&mut *guard), outcome);
        Python::with_gil(|py| {
            worker.delivery.deliver(
                &mut Interpreter::new(py),
                |_| told.map(|()| py.None()),
                &no_show,
            )
        });
        ready(())
    }
}

fn taking(slot: Slot) -> impl FnOnce(Turn) -> Option<u32> {
    move |_| slot.lock().unwrap().take()
}

#[test]
fn a_run_without_a_value_gives_none() {
    python(|py| {
        let event_loop = new_event_loop(py);
        let kept: Slot = Arc::new(Mutex::new(ResultSlot::new()));
        let empty: Slot = Arc::new(Mutex::new(ResultSlot::new()));
        let value = run_until_complete::<Eager, _, _, _, _, _>(
            &mut Interpreter::new(py),
            &event_loop,
            |_: Turn, callback| wrap(py, callback),
            finishing(Ok(1), kept),
            taking(empty),
        )
        .unwrap();
        assert_eq!(value, None);
    });
}

#[test]
fn law_run_until_complete_leaves_the_loop_open() {
    python(|py| {
        let event_loop = new_event_loop(py);
        let mut interpreter = Interpreter::new(py);
        for i in 0u32..3 {
            let slot: Slot = Arc::new(Mutex::new(ResultSlot::new()));
            let value = run_until_complete::<Eager, _, _, _, _, _>(
                &mut interpreter,
                &event_loop,
                |_: Turn, callback| wrap(py, callback),
                finishing(Ok(i), slot.clone()),
                taking(slot),
            )
            .unwrap();
            assert_eq!(value, Some(i));
            assert!(!event_loop.call_method0(py, "is_closed").unwrap().is_true(py).unwrap());
        }
    });
}

#[test]
fn run_until_complete_hands_the_error_back() {
    python(|py| {
        let event_loop = new_event_loop(py);
        let slot: Slot = Arc::new(Mutex::new(ResultSlot::new()));
        let e = run_until_complete::<Eager, _, _, _, _, _>(
            &mut Interpreter::new(py),
            &event_loop,
            |_: Turn, callback| wrap(py, callback),
            finishing(Err(PyKeyError::new_err("failed")), slot.clone()),
            taking(slot),
        )
        .unwrap_err();
        assert!(e.is_instance::<PyKeyError>(py));
        assert!(!event_loop.call_method0(py, "is_closed").unwrap().is_true(py).unwrap());
    });
}

#[test]
fn run_until_complete_needs_an_event_loop() {
    python(|py| {
        let slot: Slot = Arc::new(Mutex::new(ResultSlot::new()));
        let e = run_until_complete::<Eager, _, _, _, _, _>(
            &mut Interpreter::new(py),
            &py.None(),
            |_: Turn, callback| wrap(py, callback),
            |_: Turn, _: Worker, _: Supervisor| -> Ready<()> { unreachable!() },
            taking(slot),
        )
        .unwrap_err();
        assert!(e.is_instance::<PyAttributeError>(py));
    });
}

#[test]
fn law_value_comes_from_a_finished_loop() {
    python(|py| {
        let names = bind(
            py,
            "
log = []
class Future:
    def add_done_callback(self, callback):
        log.append('add_done_callback')
future = Future()
class Loop:
    def create_future(self):
        log.append('create_future')
        return future
    def run_until_complete(self, awaitable):
        log.append(('run_until_complete', awaitable is future))
loop = Loop()
",
        );
        let noted = name(names, "log");
        let taken = name(names, "log");
        let value = run_until_complete::<Eager, _, _, _, _, _>(
            &mut Interpreter::new(py),
            &name(names, "loop"),
            |_: Turn, callback| wrap(py, callback),
            move |_: Turn, _: Worker, _: Supervisor| {
                poll_fn(move |_| {
                    Python::with_gil(|py| noted.call_method1(py, "append", ("spawned",)).unwrap());
                    std::task::Poll::Ready(())
                })
            },
            |_: Turn| {
                taken.call_method1(py, "append", ("taken",)).unwrap();
                Some(9)
            },
        )
        .unwrap();
        assert_eq!(value, Some(9));
        let log = "log == ['create_future', 'add_done_callback', 'spawned', \
                   ('run_until_complete', True), 'taken']";
        assert!(holds(py, names, log));
    });
}

/// Lets `asyncio` open its loops with `opener`, for as long as `f` runs.
fn opening_with(py: Python, opener: &str, f: impl FnOnce(&PyDict)) {
    let names = bind(py, "import asyncio\nnew_event_loop = asyncio.new_event_loop\n");
    py.run(opener, Some(names), None).unwrap();
    py.run("asyncio.new_event_loop = opener", Some(names), None).unwrap();
    f(names);
    py.run("asyncio.new_event_loop = new_event_loop", Some(names), None).unwrap();
}

#[test]
fn law_run_closes_its_loop() {
    python(|py| {
        let opener = "
opened = []
def opener():
    opened.append(new_event_loop())
    return opened[-1]
";
        opening_with(py, opener, |names| {
            let mut interpreter = Interpreter::new(py);
            let slot: Slot = Arc::new(Mutex::new(ResultSlot::new()));
            let value = run::<Eager, _, _, _, _, _>(
                &mut interpreter,
                |_: Turn, callback| wrap(py, callback),
                finishing(Ok(11), slot.clone()),
                taking(slot),
            )
            .unwrap();
            assert_eq!(value, Some(11));
            assert!(holds(py, names, "[l.is_closed() for l in opened] == [True]"));

            let slot: Slot = Arc::new(Mutex::new(ResultSlot::new()));
            let e = run::<Eager, _, _, _, _, _>(
                &mut interpreter,
                |_: Turn, callback| wrap(py, callback),
                finishing(Err(PyValueError::new_err("failed")), slot.clone()),
                taking(slot),
            )
            .unwrap_err();
            assert!(e.is_instance::<PyValueError>(py));
            assert!(holds(py, names, "[l.is_closed() for l in opened] == [True, True]"));
        });
    });
}

#[test]
fn run_reports_that_its_loop_does_not_close() {
    python(|py| {
        let opener = "
def opener():
    loop = new_event_loop()
    def close():
        raise KeyError('stays open')
    loop.close = close
    return loop
";
        opening_with(py, opener, |_| {
            let mut interpreter = Interpreter::new(py);
            // over a value and over another error alike
            for outcome in vec![Ok(1), Err(PyValueError::new_err("failed"))] {
                let slot: Slot = Arc::new(Mutex::new(ResultSlot::new()));
                let e = run::<Eager, _, _, _, _, _>(
                    &mut interpreter,
                    |_: Turn, callback| wrap(py, callback),
                    finishing(outcome, slot.clone()),
                    taking(slot),
                )
                .unwrap_err();
                assert!(e.is_instance::<PyKeyError>(py));
            }
        });
    });
}

#[test]
fn run_fails_when_no_loop_opens() {
    python(|py| {
        let opener = "
def opener():
    raise KeyError('no loop')
";
        opening_with(py, opener, |_| {
            let slot: Slot = Arc::new(Mutex::new(ResultSlot::new()));
            let e = run::<Eager, _, _, _, _, _>(
                &mut Interpreter::new(py),
                |_: Turn, _: PyDoneCallback| unreachable!(),
                |_: Turn, _: Worker, _: Supervisor| -> Ready<()> { unreachable!() },
                taking(slot),
            )
            .unwrap_err();
            assert!(e.is_instance::<PyKeyError>(py));
        });
    });
}

#[test]
fn law_awaitables_see_the_locals_of_the_conversion() {
    python(|py| {
        let locals = TaskLocals { event_loop: new_event_loop(py), context: "context".into_py(py) };
        let handed = Handed::new();
        future_into_py_with_locals::<Tasked, _, _, _>(
            &mut Interpreter::new(py),
            locals.clone(),
            |_: Turn, callback| wrap(py, callback),
            handed.task(),
        )
        .unwrap();
        // the runtime sets the locals of the worker
        let (worker, _supervisor) = handed.take();
        set_task_locals(py, &worker.locals.event_loop, &worker.locals.context);
        let seen = into_future::<Tasked, _, _>(
            &mut Interpreter::new(py),
            py.None(),
            |_: Turn, seen: &TaskLocals, _: PyObject| Ok(seen.clone()),
        )
        .unwrap();
        assert!(same(py, &seen.event_loop, &locals.event_loop));
        assert!(same(py, &seen.context, &locals.context));
    });
}

#[test]
fn law_local_awaitables_see_the_locals_of_the_conversion() {
    python(|py| {
        let locals = TaskLocals { event_loop: new_event_loop(py), context: "context".into_py(py) };
        let handed = Handed::new();
        local_future_into_py_with_locals::<Tasked, _, _, _>(
            &mut Interpreter::new(py),
            locals.clone(),
            |_: Turn, callback| wrap(py, callback),
            handed.task(),
        )
        .unwrap();
        let (worker, _supervisor) = handed.take();
        set_task_locals(py, &worker.locals.event_loop, &worker.locals.context);
        let seen = into_future::<Tasked, _, _>(
            &mut Interpreter::new(py),
            py.None(),
            |_: Turn, seen: &TaskLocals, _: PyObject| Ok(seen.clone()),
        )
        .unwrap();
        assert!(same(py, &seen.event_loop, &locals.event_loop));
        assert!(same(py, &seen.context, &locals.context));
    });
}

#[test]
fn law_interrupted_delivery_completes_nothing() {
    python(|py| {
        let names = bind(py, NOTING);
        let mut interpreter = Interpreter::new(py);
        // by the time that the result is made, the loop was asked for nothing
        delivery(names, "loop", "waiting").deliver(
            &mut interpreter,
            |_| {
                assert!(holds(py, names, "log == ['cancelled']"));
                Ok(py.None())
            },
            &no_show,
        );
        // and the error that is shown at the end says that it did not agree
        py.run("log.clear()", Some(names), None).unwrap();
        let shows = RefCell::new(0);
        delivery(names, "broken", "waiting").deliver(
            &mut interpreter,
            |_| Ok(py.None()),
            &|_: Turn, e: PyErr| {
                assert!(e.is_instance::<PyValueError>(py));
                assert!(holds(py, names, "log == ['cancelled']"));
                *shows.borrow_mut() += 1;
            },
        );
        assert_eq!(*shows.borrow(), 1);
    });
}

#[test]
fn workers_spawn_their_tasks() {
    python(|py| {
        let event_loop = new_event_loop(py);
        let handed = Handed::new();
        let mut interpreter = Interpreter::new(py);
        for local in vec![false, true] {
            let py_fut = future_into_py_with_loop::<Eager, _, _, _>(
                &mut interpreter,
                event_loop.clone(),
                |_: Turn, callback| wrap(py, callback),
                handed.task(),
            )
            .unwrap();
            let (worker, supervisor) = handed.take();
            let work = |worker: Worker| {
                poll_fn(move |_| {
                    Python::with_gil(|py| {
                        let mut interpreter = Interpreter::new(py);
                        worker.delivery.deliver(&mut interpreter, |_| Ok(4.into_py(py)), &no_show)
                    });
                    std::task::Poll::Ready(())
                })
            };
            let handle = if local {
                worker.spawn_local::<Eager, _, _>(work)
            } else {
                worker.spawn::<Eager, _, _>(work)
            };
            assert_eq!(supervisor.joined(handle.into_inner()), None);
            let value = event_loop.call_method1(py, "run_until_complete", (py_fut,)).unwrap();
            assert_eq!(value.extract::<u8>(py).unwrap(), 4);
        }
    });
}
