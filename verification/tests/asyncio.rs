//! What the library asks of `asyncio`, on a real interpreter.

use asyncio_bridge::event_loop::{cancelled, cancelled_or_show, close, set_result};
use asyncio_bridge::interpreter::{Interpreter, Turn};
use asyncio_bridge::locals::{
    get_current_locals, get_current_loop, get_running_loop, into_future, TaskLocals,
};
use asyncio_bridge::runtime::{ContextExt, JoinError, Runtime};
use pyo3::exceptions::{PyAttributeError, PyKeyError, PyRuntimeError, PyTypeError, PyValueError};
use pyo3::types::PyDict;
use pyo3::{PyErr, PyObject, PyResult, Python};
use std::cell::RefCell;
use std::future::{ready, Future, Ready};

fn python<T>(f: impl FnOnce(Python) -> T) -> T {
    pyo3::prepare_freethreaded_python();
    Python::with_gil(f)
}

fn same(py: Python, a: &PyObject, b: &PyObject) -> bool {
    let operator = py.import("operator").unwrap();
    operator.call_method1("is_", (a, b)).unwrap().is_true().unwrap()
}

/// Runs `code` and gives the names it has bound.
fn bind<'py>(py: Python<'py>, code: &str) -> &'py PyDict {
    let names = PyDict::new(py);
    py.run(code, Some(names), None).unwrap();
    names
}

fn name(names: &PyDict, name: &str) -> PyObject {
    PyObject::from(names.get_item(name).unwrap())
}

/// A loop that notes what it is asked, and does the calls at once.
const LOOP: &str = "
class Loop:
    def __init__(self):
        self.log = []

    def call_soon_threadsafe(self, callback, argument, context='none given'):
        self.log.append(('call_soon_threadsafe', context))
        callback(argument)

class Future:
    def set_result(self, value):
        self.outcome = ('result', value)

    def set_exception(self, error):
        self.outcome = ('exception', type(error).__name__, str(error))

class Closing:
    def __init__(self):
        self.log = []

    def shutdown_asyncgens(self):
        self.log.append('shutdown_asyncgens')
        return 'generators'

    def run_until_complete(self, awaitable):
        self.log.append(('run_until_complete', awaitable))

    def close(self):
        self.log.append('close')

class ClosingExecutor(Closing):
    def shutdown_default_executor(self):
        self.log.append('shutdown_default_executor')
        return 'executor'

loop = Loop()
future = Future()
closing = Closing()
closing_executor = ClosingExecutor()
";

struct Ended;

impl JoinError for Ended {
    fn is_panic(&self) -> bool {
        false
    }
}

/// A runtime whose tasks have no task locals.
struct Plain;

impl Runtime for Plain {
    type JoinError = Ended;
    type JoinHandle = Ready<Result<(), Ended>>;

    fn spawn<F>(_fut: F) -> Self::JoinHandle
    where
        F: Future<Output = ()> + Send + 'static,
    {
        ready(Err(Ended))
    }
}

impl ContextExt for Plain {
    fn get_task_locals() -> Option<TaskLocals> {
        None
    }
}

/// A runtime that keeps the locals of its only task in Python's `builtins`.
struct Tasked;

impl Runtime for Tasked {
    type JoinError = Ended;
    type JoinHandle = Ready<Result<(), Ended>>;

    fn spawn<F>(_fut: F) -> Self::JoinHandle
    where
        F: Future<Output = ()> + Send + 'static,
    {
        ready(Err(Ended))
    }
}

impl ContextExt for Tasked {
    fn get_task_locals() -> Option<TaskLocals> {
        Python::with_gil(|py| {
            let builtins = py.import("builtins").unwrap();
            Some(TaskLocals {
                event_loop: PyObject::from(builtins.getattr("task_loop").unwrap()),
                context: PyObject::from(builtins.getattr("task_context").unwrap()),
            })
        })
    }
}

fn set_task_locals(py: Python, event_loop: &PyObject, context: &PyObject) {
    let builtins = py.import("builtins").unwrap();
    builtins.setattr("task_loop", event_loop).unwrap();
    builtins.setattr("task_context", context).unwrap();
}

#[test]
fn interpreter_forwards_each_call() {
    python(|py| {
        let mut interpreter = Interpreter::new(py);
        let math = interpreter.import("math").unwrap();
        let pi = interpreter.getattr(&math, "pi").unwrap();
        assert!(pi.extract::<f64>(py).unwrap() > 3.14);

        let names = bind(py, "def three():\n    return 3\ntext = 'abc'\nb = 'b'\n");
        let three = interpreter.call0(&name(names, "three")).unwrap();
        assert_eq!(three.extract::<u8>(py).unwrap(), 3);
        let upper = interpreter.call_method0(&name(names, "text"), "upper").unwrap();
        assert_eq!(upper.extract::<String>(py).unwrap(), "ABC");
        let index = interpreter
            .call_method1(&name(names, "text"), "index", name(names, "b"))
            .unwrap();
        assert_eq!(index.extract::<usize>(py).unwrap(), 1);

        assert!(interpreter.is_true(&three).unwrap());
        let none = interpreter.none();
        assert!(none.is_none(py));
        assert!(!interpreter.is_true(&none).unwrap());
    });
}

#[test]
fn interpreter_hands_errors_back() {
    python(|py| {
        let mut interpreter = Interpreter::new(py);
        assert!(interpreter.import("no_such_module").is_err());
        let none = interpreter.none();
        let missing = interpreter.getattr(&none, "missing").unwrap_err();
        assert!(missing.is_instance::<PyAttributeError>(py));
        let uncalled = interpreter.call0(&none).unwrap_err();
        assert!(uncalled.is_instance::<PyTypeError>(py));
    });
}

#[test]
fn call_soon_threadsafe_passes_the_context() {
    python(|py| {
        let names = bind(
            py,
            "
class Loop:
    def call_soon_threadsafe(self, callback, argument, context):
        return (callback, argument, context)
loop = Loop()
",
        );
        let mut interpreter = Interpreter::new(py);
        let answer = interpreter
            .call_soon_threadsafe(
                &name(names, "loop"),
                &pyo3::IntoPy::into_py("the context", py),
                pyo3::IntoPy::into_py("the callback", py),
                Ok(pyo3::IntoPy::into_py(5, py)),
            )
            .unwrap();
        let answer: (String, u8, String) = answer.extract(py).unwrap();
        assert_eq!(answer, ("the callback".to_string(), 5, "the context".to_string()));
    });
}

#[test]
fn cancelled_asks_the_future() {
    python(|py| {
        let event_loop = py.import("asyncio").unwrap().call_method0("new_event_loop").unwrap();
        let future = PyObject::from(event_loop.call_method0("create_future").unwrap());
        let mut interpreter = Interpreter::new(py);
        assert!(!cancelled(&mut interpreter, &future).unwrap());
        future.call_method0(py, "cancel").unwrap();
        assert!(cancelled(&mut interpreter, &future).unwrap());
    });
}

#[test]
fn cancelled_fails_where_the_future_does() {
    python(|py| {
        let names = bind(
            py,
            "
class Missing:
    pass
class Raises:
    def cancelled(self):
        raise KeyError('raised')
class NoTruth:
    def __bool__(self):
        raise ValueError('no truth value')
class Untrue:
    def cancelled(self):
        return NoTruth()
missing, raises, untrue = Missing(), Raises(), Untrue()
",
        );
        let mut interpreter = Interpreter::new(py);
        let e = cancelled(&mut interpreter, &name(names, "missing")).unwrap_err();
        assert!(e.is_instance::<PyAttributeError>(py));
        let e = cancelled(&mut interpreter, &name(names, "raises")).unwrap_err();
        assert!(e.is_instance::<PyKeyError>(py));
        let e = cancelled(&mut interpreter, &name(names, "untrue")).unwrap_err();
        assert!(e.is_instance::<PyValueError>(py));
    });
}

#[test]
fn cancelled_or_show_shows_only_errors() {
    python(|py| {
        let names = bind(
            py,
            "
class Answers:
    def __init__(self, answer):
        self.answer = answer
    def cancelled(self):
        return self.answer
yes, no, fails = Answers(True), Answers(False), object()
",
        );
        let shown: RefCell<Vec<PyErr>> = RefCell::new(vec![]);
        let show = |_: Turn, e: PyErr| shown.borrow_mut().push(e);
        let mut interpreter = Interpreter::new(py);
        assert!(cancelled_or_show(&mut interpreter, &name(names, "yes"), &show));
        assert!(!cancelled_or_show(&mut interpreter, &name(names, "no"), &show));
        assert!(shown.borrow().is_empty());
        assert!(!cancelled_or_show(&mut interpreter, &name(names, "fails"), &show));
        assert_eq!(shown.borrow().len(), 1);
        assert!(shown.borrow()[0].is_instance::<PyAttributeError>(py));
    });
}

#[test]
fn set_result_completes_with_the_value() {
    python(|py| {
        let names = bind(py, LOOP);
        let mut interpreter = Interpreter::new(py);
        set_result(
            &mut interpreter,
            &name(names, "loop"),
            &name(names, "future"),
            Ok(pyo3::IntoPy::into_py(42, py)),
        )
        .unwrap();
        let outcome = py.eval("future.outcome == ('result', 42)", Some(names), None).unwrap();
        assert!(outcome.is_true().unwrap());
        let log = py.eval("loop.log == [('call_soon_threadsafe', None)]", Some(names), None);
        assert!(log.unwrap().is_true().unwrap());
    });
}

#[test]
fn set_result_completes_with_the_exception() {
    python(|py| {
        let names = bind(py, LOOP);
        let mut interpreter = Interpreter::new(py);
        set_result(
            &mut interpreter,
            &name(names, "loop"),
            &name(names, "future"),
            Err(PyValueError::new_err("went wrong")),
        )
        .unwrap();
        let outcome = "future.outcome == ('exception', 'ValueError', 'went wrong')";
        assert!(py.eval(outcome, Some(names), None).unwrap().is_true().unwrap());
    });
}

#[test]
fn set_result_fails_without_a_setter_or_a_loop() {
    python(|py| {
        let names = bind(py, LOOP);
        let mut interpreter = Interpreter::new(py);
        let none = interpreter.none();
        let e = set_result(&mut interpreter, &name(names, "loop"), &none, Ok(none.clone()));
        assert!(e.unwrap_err().is_instance::<PyAttributeError>(py));
        assert!(py.eval("loop.log == []", Some(names), None).unwrap().is_true().unwrap());
        let e = set_result(&mut interpreter, &none, &name(names, "future"), Ok(none.clone()));
        assert!(e.unwrap_err().is_instance::<PyAttributeError>(py));
    });
}

#[test]
fn set_result_on_a_real_loop() {
    python(|py| {
        let event_loop = py.import("asyncio").unwrap().call_method0("new_event_loop").unwrap();
        let future = event_loop.call_method0("create_future").unwrap();
        let mut interpreter = Interpreter::new(py);
        set_result(
            &mut interpreter,
            &PyObject::from(event_loop),
            &PyObject::from(future),
            Ok(pyo3::IntoPy::into_py("done", py)),
        )
        .unwrap();
        // the loop does it, not the call
        assert!(!future.call_method0("done").unwrap().is_true().unwrap());
        let value = event_loop.call_method1("run_until_complete", (future,)).unwrap();
        assert_eq!(value.extract::<String>().unwrap(), "done");
    });
}

#[test]
fn close_shuts_down_in_order() {
    python(|py| {
        let names = bind(py, LOOP);
        let mut interpreter = Interpreter::new(py);
        close(&mut interpreter, &name(names, "closing")).unwrap();
        let log = "closing.log == ['shutdown_asyncgens', \
                   ('run_until_complete', 'generators'), 'close']";
        assert!(py.eval(log, Some(names), None).unwrap().is_true().unwrap());
        close(&mut interpreter, &name(names, "closing_executor")).unwrap();
        let log = "closing_executor.log == ['shutdown_asyncgens', \
                   ('run_until_complete', 'generators'), 'shutdown_default_executor', \
                   ('run_until_complete', 'executor'), 'close']";
        assert!(py.eval(log, Some(names), None).unwrap().is_true().unwrap());
    });
}

#[test]
fn close_stops_at_the_first_error() {
    python(|py| {
        let names = bind(
            py,
            "
class Loop:
    log = []
    def shutdown_asyncgens(self):
        return 'generators'
    def run_until_complete(self, awaitable):
        raise KeyError(awaitable)
    def close(self):
        self.log.append('close')
loop = Loop()
",
        );
        let mut interpreter = Interpreter::new(py);
        let e = close(&mut interpreter, &name(names, "loop")).unwrap_err();
        assert!(e.is_instance::<PyKeyError>(py));
        assert!(py.eval("loop.log == []", Some(names), None).unwrap().is_true().unwrap());
    });
}

#[test]
fn close_closes_a_real_loop() {
    python(|py| {
        let event_loop = py.import("asyncio").unwrap().call_method0("new_event_loop").unwrap();
        let mut interpreter = Interpreter::new(py);
        close(&mut interpreter, &PyObject::from(event_loop)).unwrap();
        assert!(event_loop.call_method0("is_closed").unwrap().is_true().unwrap());
    });
}

#[test]
fn no_loop_runs_outside_of_asyncio() {
    python(|py| {
        let mut interpreter = Interpreter::new(py);
        let e = get_running_loop(&mut interpreter).unwrap_err();
        assert!(e.is_instance::<PyRuntimeError>(py));
        let e = TaskLocals::with_running_loop(&mut interpreter).err().unwrap();
        assert!(e.is_instance::<PyRuntimeError>(py));
        let e = get_current_loop::<Plain>(&mut interpreter).unwrap_err();
        assert!(e.is_instance::<PyRuntimeError>(py));
        let e = get_current_locals::<Plain>(&mut interpreter).err().unwrap();
        assert!(e.is_instance::<PyRuntimeError>(py));
    });
}

/// Pretends, for as long as `f` runs, that `event_loop` runs on this thread.
fn running<T>(py: Python, event_loop: &PyObject, f: impl FnOnce() -> T) -> T {
    let events = py.import("asyncio").unwrap().getattr("events").unwrap();
    events.call_method1("_set_running_loop", (event_loop,)).unwrap();
    let r = f();
    events.call_method1("_set_running_loop", (py.None(),)).unwrap();
    r
}

#[test]
fn running_loop_is_found() {
    python(|py| {
        let event_loop =
            PyObject::from(py.import("asyncio").unwrap().call_method0("new_event_loop").unwrap());
        running(py, &event_loop, || {
            let mut interpreter = Interpreter::new(py);
            assert!(same(py, &get_running_loop(&mut interpreter).unwrap(), &event_loop));
            let locals = TaskLocals::with_running_loop(&mut interpreter).unwrap();
            assert!(same(py, &locals.event_loop, &event_loop));
            assert!(locals.context.is_none(py));
        });
    });
}

#[test]
fn locals_hold_the_loop_and_a_context() {
    python(|py| {
        let mut interpreter = Interpreter::new(py);
        let event_loop: PyObject = pyo3::IntoPy::into_py("a loop", py);
        let locals = TaskLocals::new(&interpreter, event_loop.clone());
        assert!(same(py, &locals.event_loop, &event_loop));
        assert!(locals.context.is_none(py));
        let cloned = locals.clone();
        assert!(same(py, &cloned.event_loop, &event_loop));

        let context: PyObject = pyo3::IntoPy::into_py("a context", py);
        let locals = locals.with_context(context.clone());
        assert!(same(py, &locals.event_loop, &event_loop));
        assert!(same(py, &locals.context, &context));

        let locals = locals.copy_context(&mut interpreter).unwrap();
        assert!(same(py, &locals.event_loop, &event_loop));
        let kind = locals.context.as_ref(py).get_type().name().unwrap();
        assert_eq!(kind, "Context");
    });
}

#[test]
fn law_task_locals_come_first() {
    python(|py| {
        let task_loop: PyObject = pyo3::IntoPy::into_py("the task's loop", py);
        let task_context: PyObject = pyo3::IntoPy::into_py("the task's context", py);
        set_task_locals(py, &task_loop, &task_context);
        let event_loop =
            PyObject::from(py.import("asyncio").unwrap().call_method0("new_event_loop").unwrap());
        running(py, &event_loop, || {
            let mut interpreter = Interpreter::new(py);
            let current = get_current_loop::<Tasked>(&mut interpreter).unwrap();
            assert!(same(py, &current, &task_loop));
            let locals = get_current_locals::<Tasked>(&mut interpreter).unwrap();
            assert!(same(py, &locals.event_loop, &task_loop));
            assert!(same(py, &locals.context, &task_context));
        });
        // Python is not asked, so it does not matter that no loop runs
        let mut interpreter = Interpreter::new(py);
        assert!(get_current_loop::<Tasked>(&mut interpreter).is_ok());
    });
}

#[test]
fn law_python_comes_second() {
    python(|py| {
        let event_loop =
            PyObject::from(py.import("asyncio").unwrap().call_method0("new_event_loop").unwrap());
        running(py, &event_loop, || {
            let mut interpreter = Interpreter::new(py);
            let current = get_current_loop::<Plain>(&mut interpreter).unwrap();
            assert!(same(py, &current, &event_loop));
            let locals = get_current_locals::<Plain>(&mut interpreter).unwrap();
            assert!(same(py, &locals.event_loop, &event_loop));
            let kind = locals.context.as_ref(py).get_type().name().unwrap();
            assert_eq!(kind, "Context");
        });
    });
}

#[test]
fn into_future_forwards_awaitable_and_locals() {
    python(|py| {
        let task_loop: PyObject = pyo3::IntoPy::into_py("the task's loop", py);
        set_task_locals(py, &task_loop, &py.None());
        let awaitable: PyObject = pyo3::IntoPy::into_py("awaitable", py);
        let mut interpreter = Interpreter::new(py);
        let forwarded = into_future::<Tasked, _, _>(
            &mut interpreter,
            awaitable.clone(),
            |_: Turn, locals: &TaskLocals, a: PyObject| Ok((locals.event_loop.clone(), a)),
        )
        .unwrap();
        assert!(same(py, &forwarded.0, &task_loop));
        assert!(same(py, &forwarded.1, &awaitable));

        let failed: PyResult<()> = into_future::<Tasked, _, _>(
            &mut interpreter,
            awaitable.clone(),
            |_: Turn, _: &TaskLocals, _: PyObject| Err(PyKeyError::new_err("no future")),
        );
        assert!(failed.unwrap_err().is_instance::<PyKeyError>(py));

        let unreached: PyResult<()> = into_future::<Plain, _, _>(
            &mut interpreter,
            awaitable,
            |_: Turn, _: &TaskLocals, _: PyObject| unreachable!(),
        );
        assert!(unreached.unwrap_err().is_instance::<PyRuntimeError>(py));
    });
}
