//! The parts of `pyo3` that the library calls.
//!
//! Python objects are opaque here: a [`PyObject`] is a handle, and two handles are equal when they
//! refer to the same object. What a Python call answers is up to the interpreter, and so is what an
//! object holds from one call to the next. The specifications below promise nothing about either. A
//! contract that needs to say which call was made, with which arguments, says it with
//! `call_ensures` of the function specified here.
//!
//! Any of these calls may run Rust code, if Python calls back into some. Where that code panics,
//! Python carries the panic as an exception, and `pyo3` resumes it when it fetches the error. The
//! call then unwinds in place of an answer. No argument decides this, so no specification can leave
//! it out.

use pyo3::exceptions::PyBaseException;
use pyo3::types::{PyDict, PyModule, PyTuple};
use pyo3::{
    AsPyPointer, IntoPy, Py, PyAny, PyErr, PyErrArguments, PyNativeType, PyObject, PyResult, Python,
    ToPyObject,
};
use vstd::prelude::*;

verus! {

/// `pyo3::PyAny`, any Python object.
#[verifier::external_type_specification]
#[verifier::external_body]
pub struct ExPyAny(PyAny);

/// `pyo3::types::PyTuple`, which positional arguments are converted into.
#[verifier::external_type_specification]
#[verifier::external_body]
pub struct ExPyTuple(PyTuple);

/// `pyo3::types::PyDict`, which carries keyword arguments.
#[verifier::external_type_specification]
#[verifier::external_body]
pub struct ExPyDict(PyDict);

/// `pyo3::types::PyModule`, what an import gives.
#[verifier::external_type_specification]
#[verifier::external_body]
pub struct ExPyModule(PyModule);

/// `pyo3::PyErr`, a raised Python exception.
#[verifier::external_type_specification]
#[verifier::external_body]
pub struct ExPyErr(PyErr);

/// `pyo3::exceptions::PyBaseException`, Python's `BaseException`.
#[verifier::external_type_specification]
#[verifier::external_body]
pub struct ExPyBaseException(PyBaseException);

/// `pyo3::Python`, the token that shows that the interpreter lock is held.
#[verifier::external_type_specification]
#[verifier::external_body]
pub struct ExPython<'py>(Python<'py>);

/// `pyo3::Py`, an owned handle to a Python object.
#[verifier::external_type_specification]
#[verifier::external_body]
#[verifier::reject_recursive_types(T)]
pub struct ExPy<T>(Py<T>);

/// `Py::clone` gives another handle to the same object.
pub assume_specification<T>[ <Py<T> as Clone>::clone ](obj: &Py<T>) -> (r: Py<T>)
    ensures
        r == *obj,
;

/// `Python::None` gives a handle to Python's `None`.
pub assume_specification<'py>[ Python::<'py>::None ](py: Python<'py>) -> (r: PyObject)
;

/// `Python::import` imports a module, or fails as Python does.
pub assume_specification<'py>[ Python::<'py>::import ](py: Python<'py>, name: &str) -> (r: PyResult<
    &'py PyModule,
>)
;

/// `PyObject::from` gives a handle to the object behind a reference. A reference is not a handle, so
/// that both lead to the same object is left unsaid.
pub assume_specification<'a, T>[ <PyObject as From<&'a T>>::from ](obj: &T) -> (r: PyObject)
    where T: AsPyPointer + PyNativeType,
;

/// `Py::getattr` looks an attribute up, or fails as Python does.
pub assume_specification<T, N>[ Py::<T>::getattr::<N> ](
    obj: &Py<T>,
    py: Python<'_>,
    attr_name: N,
) -> (r: PyResult<PyObject>)
    where N: ToPyObject,
;

/// `Py::call0` calls the object without arguments. It gives what Python returns or raises.
pub assume_specification<T>[ Py::<T>::call0 ](obj: &Py<T>, py: Python<'_>) -> (r: PyResult<PyObject>)
;

/// `Py::is_true` tells whether Python takes the object for true, or fails as Python does.
pub assume_specification<T>[ Py::<T>::is_true ](obj: &Py<T>, py: Python<'_>) -> (r: PyResult<bool>)
;

/// `Py::call_method0` calls a method without arguments. It gives what Python returns or raises.
pub assume_specification<T>[ Py::<T>::call_method0 ](
    obj: &Py<T>,
    py: Python<'_>,
    name: &str,
) -> (r: PyResult<PyObject>)
;

/// `Py::call_method1` calls a method with positional arguments. It gives what Python returns or
/// raises.
pub assume_specification<T>[ Py::<T>::call_method1 ](
    obj: &Py<T>,
    py: Python<'_>,
    name: &str,
    args: impl IntoPy<Py<PyTuple>>,
) -> (r: PyResult<PyObject>)
;

/// `Py::call_method` calls a method with positional and keyword arguments. It gives what Python
/// returns or raises.
pub assume_specification<T>[ Py::<T>::call_method ](
    obj: &Py<T>,
    py: Python<'_>,
    name: &str,
    args: impl IntoPy<Py<PyTuple>>,
    kwargs: Option<&PyDict>,
) -> (r: PyResult<PyObject>)
;

/// `PyDict::new` makes an empty dictionary. What a dictionary holds is left unsaid: it is an object
/// of Python's, which may change it.
pub assume_specification[ PyDict::new ](py: Python<'_>) -> (r: &PyDict)
;

/// `PyDict::set_item` puts an item into the dictionary, or fails as Python does.
pub assume_specification<K, V>[ PyDict::set_item::<K, V> ](
    dict: &PyDict,
    key: K,
    value: V,
) -> (r: PyResult<()>)
    where K: ToPyObject, V: ToPyObject,
;

/// `PyBaseException::new_err` makes a `BaseException` with the given arguments. The exception is an
/// opaque value, told apart from others by the call that made it.
pub assume_specification<A>[ PyBaseException::new_err::<A> ](args: A) -> (r: PyErr)
    where A: PyErrArguments + Send + Sync + 'static,
;

} // verus!
