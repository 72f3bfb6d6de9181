//! The embedded Python runtime, as far as the bridge relies on it.
//!
//! Nothing in this file is proved. Each item states what the bridge takes for
//! granted about the `cpython` crate; everything else in the library is
//! verified against these statements.

use vstd::prelude::*;
use crate::model::{no_kwargs, Value};
use cpython::{FromPyObject, GILGuard, PyDict, PyErr, PyModule, PyObject, PyTuple, Python};
use cpython::{PythonObject, ToPyObject};

verus! {

/// `cpython::Python`, the marker that the interpreter's lock is held.
#[verifier::external_type_specification]
#[verifier::external_body]
pub struct ExPython<'p>(Python<'p>);

/// `cpython::GILGuard`, which holds the interpreter's lock until it is dropped.
#[verifier::external_type_specification]
#[verifier::external_body]
pub struct ExGILGuard(GILGuard);

/// `cpython::PyObject`, a counted reference to any Python object.
#[verifier::external_type_specification]
#[verifier::external_body]
pub struct ExPyObject(PyObject);

/// `cpython::PyErr`, an exception that was raised in the interpreter.
#[verifier::external_type_specification]
#[verifier::external_body]
pub struct ExPyErr(PyErr);

/// `cpython::PyModule`, a Python module object.
#[verifier::external_type_specification]
#[verifier::external_body]
pub struct ExPyModule(PyModule);

/// `cpython::PyTuple`, a Python `tuple`.
#[verifier::external_type_specification]
#[verifier::external_body]
pub struct ExPyTuple(PyTuple);

/// `cpython::PyDict`, a Python `dict`.
#[verifier::external_type_specification]
#[verifier::external_body]
pub struct ExPyDict(PyDict);

/// What the Python object behind `obj` holds at the time it is handed over.
pub uninterp spec fn object_value(obj: PyObject) -> Value;

/// The items of a Python tuple, first to last.
pub uninterp spec fn tuple_items(tuple: PyTuple) -> Seq<Value>;

/// The entries of a Python dictionary whose keys are strings.
pub uninterp spec fn dict_entries(dict: PyDict) -> Map<Seq<char>, Value>;

/// What each of `objects` holds, in the same order.
pub open spec fn values_of(objects: Seq<PyObject>) -> Seq<Value> {
    Seq::new(objects.len(), |i: int| object_value(objects[i]))
}

/// `Python::acquire_gil` starts the interpreter if it is not running and
/// takes its lock. Nothing is claimed of the guard. The call has no
/// arguments to leave out: it does not return where the interpreter cannot
/// be started, and it panics where someone else has started an interpreter
/// without thread support.
pub assume_specification<'p>[ Python::<'p>::acquire_gil ]() -> (guard: GILGuard);

/// `GILGuard::python` hands out the marker for the lock that `guard` holds.
/// Nothing is claimed of the marker.
pub assume_specification<'a>[ GILGuard::python ](guard: &'a GILGuard) -> (py: Python<'a>);

/// `PyModule::import` imports the module called `name`. It turns `name` into
/// a C string and panics on a NUL character, so such names are left out.
/// Whether the import succeeds is up to the interpreter.
pub assume_specification[ PyModule::import ](py: Python, name: &str) -> (module: Result<
    PyModule,
    PyErr,
>)
    requires
        !name@.contains('\0'),
;

/// `Python::run` executes statements; with no `globals` given they run in the
/// scope of `__main__`. It turns `code` into a C string and panics on a NUL
/// character, so such code is left out. Whether the statements raise is up to
/// the interpreter.
pub assume_specification<'p>[ Python::<'p>::run ](
    py: Python<'p>,
    code: &str,
    globals: Option<&PyDict>,
    locals: Option<&PyDict>,
) -> (done: Result<(), PyErr>)
    requires
        !code@.contains('\0'),
;

/// `PyModule::get` is `getattr(module, name)`. What comes back is up to the
/// interpreter.
pub assume_specification[ PyModule::get ](module: &PyModule, py: Python, name: &str) -> (member:
    Result<PyObject, PyErr>);

/// `PyDict::new` makes an empty dictionary.
pub assume_specification[ PyDict::new ](py: Python) -> (dict: PyDict)
    ensures
        dict_entries(dict) == no_kwargs(),
;

/// `PyTuple::new` makes a tuple of the given objects, in the given order.
pub assume_specification[ PyTuple::new ](py: Python, elements: &[PyObject]) -> (tuple: PyTuple)
    ensures
        tuple_items(tuple) == values_of(elements@),
;

/// `<str as ToPyObject>::to_py_object` makes a Python `str` with the
/// characters of `text`.
#[verifier::external_body]
pub(crate) fn text_object(py: Python, text: &str) -> (obj: PyObject)
    ensures
        object_value(obj) == Value::Text(text@),
{
    text.to_py_object(py).into_object()
}

/// `<u32 as ToPyObject>::to_py_object` makes a Python `int` equal to `number`.
#[verifier::external_body]
pub(crate) fn uint_object(py: Python, number: u32) -> (obj: PyObject)
    ensures
        object_value(obj) == Value::UInt(number),
{
    number.to_py_object(py).into_object()
}

/// `<bool as ToPyObject>::to_py_object` gives `True` for `true` and `False`
/// for `false`.
#[verifier::external_body]
pub(crate) fn bool_object(py: Python, flag: bool) -> (obj: PyObject)
    ensures
        object_value(obj) == Value::Bool(flag),
{
    flag.to_py_object(py).into_object()
}

/// `PyDict::set_item` is `dict[key] = value`. Where it reports success, the
/// dictionary holds what it held before, with `key` now bound to `value`.
#[verifier::external_body]
pub(crate) fn dict_set(dict: &mut PyDict, py: Python, key: &str, value: PyObject) -> (done: Result<
    (),
    PyErr,
>)
    ensures
        done is Ok ==> dict_entries(*final(dict)) == dict_entries(*old(dict)).insert(
            key@,
            object_value(value),
        ),
{
    dict.set_item(py, key, value)
}

/// `<PyModule as FromPyObject>::extract` takes `obj` for a module, and fails
/// where it is none. Nothing is claimed of the result.
#[verifier::external_body]
pub(crate) fn as_module(py: Python, obj: &PyObject) -> (module: Result<PyModule, PyErr>) {
    PyModule::extract(py, obj)
}

/// `PyModule::call` is `getattr(module, name)(*args, **kwargs)`. Whether the
/// call raises, and what it returns, is up to the interpreter.
#[verifier::external_body]
pub(crate) fn call_function(
    module: &PyModule,
    py: Python,
    name: &str,
    args: &PyTuple,
    kwargs: Option<&PyDict>,
) -> (outcome: Result<PyObject, PyErr>) {
    module.call(py, name, args, kwargs)
}

} // verus!
