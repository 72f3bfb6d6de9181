//! The Python objects that a forwarded call takes: its tuple of positional
//! arguments and its dictionary of named arguments.

use vstd::prelude::*;
use crate::model::{
    legend_request, plot_kwargs, scatter_kwargs, text_option, with_option, Value,
};
use crate::runtime::{
    bool_object, dict_entries, dict_set, object_value, text_object, tuple_items, uint_object,
    values_of,
};
use cpython::{PyDict, PyErr, PyObject, PyTuple, Python};

verus! {

/// What the plotting library receives for an optional object.
pub open spec fn object_option(object: Option<PyObject>) -> Option<Value> {
    match object {
        Some(o) => Some(object_value(o)),
        None => None,
    }
}

/// The empty tuple, for a call without positional arguments.
pub fn no_positional(py: Python) -> (args: PyTuple)
    ensures
        tuple_items(args) == Seq::<Value>::empty(),
{
    let items: Vec<PyObject> = Vec::new();
    assert(values_of(items@) == Seq::<Value>::empty());
    PyTuple::new(py, items.as_slice())
}

/// The tuple that holds `text` and nothing else.
pub fn text_positional(py: Python, text: &str) -> (args: PyTuple)
    ensures
        tuple_items(args) == seq![Value::Text(text@)],
{
    let mut items: Vec<PyObject> = Vec::new();
    items.push(text_object(py, text));
    assert(values_of(items@) == seq![Value::Text(text@)]);
    PyTuple::new(py, items.as_slice())
}

/// The tuple (`i`, `j`, `k`), in this order.
pub fn subplot_positional(py: Python, i: u32, j: u32, k: u32) -> (args: PyTuple)
    ensures
        tuple_items(args) == seq![Value::UInt(i), Value::UInt(j), Value::UInt(k)],
{
    let mut items: Vec<PyObject> = Vec::new();
    items.push(uint_object(py, i));
    items.push(uint_object(py, j));
    items.push(uint_object(py, k));
    assert(values_of(items@) == seq![Value::UInt(i), Value::UInt(j), Value::UInt(k)]);
    PyTuple::new(py, items.as_slice())
}

/// The tuple that holds `flag` and nothing else.
pub fn flag_positional(py: Python, flag: bool) -> (args: PyTuple)
    ensures
        tuple_items(args) == seq![Value::Bool(flag)],
{
    let mut items: Vec<PyObject> = Vec::new();
    items.push(bool_object(py, flag));
    assert(values_of(items@) == seq![Value::Bool(flag)]);
    PyTuple::new(py, items.as_slice())
}

/// The tuple (`first`, `second`) of two objects as they were given.
pub fn pair_positional(py: Python, first: PyObject, second: PyObject) -> (args: PyTuple)
    ensures
        tuple_items(args) == seq![object_value(first), object_value(second)],
{
    let mut items: Vec<PyObject> = Vec::new();
    items.push(first);
    items.push(second);
    assert(values_of(items@) == seq![object_value(first), object_value(second)]);
    PyTuple::new(py, items.as_slice())
}

/// Binds `key` to `value` in `kwargs` when a value is present, and leaves
/// `kwargs` as it is when none is. Only a present value can fail.
fn put_value(kwargs: &mut PyDict, py: Python, key: &str, value: Option<PyObject>) -> (done: Result<
    (),
    PyErr,
>)
    ensures
        done is Ok ==> dict_entries(*final(kwargs)) == with_option(
            dict_entries(*old(kwargs)),
            key@,
            object_option(value),
        ),
        value is None ==> done is Ok,
{
    match value {
        Some(object) => dict_set(kwargs, py, key, object),
        None => Ok(()),
    }
}

/// Binds `key` to `text` in `kwargs` when a text is present, and leaves
/// `kwargs` as it is when none is. Only a present text can fail.
fn put_text(kwargs: &mut PyDict, py: Python, key: &str, text: &Option<String>) -> (done: Result<
    (),
    PyErr,
>)
    ensures
        done is Ok ==> dict_entries(*final(kwargs)) == with_option(
            dict_entries(*old(kwargs)),
            key@,
            text_option(*text),
        ),
        *text is None ==> done is Ok,
{
    match text {
        Some(t) => dict_set(kwargs, py, key, text_object(py, t.as_str())),
        None => Ok(()),
    }
}

/// The named arguments of `legend`: `loc`, bound to `loc`.
///
/// Fails with the exception that the runtime raised while the dictionary
/// was filled.
pub fn legend_named(py: Python, loc: &str) -> (res: Result<PyDict, PyErr>)
    ensures
        res matches Ok(kwargs) ==> dict_entries(kwargs) == legend_request(loc@).kwargs,
{
    let mut kwargs = PyDict::new(py);
    match dict_set(&mut kwargs, py, "loc", text_object(py, loc)) {
        Ok(_) => Ok(kwargs),
        Err(raised) => Err(raised),
    }
}

/// The named arguments of `scatter`: each of `label`, `color` and `marker`
/// that is present, under its own name, and nothing else.
///
/// Fails with the exception that the runtime raised while the dictionary
/// was filled; with nothing present there is nothing to fill.
pub fn scatter_named(
    py: Python,
    label: &Option<String>,
    color: &Option<String>,
    marker: &Option<String>,
) -> (res: Result<PyDict, PyErr>)
    ensures
        res matches Ok(kwargs) ==> dict_entries(kwargs) == scatter_kwargs(*label, *color, *marker),
        *label is None && *color is None && *marker is None ==> res is Ok,
{
    let mut kwargs = PyDict::new(py);
    put_text(&mut kwargs, py, "label", label)?;
    put_text(&mut kwargs, py, "color", color)?;
    put_text(&mut kwargs, py, "marker", marker)?;
    Ok(kwargs)
}

/// The named arguments of `plot`: those of `scatter`, then the line style
/// as `ls` and the line width as `lw`, each only when it is present.
///
/// Fails with the exception that the runtime raised while the dictionary
/// was filled; with nothing present there is nothing to fill.
pub fn plot_named(
    py: Python,
    label: &Option<String>,
    color: &Option<String>,
    marker: &Option<String>,
    linestyle: &Option<String>,
    linewidth: Option<PyObject>,
) -> (res: Result<PyDict, PyErr>)
    ensures
        res matches Ok(kwargs) ==> dict_entries(kwargs) == plot_kwargs(
            *label,
            *color,
            *marker,
            *linestyle,
            object_option(linewidth),
        ),
        *label is None && *color is None && *marker is None && *linestyle is None
            && linewidth is None ==> res is Ok,
{
    let mut kwargs = PyDict::new(py);
    put_text(&mut kwargs, py, "label", label)?;
    put_text(&mut kwargs, py, "color", color)?;
    put_text(&mut kwargs, py, "marker", marker)?;
    put_text(&mut kwargs, py, "ls", linestyle)?;
    put_value(&mut kwargs, py, "lw", linewidth)?;
    Ok(kwargs)
}

} // verus!
