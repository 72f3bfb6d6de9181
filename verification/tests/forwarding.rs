use cpython::{ObjectProtocol, PyErr, PyModule, PyObject, Python, PythonObject, ToPyObject};
use matplotlib::arguments::{
    flag_positional, legend_named, no_positional, pair_positional, plot_named, scatter_named,
    subplot_positional, text_positional,
};
use matplotlib::backend::Backend;
use matplotlib::bridge::{namespace_name, submodule_name, MatplotlibNative};
use matplotlib::error::{execution_result, initialization_result, BridgeError, Cause};
use matplotlib::text::has_nul;

/// A stand-in for the plotting library: every function appends its name and
/// its arguments to `calls`. `savefig` raises for the path "/missing/out.png".
const STAND_IN: &str = "
import sys, types
calls = []
def recorder(name):
    def record(*args, **kwargs):
        calls.append((name, args, kwargs))
        if name == 'savefig' and args[0] == '/missing/out.png':
            raise OSError('no such directory: /missing')
        if name == 'style.use' and args[0] == 'no-such-style':
            raise OSError('no-such-style is not a valid style')
    return record
package = types.ModuleType('matplotlib')
pyplot = types.ModuleType('matplotlib.pyplot')
for name in ['figure', 'savefig', 'show', 'subplot', 'grid', 'legend', 'xlim', 'ylim', 'scatter', 'plot']:
    setattr(pyplot, name, recorder(name))
pyplot.style = types.ModuleType('matplotlib.style')
pyplot.style.use = recorder('style.use')
package.pyplot = pyplot
sys.modules['matplotlib'] = package
sys.modules['matplotlib.pyplot'] = pyplot
";

fn open_stand_in(py: Python) -> MatplotlibNative {
    py.run(STAND_IN, None, None).unwrap();
    MatplotlibNative::new().unwrap()
}

fn recorded(py: Python) -> String {
    py.eval("repr(calls)", None, None).unwrap().extract::<String>(py).unwrap()
}

fn number(py: Python, value: f64) -> PyObject {
    value.to_py_object(py).into_object()
}

fn series(py: Python, values: &[f64]) -> PyObject {
    values.to_py_object(py).into_object()
}

fn raised(py: Python, expression: &str) -> PyErr {
    match py.eval(expression, None, None) {
        Ok(_) => panic!("the expression did not raise"),
        Err(e) => e,
    }
}

fn text(value: &str) -> Option<String> {
    Some(value.to_string())
}

/// What `str()` gives for the exception that an error holds.
fn exception_text(py: Python, error: BridgeError<PyErr>) -> String {
    let mut exception = match error {
        BridgeError::Initialization(raised) => raised,
        BridgeError::Execution(Cause::Raised(raised)) => raised,
        BridgeError::Execution(Cause::NulInScript) => panic!("the error holds no exception"),
    };
    exception.instance(py).str(py).unwrap().to_string(py).unwrap().into_owned()
}

fn shown(py: Python, object: &PyObject) -> String {
    object.repr(py).unwrap().to_string(py).unwrap().into_owned()
}

#[test]
fn new_fails_with_initialization_when_the_import_fails() {
    let gil = Python::acquire_gil();
    let py = gil.python();
    py.run("import sys\nsys.modules['matplotlib'] = None", None, None).unwrap();
    match MatplotlibNative::new() {
        Ok(_) => panic!("a bridge was made without its namespace"),
        Err(e) => {
            assert!(matches!(e, BridgeError::Initialization(_)));
            assert!(format!("{:?}", e).contains("matplotlib"));
        }
    }
}

#[test]
fn new_opens_a_session_on_the_plotting_namespace() {
    let gil = Python::acquire_gil();
    let py = gil.python();
    let mut bridge = open_stand_in(py);
    assert_eq!(recorded(py), "[]");
    assert!(bridge.figure().is_ok());
    assert_eq!(recorded(py), "[('figure', (), {})]");
}

#[test]
fn with_import_turns_an_exception_into_initialization() {
    let gil = Python::acquire_gil();
    let py = gil.python();
    let failed = raised(py, "__import__('no_such_module_anywhere')");
    match MatplotlibNative::with_import(Python::acquire_gil(), "no_such_module_anywhere", Err(failed)) {
        Ok(_) => panic!("a bridge was made from a failed import"),
        Err(e) => {
            assert!(matches!(e, BridgeError::Initialization(_)));
            assert!(format!("{:?}", e).contains("no_such_module_anywhere"));
            assert_eq!(exception_text(py, e), "No module named 'no_such_module_anywhere'");
        }
    }
}

#[test]
fn with_import_forwards_to_the_module_given() {
    let gil = Python::acquire_gil();
    let py = gil.python();
    py.run(STAND_IN, None, None).unwrap();
    let module = PyModule::import(py, "matplotlib.pyplot");
    let mut bridge =
        MatplotlibNative::with_import(Python::acquire_gil(), "matplotlib.pyplot", module).unwrap();
    assert!(bridge.grid(true).is_ok());
    assert_eq!(recorded(py), "[('grid', (True,), {})]");
}

#[test]
fn subplot_forwards_three_integers_in_order() {
    let gil = Python::acquire_gil();
    let py = gil.python();
    let mut bridge = open_stand_in(py);
    assert!(bridge.subplot(2, 1, 1).is_ok());
    assert!(bridge.subplot(2, 1, 2).is_ok());
    assert_eq!(recorded(py), "[('subplot', (2, 1, 1), {}), ('subplot', (2, 1, 2), {})]");
}

#[test]
fn subplot_forwards_the_largest_integers() {
    let gil = Python::acquire_gil();
    let py = gil.python();
    let mut bridge = open_stand_in(py);
    assert!(bridge.subplot(4294967295, 0, 7).is_ok());
    assert_eq!(recorded(py), "[('subplot', (4294967295, 0, 7), {})]");
}

#[test]
fn scatter_omits_the_absent_named_arguments() {
    let gil = Python::acquire_gil();
    let py = gil.python();
    let mut bridge = open_stand_in(py);
    let xs = series(py, &[1.0, 2.0]);
    let ys = series(py, &[3.0, 4.0]);
    assert!(bridge.scatter(xs, ys, &None, &text("red"), &None).is_ok());
    assert_eq!(recorded(py), "[('scatter', ([1.0, 2.0], [3.0, 4.0]), {'color': 'red'})]");
}

#[test]
fn scatter_forwards_every_present_named_argument() {
    let gil = Python::acquire_gil();
    let py = gil.python();
    let mut bridge = open_stand_in(py);
    let xs = series(py, &[0.5]);
    let ys = series(py, &[-1.25]);
    assert!(bridge.scatter(xs, ys, &text("points"), &text("blue"), &text("x")).is_ok());
    assert_eq!(
        recorded(py),
        "[('scatter', ([0.5], [-1.25]), {'label': 'points', 'color': 'blue', 'marker': 'x'})]"
    );
}

#[test]
fn scatter_does_not_compare_the_lengths() {
    let gil = Python::acquire_gil();
    let py = gil.python();
    let mut bridge = open_stand_in(py);
    let xs = series(py, &[1.0, 2.0]);
    let ys = series(py, &[3.0]);
    assert!(bridge.scatter(xs, ys, &None, &None, &None).is_ok());
    assert_eq!(recorded(py), "[('scatter', ([1.0, 2.0], [3.0]), {})]");
}

#[test]
fn plot_with_nothing_optional_forwards_two_series_only() {
    let gil = Python::acquire_gil();
    let py = gil.python();
    let mut bridge = open_stand_in(py);
    let xs = series(py, &[1.0, 2.0, 3.0]);
    let ys = series(py, &[1.0, 4.0, 9.0]);
    assert!(bridge.plot(xs, ys, &None, &None, &None, &None, None).is_ok());
    assert_eq!(recorded(py), "[('plot', ([1.0, 2.0, 3.0], [1.0, 4.0, 9.0]), {})]");
}

#[test]
fn plot_forwards_every_present_named_argument() {
    let gil = Python::acquire_gil();
    let py = gil.python();
    let mut bridge = open_stand_in(py);
    let xs = series(py, &[1.0]);
    let ys = series(py, &[2.0]);
    let width = Some(number(py, 2.5));
    assert!(bridge
        .plot(xs, ys, &text("line"), &text("green"), &text("o"), &text("--"), width)
        .is_ok());
    assert_eq!(
        recorded(py),
        "[('plot', ([1.0], [2.0]), {'label': 'line', 'color': 'green', 'marker': 'o', 'ls': '--', 'lw': 2.5})]"
    );
}

#[test]
fn plot_forwards_each_named_argument_alone() {
    let gil = Python::acquire_gil();
    let py = gil.python();
    let mut bridge = open_stand_in(py);
    let none: Option<String> = None;
    assert!(bridge
        .plot(series(py, &[]), series(py, &[]), &text("a"), &none, &none, &none, None)
        .is_ok());
    assert!(bridge
        .plot(series(py, &[]), series(py, &[]), &none, &none, &text("+"), &none, None)
        .is_ok());
    assert!(bridge
        .plot(series(py, &[]), series(py, &[]), &none, &none, &none, &text(":"), None)
        .is_ok());
    assert!(bridge
        .plot(series(py, &[]), series(py, &[]), &none, &none, &none, &none, Some(number(py, 0.5)))
        .is_ok());
    assert_eq!(
        recorded(py),
        "[('plot', ([], []), {'label': 'a'}), ('plot', ([], []), {'marker': '+'}), \
         ('plot', ([], []), {'ls': ':'}), ('plot', ([], []), {'lw': 0.5})]"
    );
}

#[test]
fn xlim_forwards_an_inverted_range_unchanged() {
    let gil = Python::acquire_gil();
    let py = gil.python();
    let mut bridge = open_stand_in(py);
    assert!(bridge.xlim((number(py, 5.0), number(py, 1.0))).is_ok());
    assert_eq!(recorded(py), "[('xlim', (5.0, 1.0), {})]");
}

#[test]
fn ylim_forwards_the_two_bounds_in_order() {
    let gil = Python::acquire_gil();
    let py = gil.python();
    let mut bridge = open_stand_in(py);
    assert!(bridge.ylim((number(py, -0.5), number(py, 10.25))).is_ok());
    assert_eq!(recorded(py), "[('ylim', (-0.5, 10.25), {})]");
}

#[test]
fn legend_forwards_the_location_by_name() {
    let gil = Python::acquire_gil();
    let py = gil.python();
    let mut bridge = open_stand_in(py);
    assert!(bridge.legend("upper left").is_ok());
    assert_eq!(recorded(py), "[('legend', (), {'loc': 'upper left'})]");
}

#[test]
fn grid_forwards_one_boolean() {
    let gil = Python::acquire_gil();
    let py = gil.python();
    let mut bridge = open_stand_in(py);
    assert!(bridge.grid(true).is_ok());
    assert!(bridge.grid(false).is_ok());
    assert_eq!(recorded(py), "[('grid', (True,), {}), ('grid', (False,), {})]");
}

#[test]
fn savefig_forwards_the_path_as_it_is() {
    let gil = Python::acquire_gil();
    let py = gil.python();
    let mut bridge = open_stand_in(py);
    assert!(bridge.savefig("out/plot one.png").is_ok());
    assert_eq!(recorded(py), "[('savefig', ('out/plot one.png',), {})]");
}

#[test]
fn show_forwards_no_argument() {
    let gil = Python::acquire_gil();
    let py = gil.python();
    let mut bridge = open_stand_in(py);
    assert!(bridge.show().is_ok());
    assert_eq!(recorded(py), "[('show', (), {})]");
}

#[test]
fn set_style_forwards_the_name_to_the_style_submodule() {
    let gil = Python::acquire_gil();
    let py = gil.python();
    let mut bridge = open_stand_in(py);
    assert!(bridge.set_style("ggplot").is_ok());
    assert_eq!(recorded(py), "[('style.use', ('ggplot',), {})]");
}

#[test]
fn set_style_fails_with_execution_for_an_unknown_style() {
    let gil = Python::acquire_gil();
    let py = gil.python();
    let mut bridge = open_stand_in(py);
    match bridge.set_style("no-such-style") {
        Ok(_) => panic!("an unknown style was accepted"),
        Err(e) => {
            assert!(matches!(e, BridgeError::Execution(Cause::Raised(_))));
            assert!(format!("{:?}", e).contains("not a valid style"));
            assert_eq!(exception_text(py, e), "no-such-style is not a valid style");
        }
    }
}

#[test]
fn set_style_fails_with_execution_without_the_submodule() {
    let gil = Python::acquire_gil();
    let py = gil.python();
    let mut bridge = open_stand_in(py);
    py.run("del sys.modules['matplotlib.pyplot'].style", None, None).unwrap();
    match bridge.set_style("ggplot") {
        Ok(_) => panic!("a style was set without the submodule"),
        Err(e) => assert!(matches!(e, BridgeError::Execution(_))),
    }
    assert_eq!(recorded(py), "[]");
    assert!(bridge.figure().is_ok());
    assert_eq!(recorded(py), "[('figure', (), {})]");
}

#[test]
fn set_style_fails_with_execution_when_style_is_no_module() {
    let gil = Python::acquire_gil();
    let py = gil.python();
    let mut bridge = open_stand_in(py);
    py.run("sys.modules['matplotlib.pyplot'].style = 3", None, None).unwrap();
    match bridge.set_style("ggplot") {
        Ok(_) => panic!("a style was set on something that is no module"),
        Err(e) => assert!(matches!(e, BridgeError::Execution(_))),
    }
    assert_eq!(recorded(py), "[]");
}

#[test]
fn a_call_that_raises_is_an_execution_error_and_the_bridge_goes_on() {
    let gil = Python::acquire_gil();
    let py = gil.python();
    let mut bridge = open_stand_in(py);
    match bridge.savefig("/missing/out.png") {
        Ok(_) => panic!("the call did not fail"),
        Err(e) => {
            assert!(matches!(e, BridgeError::Execution(Cause::Raised(_))));
            assert!(format!("{:?}", e).contains("no such directory: /missing"));
            assert_eq!(exception_text(py, e), "no such directory: /missing");
        }
    }
    assert!(bridge.savefig("fine.png").is_ok());
    assert!(bridge.show().is_ok());
    assert_eq!(
        recorded(py),
        "[('savefig', ('/missing/out.png',), {}), ('savefig', ('fine.png',), {}), ('show', (), {})]"
    );
}

#[test]
fn a_missing_function_is_an_execution_error() {
    let gil = Python::acquire_gil();
    let py = gil.python();
    let mut bridge = open_stand_in(py);
    py.run("del sys.modules['matplotlib.pyplot'].grid", None, None).unwrap();
    match bridge.grid(true) {
        Ok(_) => panic!("a function that is not there was called"),
        Err(e) => {
            assert!(matches!(e, BridgeError::Execution(_)));
            assert!(format!("{:?}", e).contains("grid"));
        }
    }
    assert!(bridge.figure().is_ok());
}

#[test]
fn operations_chain_on_the_handle_they_return() {
    let gil = Python::acquire_gil();
    let py = gil.python();
    let mut bridge = open_stand_in(py);
    let chained = bridge
        .figure()
        .and_then(|b| b.subplot(1, 1, 1))
        .and_then(|b| b.grid(true))
        .and_then(|b| b.legend("best"))
        .and_then(|b| b.show());
    assert!(chained.is_ok());
    assert_eq!(
        recorded(py),
        "[('figure', (), {}), ('subplot', (1, 1, 1), {}), ('grid', (True,), {}), \
         ('legend', (), {'loc': 'best'}), ('show', (), {})]"
    );
}

#[test]
fn exec_runs_statements_in_the_global_scope() {
    let gil = Python::acquire_gil();
    let py = gil.python();
    let mut bridge = open_stand_in(py);
    assert!(bridge.exec("answer = 6 * 7\ncalls.append(('script', answer))").is_ok());
    assert_eq!(recorded(py), "[('script', 42)]");
}

#[test]
fn exec_fails_with_execution_when_the_script_raises() {
    let gil = Python::acquire_gil();
    let py = gil.python();
    let mut bridge = open_stand_in(py);
    match bridge.exec("raise ValueError('bad value in script')") {
        Ok(_) => panic!("the script did not fail"),
        Err(e) => {
            assert!(matches!(e, BridgeError::Execution(Cause::Raised(_))));
            assert!(format!("{:?}", e).contains("bad value in script"));
            assert_eq!(exception_text(py, e), "bad value in script");
        }
    }
    assert!(bridge.exec("calls.append('after')").is_ok());
    assert_eq!(recorded(py), "['after']");
}

#[test]
fn exec_refuses_a_script_with_a_nul_character() {
    let gil = Python::acquire_gil();
    let py = gil.python();
    let mut bridge = open_stand_in(py);
    match bridge.exec("calls.append(1)\0calls.append(2)") {
        Ok(_) => panic!("a script with a NUL character was run"),
        Err(e) => {
            assert!(matches!(e, BridgeError::Execution(Cause::NulInScript)));
        }
    }
    assert_eq!(recorded(py), "[]");
}

#[test]
fn python_gives_a_marker_for_the_same_session() {
    let gil = Python::acquire_gil();
    let mut bridge = open_stand_in(gil.python());
    let low = number(bridge.python(), 0.0);
    let high = number(bridge.python(), 1.5);
    assert!(bridge.xlim((low, high)).is_ok());
    assert_eq!(recorded(bridge.python()), "[('xlim', (0.0, 1.5), {})]");
}

#[test]
fn execution_result_keeps_an_answer_and_names_an_exception() {
    let gil = Python::acquire_gil();
    let py = gil.python();
    let answered: Result<u32, PyErr> = Ok(7);
    assert!(matches!(execution_result(answered), Ok(7)));
    match execution_result::<u32, PyErr>(Err(raised(py, "1 / 0"))) {
        Ok(_) => panic!("an exception became an answer"),
        Err(e) => {
            assert!(matches!(e, BridgeError::Execution(Cause::Raised(_))));
            assert!(format!("{:?}", e).contains("ZeroDivisionError"));
            assert_eq!(exception_text(py, e), "division by zero");
        }
    }
}

#[test]
fn initialization_result_keeps_an_answer_and_names_an_exception() {
    let gil = Python::acquire_gil();
    let py = gil.python();
    let answered: Result<u32, PyErr> = Ok(9);
    assert!(matches!(initialization_result(answered), Ok(9)));
    match initialization_result::<u32, PyErr>(Err(raised(py, "int('x')"))) {
        Ok(_) => panic!("an exception became an answer"),
        Err(e) => {
            assert!(matches!(e, BridgeError::Initialization(_)));
            assert!(format!("{:?}", e).contains("ValueError"));
            assert_eq!(exception_text(py, e), "invalid literal for int() with base 10: 'x'");
        }
    }
}

#[test]
fn has_nul_finds_the_character_wherever_it_stands() {
    assert!(!has_nul(""));
    assert!(!has_nul("import math"));
    assert!(!has_nul("zero 0 is no NUL"));
    assert!(has_nul("\0"));
    assert!(has_nul("\0start"));
    assert!(has_nul("mid\0dle"));
    assert!(has_nul("end\0"));
    assert!(has_nul("é\0ü"));
}

#[test]
fn an_empty_text_is_present_and_is_forwarded() {
    let gil = Python::acquire_gil();
    let py = gil.python();
    let mut bridge = open_stand_in(py);
    assert!(bridge
        .scatter(series(py, &[1.0]), series(py, &[1.0]), &text(""), &None, &text(""))
        .is_ok());
    assert_eq!(recorded(py), "[('scatter', ([1.0], [1.0]), {'label': '', 'marker': ''})]");
}

#[test]
fn text_is_forwarded_character_by_character() {
    let gil = Python::acquire_gil();
    let py = gil.python();
    let mut bridge = open_stand_in(py);
    assert!(bridge.savefig("größe/图 1.png").is_ok());
    assert!(bridge.legend("a\0b").is_ok());
    let same = py
        .eval(
            "calls == [('savefig', ('gr\\u00f6\\u00dfe/\\u56fe 1.png',), {}), ('legend', (), {'loc': 'a\\x00b'})]",
            None,
            None,
        )
        .unwrap()
        .extract::<bool>(py)
        .unwrap();
    assert!(same);
}

#[test]
fn numbers_reach_the_library_bit_for_bit() {
    let gil = Python::acquire_gil();
    let py = gil.python();
    let mut bridge = open_stand_in(py);
    let tiny = f64::from_bits(1);
    let huge = f64::MAX;
    assert!(bridge.ylim((number(py, tiny), number(py, huge))).is_ok());
    let low = py.eval("calls[0][1][0]", None, None).unwrap().extract::<f64>(py).unwrap();
    let high = py.eval("calls[0][1][1]", None, None).unwrap().extract::<f64>(py).unwrap();
    assert_eq!(low.to_bits(), 1);
    assert_eq!(high.to_bits(), f64::MAX.to_bits());
}

#[test]
fn two_bridges_share_the_runtime() {
    let gil = Python::acquire_gil();
    let py = gil.python();
    let mut first = open_stand_in(py);
    let mut second = MatplotlibNative::new().unwrap();
    assert!(first.figure().is_ok());
    assert!(second.show().is_ok());
    assert!(first.grid(false).is_ok());
    assert_eq!(recorded(py), "[('figure', (), {}), ('show', (), {}), ('grid', (False,), {})]");
}

#[test]
fn exec_chains_with_the_drawing_operations() {
    let gil = Python::acquire_gil();
    let py = gil.python();
    let mut bridge = open_stand_in(py);
    let chained = bridge
        .exec("calls.append('first')")
        .and_then(|b| b.figure())
        .and_then(|b| b.exec("calls.append('last')"));
    assert!(chained.is_ok());
    assert_eq!(recorded(py), "['first', ('figure', (), {}), 'last']");
}

#[test]
fn namespace_name_is_the_plotting_namespace() {
    assert_eq!(namespace_name(), "matplotlib.pyplot");
}

#[test]
fn submodule_name_is_style() {
    assert_eq!(submodule_name(), "style");
}

#[test]
fn new_imports_the_module_of_that_name_and_no_other() {
    let gil = Python::acquire_gil();
    let py = gil.python();
    py.run(STAND_IN, None, None).unwrap();
    py.run("sys.modules['os'].figure = recorder('os.figure')", None, None).unwrap();
    let mut bridge = MatplotlibNative::new().unwrap();
    assert!(bridge.figure().is_ok());
    assert_eq!(recorded(py), "[('figure', (), {})]");
}

#[test]
fn use_style_hands_nothing_over_after_a_failed_lookup() {
    let gil = Python::acquire_gil();
    let py = gil.python();
    let mut bridge = open_stand_in(py);
    let failed = raised(py, "sys.modules['matplotlib.pyplot'].no_style_here");
    match bridge.use_style(Err(failed), "ggplot") {
        Ok(_) => panic!("a style was set without the submodule"),
        Err(e) => {
            assert!(matches!(e, BridgeError::Execution(Cause::Raised(_))));
            assert_eq!(
                exception_text(py, e),
                "module 'matplotlib.pyplot' has no attribute 'no_style_here'"
            );
        }
    }
    assert_eq!(recorded(py), "[]");
}

#[test]
fn use_style_calls_the_submodule_that_was_found() {
    let gil = Python::acquire_gil();
    let py = gil.python();
    let mut bridge = open_stand_in(py);
    let found = PyModule::import(py, "matplotlib.pyplot")
        .and_then(|plt| plt.get(py, "style"))
        .and_then(|style| style.extract::<PyModule>(py));
    assert!(bridge.use_style(found, "dark_background").is_ok());
    assert_eq!(recorded(py), "[('style.use', ('dark_background',), {})]");
}

#[test]
fn a_failed_call_without_options_was_handed_over() {
    let gil = Python::acquire_gil();
    let py = gil.python();
    let mut bridge = open_stand_in(py);
    py.run(
        "def refuse(*args, **kwargs):\n    calls.append(('refused', args, kwargs))\n    raise ValueError('x and y must be the same size')\nsys.modules['matplotlib.pyplot'].scatter = refuse\nsys.modules['matplotlib.pyplot'].plot = refuse",
        None,
        None,
    )
    .unwrap();
    match bridge.scatter(series(py, &[1.0, 2.0]), series(py, &[3.0]), &None, &None, &None) {
        Ok(_) => panic!("the call did not fail"),
        Err(e) => assert_eq!(exception_text(py, e), "x and y must be the same size"),
    }
    match bridge.plot(series(py, &[1.0]), series(py, &[]), &None, &None, &None, &None, None) {
        Ok(_) => panic!("the call did not fail"),
        Err(e) => assert_eq!(exception_text(py, e), "x and y must be the same size"),
    }
    assert_eq!(
        recorded(py),
        "[('refused', ([1.0, 2.0], [3.0]), {}), ('refused', ([1.0], []), {})]"
    );
}

#[test]
fn subplot_with_an_index_out_of_range_is_handed_over() {
    let gil = Python::acquire_gil();
    let py = gil.python();
    let mut bridge = open_stand_in(py);
    py.run(
        "def refuse(*args, **kwargs):\n    calls.append(('subplot', args, kwargs))\n    raise ValueError('num must be an integer with 1 <= num <= 1, not 0')\nsys.modules['matplotlib.pyplot'].subplot = refuse",
        None,
        None,
    )
    .unwrap();
    match bridge.subplot(1, 1, 0) {
        Ok(_) => panic!("the call did not fail"),
        Err(e) => {
            assert_eq!(exception_text(py, e), "num must be an integer with 1 <= num <= 1, not 0")
        }
    }
    assert_eq!(recorded(py), "[('subplot', (1, 1, 0), {})]");
}

#[test]
fn positional_tuples_hold_their_items_in_order() {
    let gil = Python::acquire_gil();
    let py = gil.python();
    assert_eq!(shown(py, no_positional(py).as_object()), "()");
    assert_eq!(shown(py, text_positional(py, "a b.png").as_object()), "('a b.png',)");
    assert_eq!(shown(py, subplot_positional(py, 3, 2, 5).as_object()), "(3, 2, 5)");
    assert_eq!(shown(py, flag_positional(py, true).as_object()), "(True,)");
    assert_eq!(shown(py, flag_positional(py, false).as_object()), "(False,)");
    let pair = pair_positional(py, number(py, 5.0), series(py, &[1.0, 0.25]));
    assert_eq!(shown(py, pair.as_object()), "(5.0, [1.0, 0.25])");
}

#[test]
fn named_dictionaries_hold_the_present_options_only() {
    let gil = Python::acquire_gil();
    let py = gil.python();
    let none: Option<String> = None;
    assert_eq!(shown(py, legend_named(py, "best").unwrap().as_object()), "{'loc': 'best'}");
    assert_eq!(shown(py, scatter_named(py, &none, &none, &none).unwrap().as_object()), "{}");
    assert_eq!(
        shown(py, scatter_named(py, &none, &text("red"), &none).unwrap().as_object()),
        "{'color': 'red'}"
    );
    assert_eq!(
        shown(py, scatter_named(py, &text("l"), &text("c"), &text("m")).unwrap().as_object()),
        "{'label': 'l', 'color': 'c', 'marker': 'm'}"
    );
    assert_eq!(
        shown(py, plot_named(py, &none, &none, &none, &none, None).unwrap().as_object()),
        "{}"
    );
    assert_eq!(
        shown(
            py,
            plot_named(py, &none, &none, &text("o"), &text("-."), Some(number(py, 1.5)))
                .unwrap()
                .as_object()
        ),
        "{'marker': 'o', 'ls': '-.', 'lw': 1.5}"
    );
}
