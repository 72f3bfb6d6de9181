use vstd::prelude::*;
use crate::arguments::{
    flag_positional, legend_named, no_positional, object_option, pair_positional, plot_named,
    scatter_named, subplot_positional, text_positional,
};
use crate::backend::{call_raised, script_raised, with_call, with_script, Backend};
use crate::error::{execution_result, initialization_result, BridgeError, Cause};
use crate::model::{
    figure_request, grid_request, no_kwargs, plot_request, savefig_request, scatter_request,
    show_request, style_request, subplot_request, xlim_request, ylim_request, Event, Exchange,
    Request, Target, Value,
};
use crate::runtime::{as_module, call_function, dict_entries, object_value, tuple_items};
use crate::text::has_nul;
use cpython::{GILGuard, PyDict, PyErr, PyModule, PyObject, PyTuple, Python};

verus! {

/// The bridge to a plotting namespace inside an embedded Python session.
///
/// A value of this type exists only while its session is open: `new` opens
/// the session and imports the namespace, and dropping the value releases
/// both. Every operation runs against this one session.
pub struct MatplotlibNative {
    gil: GILGuard,
    plt: PyModule,
    origin: Ghost<Seq<char>>,
    sent: Ghost<Seq<Exchange<PyErr>>>,
}

/// The name under which the plotting namespace is imported.
pub fn namespace_name() -> (name: &'static str)
    ensures
        name@ == "matplotlib.pyplot"@,
        !name@.contains('\0'),
{
    proof {
        reveal_strlit("matplotlib.pyplot");
    }
    "matplotlib.pyplot"
}

/// The name of the submodule of the plotting namespace that holds the styles.
pub fn submodule_name() -> (name: &'static str)
    ensures
        name@ == "style"@,
{
    "style"
}

/// The exception in the runtime's answer, or none where it raised nothing.
pub open spec fn raised_in<T>(outcome: Result<T, PyErr>) -> Option<PyErr> {
    match outcome {
        Ok(_) => None,
        Err(raised) => Some(raised),
    }
}

/// The named arguments that a call receives from an optional dictionary.
pub open spec fn named_arguments(kwargs: Option<PyDict>) -> Map<Seq<char>, Value> {
    match kwargs {
        Some(d) => dict_entries(d),
        None => no_kwargs(),
    }
}

/// The namespace that a call goes to: the `style` submodule where one is
/// given, the plotting namespace itself where none is.
pub open spec fn target_of(style: Option<PyModule>) -> Target {
    match style {
        Some(_) => Target::Style,
        None => Target::Pyplot,
    }
}

impl MatplotlibNative {
    /// The lock on the embedded runtime that this bridge holds.
    pub closed spec fn session(&self) -> GILGuard {
        self.gil
    }

    /// The plotting namespace that this bridge forwards to.
    pub closed spec fn namespace(&self) -> PyModule {
        self.plt
    }

    /// The name under which the namespace was imported.
    pub closed spec fn imported(&self) -> Seq<char> {
        self.origin@
    }

    /// This bridge holds the session, the namespace and the imported name of
    /// `other`.
    pub open spec fn same_session(&self, other: Self) -> bool {
        &&& self.session() == other.session()
        &&& self.namespace() == other.namespace()
        &&& self.imported() == other.imported()
    }

    /// Opens a session: starts the embedded runtime if needed, takes its
    /// lock and imports the module called `namespace_name()`.
    ///
    /// Fails with `Initialization` where the import fails; no bridge exists
    /// then. A new bridge has forwarded nothing.
    pub fn new() -> (res: Result<MatplotlibNative, BridgeError<PyErr>>)
        ensures
            res matches Ok(bridge) ==> bridge.imported() == "matplotlib.pyplot"@
                && bridge.forwarded().len() == 0,
            res matches Err(e) ==> e is Initialization,
    {
        let gil = Python::acquire_gil();
        let name = namespace_name();
        let imported = PyModule::import(gil.python(), name);
        MatplotlibNative::with_import(gil, name, imported)
    }

    /// The bridge for a session whose lock is held by `gil`, given what the
    /// import of the module called `name` came to.
    ///
    /// A module that was imported becomes the namespace of a new bridge that
    /// has forwarded nothing; an exception becomes `Initialization` with
    /// that exception.
    pub fn with_import(gil: GILGuard, name: &str, imported: Result<PyModule, PyErr>) -> (res: Result<
        MatplotlibNative,
        BridgeError<PyErr>,
    >)
        ensures
            imported matches Ok(module) ==> (res matches Ok(bridge) && bridge.session() == gil
                && bridge.namespace() == module && bridge.imported() == name@
                && bridge.forwarded().len() == 0),
            imported matches Err(raised) ==> (res matches Err(e) && e
                == BridgeError::Initialization(raised)),
    {
        match initialization_result(imported) {
            Ok(plt) => Ok(
                MatplotlibNative { gil, plt, origin: Ghost(name@), sent: Ghost(Seq::empty()) },
            ),
            Err(e) => Err(e),
        }
    }

    /// The marker that the session's lock is held, for building the Python
    /// objects that an operation takes.
    ///
    /// The marker is a zero-sized value that holds nothing: its type has one
    /// value only, and what it says, that the lock is held for as long as the
    /// borrow of this bridge lasts, is said by its lifetime.
    pub fn python<'a>(&'a self) -> (py: Python<'a>) {
        self.gil.python()
    }

    /// Runs the statements of `script` in the global scope of the session.
    ///
    /// A script with a NUL character is refused with `Cause::NulInScript`
    /// and nothing is run. Any other script is handed to the runtime as it
    /// is; the result is `Ok` where it ran through, and `Execution` with the
    /// exception where it raised.
    pub fn exec(&mut self, script: &str) -> (res: Result<&mut Self, BridgeError<PyErr>>)
        ensures
            script@.contains('\0') ==> (res matches Err(e) && e == BridgeError::Execution(
                Cause::<PyErr>::NulInScript,
            ) && final(self).forwarded() == old(self).forwarded()),
            !script@.contains('\0') ==> (res matches Err(e) ==> script_raised(
                old(self).forwarded(),
                final(self).forwarded(),
                script@,
                e,
            )),
            res matches Ok(handle) ==> handle.forwarded() == with_script(
                old(self).forwarded(),
                script@,
                None,
            ) && handle.same_session(*old(self)) && *final(handle) == *final(self),
            res is Err ==> final(self).same_session(*old(self)),
    {
        if has_nul(script) {
            return Err(BridgeError::Execution(Cause::NulInScript));
        }
        let outcome = self.gil.python().run(script, None, None);
        self.settle(Ghost(Event::Script(script@)), outcome)
    }

    /// Records `event` with what came of it, and turns the runtime's answer
    /// into the operation's result: the bridge itself where nothing was
    /// raised, `Execution` with the exception where one was.
    fn settle<T>(&mut self, event: Ghost<Event>, outcome: Result<T, PyErr>) -> (res: Result<
        &mut Self,
        BridgeError<PyErr>,
    >)
        ensures
            outcome is Ok ==> (res matches Ok(handle) && handle.forwarded() == old(
                self,
            ).forwarded().push(Exchange { event: event@, raised: None })
                && handle.same_session(*old(self)) && *final(handle) == *final(self)),
            outcome matches Err(raised) ==> (res matches Err(e) && e == BridgeError::Execution(
                Cause::Raised(raised),
            ) && final(self).forwarded() == old(self).forwarded().push(
                Exchange { event: event@, raised: Some(raised) },
            ) && final(self).same_session(*old(self))),
    {
        self.sent = Ghost(self.sent@.push(Exchange { event: event@, raised: raised_in(outcome) }));
        match execution_result(outcome) {
            Ok(_) => Ok(self),
            Err(e) => Err(e),
        }
    }

    /// Hands one call to the embedded runtime: `function` of the `style`
    /// submodule where one is given, else of the plotting namespace, with
    /// `args` as its positional and `kwargs` as its named arguments.
    fn hand_over(
        &mut self,
        style: Option<PyModule>,
        function: &str,
        args: PyTuple,
        kwargs: Option<PyDict>,
    ) -> (res: Result<&mut Self, BridgeError<PyErr>>)
        ensures
            ({
                let request = Request {
                    target: target_of(style),
                    function: function@,
                    args: tuple_items(args),
                    kwargs: named_arguments(kwargs),
                };
                &&& res matches Ok(handle) ==> handle.forwarded() == with_call(
                    old(self).forwarded(),
                    request,
                    None,
                ) && handle.same_session(*old(self)) && *final(handle) == *final(self)
                &&& res matches Err(e) ==> call_raised(
                    old(self).forwarded(),
                    final(self).forwarded(),
                    request,
                    e,
                ) && final(self).same_session(*old(self))
            }),
    {
        let ghost request = Request {
            target: target_of(style),
            function: function@,
            args: tuple_items(args),
            kwargs: named_arguments(kwargs),
        };
        let py = self.gil.python();
        let outcome = match &style {
            Some(module) => call_function(module, py, function, &args, kwargs.as_ref()),
            None => call_function(&self.plt, py, function, &args, kwargs.as_ref()),
        };
        self.settle(Ghost(Event::Call(request)), outcome)
    }

    /// Looks up the submodule called `submodule_name()` in the plotting
    /// namespace. What the lookup comes to is up to the runtime.
    fn find_style(&self) -> (found: Result<PyModule, PyErr>) {
        let py = self.gil.python();
        match self.plt.get(py, submodule_name()) {
            Ok(member) => as_module(py, &member),
            Err(raised) => Err(raised),
        }
    }

    /// Activates the style `stylename`, given what the lookup of the `style`
    /// submodule came to.
    ///
    /// A lookup that failed fails the operation with its exception, and
    /// nothing is handed over. A submodule that was found receives the call
    /// `use(stylename)`.
    pub fn use_style(&mut self, found: Result<PyModule, PyErr>, stylename: &str) -> (res: Result<
        &mut Self,
        BridgeError<PyErr>,
    >)
        ensures
            found matches Err(raised) ==> (res matches Err(e) && e == BridgeError::Execution(
                Cause::Raised(raised),
            ) && final(self).forwarded() == old(self).forwarded()),
            found is Ok ==> (res matches Err(e) ==> call_raised(
                old(self).forwarded(),
                final(self).forwarded(),
                style_request(stylename@),
                e,
            )),
            res matches Ok(handle) ==> found is Ok && handle.forwarded() == with_call(
                old(self).forwarded(),
                style_request(stylename@),
                None,
            ) && handle.same_session(*old(self)) && *final(handle) == *final(self),
            res is Err ==> final(self).same_session(*old(self)),
    {
        match execution_result(found) {
            Ok(style) => {
                let args = text_positional(self.gil.python(), stylename);
                self.hand_over(Some(style), "use", args, None)
            },
            Err(e) => Err(e),
        }
    }
}

impl Backend for MatplotlibNative {
    type Number = PyObject;

    type Series = PyObject;

    type Raised = PyErr;

    closed spec fn forwarded(&self) -> Seq<Exchange<PyErr>> {
        self.sent@
    }

    open spec fn number_value(number: PyObject) -> Value {
        object_value(number)
    }

    open spec fn series_value(series: PyObject) -> Value {
        object_value(series)
    }

    fn figure(&mut self) -> (res: Result<&mut Self, BridgeError<PyErr>>)
        ensures
            res matches Ok(handle) ==> handle.same_session(*old(self)),
            res matches Err(e) ==> final(self).same_session(*old(self)) && call_raised(
                old(self).forwarded(),
                final(self).forwarded(),
                figure_request(),
                e,
            ),
    {
        let args = no_positional(self.gil.python());
        self.hand_over(None, "figure", args, None)
    }

    fn savefig(&mut self, filename: &str) -> (res: Result<&mut Self, BridgeError<PyErr>>)
        ensures
            res matches Ok(handle) ==> handle.same_session(*old(self)),
            res matches Err(e) ==> final(self).same_session(*old(self)) && call_raised(
                old(self).forwarded(),
                final(self).forwarded(),
                savefig_request(filename@),
                e,
            ),
    {
        let args = text_positional(self.gil.python(), filename);
        self.hand_over(None, "savefig", args, None)
    }

    fn show(&mut self) -> (res: Result<&mut Self, BridgeError<PyErr>>)
        ensures
            res matches Ok(handle) ==> handle.same_session(*old(self)),
            res matches Err(e) ==> final(self).same_session(*old(self)) && call_raised(
                old(self).forwarded(),
                final(self).forwarded(),
                show_request(),
                e,
            ),
    {
        let args = no_positional(self.gil.python());
        self.hand_over(None, "show", args, None)
    }

    fn subplot(&mut self, i: u32, j: u32, k: u32) -> (res: Result<&mut Self, BridgeError<PyErr>>)
        ensures
            res matches Ok(handle) ==> handle.same_session(*old(self)),
            res matches Err(e) ==> final(self).same_session(*old(self)) && call_raised(
                old(self).forwarded(),
                final(self).forwarded(),
                subplot_request(i, j, k),
                e,
            ),
    {
        let args = subplot_positional(self.gil.python(), i, j, k);
        self.hand_over(None, "subplot", args, None)
    }

    fn grid(&mut self, grid: bool) -> (res: Result<&mut Self, BridgeError<PyErr>>)
        ensures
            res matches Ok(handle) ==> handle.same_session(*old(self)),
            res matches Err(e) ==> final(self).same_session(*old(self)) && call_raised(
                old(self).forwarded(),
                final(self).forwarded(),
                grid_request(grid),
                e,
            ),
    {
        let args = flag_positional(self.gil.python(), grid);
        self.hand_over(None, "grid", args, None)
    }

    fn legend(&mut self, loc: &str) -> (res: Result<&mut Self, BridgeError<PyErr>>)
        ensures
            res matches Ok(handle) ==> handle.same_session(*old(self)),
            res is Err ==> final(self).same_session(*old(self)),
    {
        let py = self.gil.python();
        match execution_result(legend_named(py, loc)) {
            Ok(kwargs) => {
                let args = no_positional(py);
                self.hand_over(None, "legend", args, Some(kwargs))
            },
            Err(e) => Err(e),
        }
    }

    fn xlim(&mut self, xlim: (PyObject, PyObject)) -> (res: Result<&mut Self, BridgeError<PyErr>>)
        ensures
            res matches Ok(handle) ==> handle.same_session(*old(self)),
            res matches Err(e) ==> final(self).same_session(*old(self)) && call_raised(
                old(self).forwarded(),
                final(self).forwarded(),
                xlim_request(object_value(xlim.0), object_value(xlim.1)),
                e,
            ),
    {
        let args = pair_positional(self.gil.python(), xlim.0, xlim.1);
        self.hand_over(None, "xlim", args, None)
    }

    fn ylim(&mut self, ylim: (PyObject, PyObject)) -> (res: Result<&mut Self, BridgeError<PyErr>>)
        ensures
            res matches Ok(handle) ==> handle.same_session(*old(self)),
            res matches Err(e) ==> final(self).same_session(*old(self)) && call_raised(
                old(self).forwarded(),
                final(self).forwarded(),
                ylim_request(object_value(ylim.0), object_value(ylim.1)),
                e,
            ),
    {
        let args = pair_positional(self.gil.python(), ylim.0, ylim.1);
        self.hand_over(None, "ylim", args, None)
    }

    fn scatter(
        &mut self,
        xdata: PyObject,
        ydata: PyObject,
        label: &Option<String>,
        color: &Option<String>,
        marker: &Option<String>,
    ) -> (res: Result<&mut Self, BridgeError<PyErr>>)
        ensures
            res matches Ok(handle) ==> handle.same_session(*old(self)),
            res is Err ==> final(self).same_session(*old(self)),
            *label is None && *color is None && *marker is None ==> (res matches Err(e)
                ==> call_raised(
                old(self).forwarded(),
                final(self).forwarded(),
                scatter_request(object_value(xdata), object_value(ydata), *label, *color, *marker),
                e,
            )),
    {
        let py = self.gil.python();
        match execution_result(scatter_named(py, label, color, marker)) {
            Ok(kwargs) => {
                let args = pair_positional(py, xdata, ydata);
                self.hand_over(None, "scatter", args, Some(kwargs))
            },
            Err(e) => Err(e),
        }
    }

    fn plot(
        &mut self,
        xdata: PyObject,
        ydata: PyObject,
        label: &Option<String>,
        color: &Option<String>,
        marker: &Option<String>,
        linestyle: &Option<String>,
        linewidth: Option<PyObject>,
    ) -> (res: Result<&mut Self, BridgeError<PyErr>>)
        ensures
            res matches Ok(handle) ==> handle.same_session(*old(self)),
            res is Err ==> final(self).same_session(*old(self)),
            *label is None && *color is None && *marker is None && *linestyle is None
                && linewidth is None ==> (res matches Err(e) ==> call_raised(
                old(self).forwarded(),
                final(self).forwarded(),
                plot_request(
                    object_value(xdata),
                    object_value(ydata),
                    *label,
                    *color,
                    *marker,
                    *linestyle,
                    object_option(linewidth),
                ),
                e,
            )),
    {
        let py = self.gil.python();
        match execution_result(plot_named(py, label, color, marker, linestyle, linewidth)) {
            Ok(kwargs) => {
                let args = pair_positional(py, xdata, ydata);
                self.hand_over(None, "plot", args, Some(kwargs))
            },
            Err(e) => Err(e),
        }
    }

    fn set_style(&mut self, stylename: &str) -> (res: Result<&mut Self, BridgeError<PyErr>>)
        ensures
            res matches Ok(handle) ==> handle.same_session(*old(self)),
            res is Err ==> final(self).same_session(*old(self)),
    {
        let found = self.find_style();
        self.use_style(found, stylename)
    }
}

} // verus!
