use vstd::prelude::*;

verus! {

/// What a Python object handed to the plotting library holds.
///
/// A number with a fractional part is carried by its IEEE-754 binary64 bit
/// pattern, so that equal values are exactly what Python receives as equal
/// bits.
pub enum Value {
    /// A Python `float`, by its 64 bits.
    Float(u64),
    /// A Python `int` made from an unsigned 32-bit integer.
    UInt(u32),
    /// `True` or `False`.
    Bool(bool),
    /// A Python `str`.
    Text(Seq<char>),
    /// A Python `list` of `float`, each by its 64 bits.
    FloatSeq(Seq<u64>),
    /// Any other Python object.
    Other,
}

/// The namespace that receives a forwarded call.
pub enum Target {
    /// The plotting namespace itself.
    Pyplot,
    /// Its `style` submodule.
    Style,
}

/// One function call as it reaches the embedded runtime:
/// `target.function(*args, **kwargs)`.
pub struct Request {
    pub target: Target,
    pub function: Seq<char>,
    pub args: Seq<Value>,
    pub kwargs: Map<Seq<char>, Value>,
}

/// What a backend has handed to the plotting library or its runtime.
pub enum Event {
    /// Statements run in the session's global scope.
    Script(Seq<char>),
    /// A call of a function of the plotting library.
    Call(Request),
}

/// One event together with what came of it: the exception that it raised,
/// or none where it went through.
pub struct Exchange<E> {
    pub event: Event,
    pub raised: Option<E>,
}

/// The named-argument collection that holds nothing.
pub open spec fn no_kwargs() -> Map<Seq<char>, Value> {
    Map::empty()
}

/// The named-argument collection `kwargs` after an optional parameter has
/// been considered: the key is added only when a value is present.
pub open spec fn with_option(
    kwargs: Map<Seq<char>, Value>,
    key: Seq<char>,
    value: Option<Value>,
) -> Map<Seq<char>, Value> {
    match value {
        Some(v) => kwargs.insert(key, v),
        None => kwargs,
    }
}

/// An optional string as an optional `Value`.
pub open spec fn text_option(text: Option<String>) -> Option<Value> {
    match text {
        Some(t) => Some(Value::Text(t@)),
        None => None,
    }
}

/// A call of a function of the plotting namespace without named arguments.
pub open spec fn positional_request(function: Seq<char>, args: Seq<Value>) -> Request {
    Request { target: Target::Pyplot, function, args, kwargs: no_kwargs() }
}

/// `plt.figure()`.
pub open spec fn figure_request() -> Request {
    positional_request("figure"@, seq![])
}

/// `plt.savefig(filename)`.
pub open spec fn savefig_request(filename: Seq<char>) -> Request {
    positional_request("savefig"@, seq![Value::Text(filename)])
}

/// `plt.show()`.
pub open spec fn show_request() -> Request {
    positional_request("show"@, seq![])
}

/// `plt.subplot(i, j, k)`: rows, columns and the 1-based index, in this order.
pub open spec fn subplot_request(i: u32, j: u32, k: u32) -> Request {
    positional_request("subplot"@, seq![Value::UInt(i), Value::UInt(j), Value::UInt(k)])
}

/// `plt.grid(grid)`.
pub open spec fn grid_request(grid: bool) -> Request {
    positional_request("grid"@, seq![Value::Bool(grid)])
}

/// `plt.legend(loc=loc)`.
pub open spec fn legend_request(loc: Seq<char>) -> Request {
    Request {
        target: Target::Pyplot,
        function: "legend"@,
        args: seq![],
        kwargs: no_kwargs().insert("loc"@, Value::Text(loc)),
    }
}

/// `plt.xlim(min, max)`, the two bounds as they were given.
pub open spec fn xlim_request(min: Value, max: Value) -> Request {
    positional_request("xlim"@, seq![min, max])
}

/// `plt.ylim(min, max)`, the two bounds as they were given.
pub open spec fn ylim_request(min: Value, max: Value) -> Request {
    positional_request("ylim"@, seq![min, max])
}

/// The named arguments of `scatter`: each of `label`, `color` and `marker`
/// that is present, and nothing else.
pub open spec fn scatter_kwargs(
    label: Option<String>,
    color: Option<String>,
    marker: Option<String>,
) -> Map<Seq<char>, Value> {
    with_option(
        with_option(with_option(no_kwargs(), "label"@, text_option(label)), "color"@, text_option(color)),
        "marker"@,
        text_option(marker),
    )
}

/// `plt.scatter(xdata, ydata, ..)` with the named arguments of `scatter_kwargs`.
pub open spec fn scatter_request(
    xdata: Value,
    ydata: Value,
    label: Option<String>,
    color: Option<String>,
    marker: Option<String>,
) -> Request {
    Request {
        target: Target::Pyplot,
        function: "scatter"@,
        args: seq![xdata, ydata],
        kwargs: scatter_kwargs(label, color, marker),
    }
}

/// The named arguments of `plot`: those of `scatter`, then `ls` for the line
/// style and `lw` for the line width, each only when present.
pub open spec fn plot_kwargs(
    label: Option<String>,
    color: Option<String>,
    marker: Option<String>,
    linestyle: Option<String>,
    linewidth: Option<Value>,
) -> Map<Seq<char>, Value> {
    with_option(
        with_option(scatter_kwargs(label, color, marker), "ls"@, text_option(linestyle)),
        "lw"@,
        linewidth,
    )
}

/// `plt.plot(xdata, ydata, ..)` with the named arguments of `plot_kwargs`.
pub open spec fn plot_request(
    xdata: Value,
    ydata: Value,
    label: Option<String>,
    color: Option<String>,
    marker: Option<String>,
    linestyle: Option<String>,
    linewidth: Option<Value>,
) -> Request {
    Request {
        target: Target::Pyplot,
        function: "plot"@,
        args: seq![xdata, ydata],
        kwargs: plot_kwargs(label, color, marker, linestyle, linewidth),
    }
}

/// `plt.style.use(stylename)`.
pub open spec fn style_request(stylename: Seq<char>) -> Request {
    Request {
        target: Target::Style,
        function: "use"@,
        args: seq![Value::Text(stylename)],
        kwargs: no_kwargs(),
    }
}

} // verus!
