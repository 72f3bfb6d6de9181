use vstd::prelude::*;
use crate::model::{
    legend_request, no_kwargs, plot_kwargs, plot_request, scatter_kwargs, scatter_request,
    text_option, Request, Target, Value,
};

verus! {

/// `key` is bound in `kwargs` exactly when `value` is present, and then to
/// that value.
pub open spec fn bound_iff_present(
    kwargs: Map<Seq<char>, Value>,
    key: Seq<char>,
    value: Option<Value>,
) -> bool {
    match value {
        Some(v) => kwargs.dom().contains(key) && kwargs[key] == v,
        None => !kwargs.dom().contains(key),
    }
}

/// The names of the named arguments differ from one another.
pub proof fn lemma_names_differ()
    ensures
        "label"@ != "color"@,
        "label"@ != "marker"@,
        "label"@ != "ls"@,
        "label"@ != "lw"@,
        "color"@ != "marker"@,
        "color"@ != "ls"@,
        "color"@ != "lw"@,
        "marker"@ != "ls"@,
        "marker"@ != "lw"@,
        "ls"@ != "lw"@,
{
    reveal_strlit("label");
    reveal_strlit("color");
    reveal_strlit("marker");
    reveal_strlit("ls");
    reveal_strlit("lw");
    assert("label"@[0] != "color"@[0]);
    assert("label"@[0] != "marker"@[0]);
    assert("color"@[0] != "marker"@[0]);
    assert("ls"@[1] != "lw"@[1]);
}

/// Each optional parameter of `scatter` is a named argument exactly when it
/// is present, under its own name and with the value given, and `scatter`
/// has no other named argument.
pub proof fn law_scatter_named_arguments(
    label: Option<String>,
    color: Option<String>,
    marker: Option<String>,
)
    ensures
        bound_iff_present(scatter_kwargs(label, color, marker), "label"@, text_option(label)),
        bound_iff_present(scatter_kwargs(label, color, marker), "color"@, text_option(color)),
        bound_iff_present(scatter_kwargs(label, color, marker), "marker"@, text_option(marker)),
        forall|key: Seq<char>| #[trigger]
            scatter_kwargs(label, color, marker).dom().contains(key) ==> key == "label"@ || key
                == "color"@ || key == "marker"@,
{
    lemma_names_differ();
}

/// Each optional parameter of `plot` is a named argument exactly when it is
/// present, with the value given: `label`, `color` and `marker` under their
/// own names, the line style as `ls` and the line width as `lw`. `plot` has
/// no other named argument.
pub proof fn law_plot_named_arguments(
    label: Option<String>,
    color: Option<String>,
    marker: Option<String>,
    linestyle: Option<String>,
    linewidth: Option<Value>,
)
    ensures
        bound_iff_present(
            plot_kwargs(label, color, marker, linestyle, linewidth),
            "label"@,
            text_option(label),
        ),
        bound_iff_present(
            plot_kwargs(label, color, marker, linestyle, linewidth),
            "color"@,
            text_option(color),
        ),
        bound_iff_present(
            plot_kwargs(label, color, marker, linestyle, linewidth),
            "marker"@,
            text_option(marker),
        ),
        bound_iff_present(
            plot_kwargs(label, color, marker, linestyle, linewidth),
            "ls"@,
            text_option(linestyle),
        ),
        bound_iff_present(plot_kwargs(label, color, marker, linestyle, linewidth), "lw"@, linewidth),
        forall|key: Seq<char>| #[trigger]
            plot_kwargs(label, color, marker, linestyle, linewidth).dom().contains(key) ==> key
                == "label"@ || key == "color"@ || key == "marker"@ || key == "ls"@ || key == "lw"@,
{
    lemma_names_differ();
}

/// `legend` has one named argument, `loc`, bound to the location given.
pub proof fn law_legend_named_argument(loc: Seq<char>)
    ensures
        legend_request(loc).kwargs.dom() == set!["loc"@],
        legend_request(loc).kwargs["loc"@] == Value::Text(loc),
        legend_request(loc).args.len() == 0,
{
    assert(legend_request(loc).kwargs.dom() =~= set!["loc"@]);
}

/// With every optional parameter absent, `plot` forwards the two series and
/// no named argument at all.
pub proof fn law_plot_bare(xdata: Value, ydata: Value)
    ensures
        plot_request(xdata, ydata, None, None, None, None, None) == (Request {
            target: Target::Pyplot,
            function: "plot"@,
            args: seq![xdata, ydata],
            kwargs: no_kwargs(),
        }),
        plot_request(xdata, ydata, None, None, None, None, None).kwargs.dom().is_empty(),
{
}

/// With every optional parameter absent, `scatter` forwards the two series
/// and no named argument at all.
pub proof fn law_scatter_bare(xdata: Value, ydata: Value)
    ensures
        scatter_request(xdata, ydata, None, None, None) == (Request {
            target: Target::Pyplot,
            function: "scatter"@,
            args: seq![xdata, ydata],
            kwargs: no_kwargs(),
        }),
        scatter_request(xdata, ydata, None, None, None).kwargs.dom().is_empty(),
{
}

} // verus!
