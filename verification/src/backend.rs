use vstd::prelude::*;
use crate::error::{BridgeError, Cause};
use crate::model::{
    figure_request, grid_request, legend_request, plot_request, savefig_request, scatter_request,
    show_request, style_request, subplot_request, xlim_request, ylim_request, Event, Exchange,
    Request, Value,
};

verus! {

/// The history `before` with one more call at its end, and what came of it.
pub open spec fn with_call<E>(
    before: Seq<Exchange<E>>,
    request: Request,
    raised: Option<E>,
) -> Seq<Exchange<E>> {
    before.push(Exchange { event: Event::Call(request), raised })
}

/// The history `before` with one more script at its end, and what came of it.
pub open spec fn with_script<E>(
    before: Seq<Exchange<E>>,
    source: Seq<char>,
    raised: Option<E>,
) -> Seq<Exchange<E>> {
    before.push(Exchange { event: Event::Script(source), raised })
}

/// `request` was handed over and raised the exception that `error` holds.
pub open spec fn call_raised<E>(
    before: Seq<Exchange<E>>,
    after: Seq<Exchange<E>>,
    request: Request,
    error: BridgeError<E>,
) -> bool {
    error matches BridgeError::Execution(Cause::Raised(raised)) && after == with_call(
        before,
        request,
        Some(raised),
    )
}

/// The script `source` was handed over and raised the exception that
/// `error` holds.
pub open spec fn script_raised<E>(
    before: Seq<Exchange<E>>,
    after: Seq<Exchange<E>>,
    source: Seq<char>,
    error: BridgeError<E>,
) -> bool {
    error matches BridgeError::Execution(Cause::Raised(raised)) && after == with_script(
        before,
        source,
        Some(raised),
    )
}

/// The runtime raised the exception that `error` holds before anything was
/// handed to the plotting library.
pub open spec fn raised_before<E>(
    before: Seq<Exchange<E>>,
    after: Seq<Exchange<E>>,
    error: BridgeError<E>,
) -> bool {
    error matches BridgeError::Execution(Cause::Raised(_)) && after == before
}

/// An operation that was to forward `request` failed with `error`: either
/// the call was handed over and raised, or the runtime raised before.
pub open spec fn call_failed<E>(
    before: Seq<Exchange<E>>,
    after: Seq<Exchange<E>>,
    request: Request,
    error: BridgeError<E>,
) -> bool {
    call_raised(before, after, request, error) || raised_before(before, after, error)
}

/// The drawing and configuration operations of a plotting backend.
///
/// Every operation hands one call to the plotting library, or none where the
/// call could not be put together. It succeeds exactly when that call went
/// through, and then gives back the backend itself, so that operations can be
/// chained. It fails with `BridgeError::Execution` and the exception that was
/// raised, and leaves the backend usable. No operation asks anything of its
/// caller.
pub trait Backend: Sized {
    /// A number as this backend carries it.
    type Number;

    /// A sequence of numbers as this backend carries it.
    type Series;

    /// An exception of this backend's runtime.
    type Raised;

    /// Everything that was handed to the plotting library so far, oldest
    /// first, each with what came of it.
    spec fn forwarded(&self) -> Seq<Exchange<Self::Raised>>;

    /// What the plotting library receives for `number`.
    spec fn number_value(number: Self::Number) -> Value;

    /// What the plotting library receives for `series`.
    spec fn series_value(series: Self::Series) -> Value;

    /// Creates a new figure, which becomes the current one.
    fn figure(&mut self) -> (res: Result<&mut Self, BridgeError<Self::Raised>>)
        ensures
            res matches Ok(handle) ==> handle.forwarded() == with_call(
                old(self).forwarded(),
                figure_request(),
                None,
            ) && *final(handle) == *final(self),
            res matches Err(e) ==> call_failed(
                old(self).forwarded(),
                final(self).forwarded(),
                figure_request(),
                e,
            ),
    ;

    /// Writes the current figure to `filename`; the path is handed over as it is.
    fn savefig(&mut self, filename: &str) -> (res: Result<
        &mut Self,
        BridgeError<Self::Raised>,
    >)
        ensures
            res matches Ok(handle) ==> handle.forwarded() == with_call(
                old(self).forwarded(),
                savefig_request(filename@),
                None,
            ) && *final(handle) == *final(self),
            res matches Err(e) ==> call_failed(
                old(self).forwarded(),
                final(self).forwarded(),
                savefig_request(filename@),
                e,
            ),
    ;

    /// Displays the figures.
    fn show(&mut self) -> (res: Result<&mut Self, BridgeError<Self::Raised>>)
        ensures
            res matches Ok(handle) ==> handle.forwarded() == with_call(
                old(self).forwarded(),
                show_request(),
                None,
            ) && *final(handle) == *final(self),
            res matches Err(e) ==> call_failed(
                old(self).forwarded(),
                final(self).forwarded(),
                show_request(),
                e,
            ),
    ;

    /// Selects the subplot `k` (1-based) of a grid of `i` rows and `j`
    /// columns. The three numbers are handed over in this order, as given.
    fn subplot(&mut self, i: u32, j: u32, k: u32) -> (res: Result<
        &mut Self,
        BridgeError<Self::Raised>,
    >)
        ensures
            res matches Ok(handle) ==> handle.forwarded() == with_call(
                old(self).forwarded(),
                subplot_request(i, j, k),
                None,
            ) && *final(handle) == *final(self),
            res matches Err(e) ==> call_failed(
                old(self).forwarded(),
                final(self).forwarded(),
                subplot_request(i, j, k),
                e,
            ),
    ;

    /// Switches the grid on or off.
    fn grid(&mut self, grid: bool) -> (res: Result<
        &mut Self,
        BridgeError<Self::Raised>,
    >)
        ensures
            res matches Ok(handle) ==> handle.forwarded() == with_call(
                old(self).forwarded(),
                grid_request(grid),
                None,
            ) && *final(handle) == *final(self),
            res matches Err(e) ==> call_failed(
                old(self).forwarded(),
                final(self).forwarded(),
                grid_request(grid),
                e,
            ),
    ;

    /// Places the legend at `loc`, which is handed over as the named
    /// argument `loc`.
    fn legend(&mut self, loc: &str) -> (res: Result<
        &mut Self,
        BridgeError<Self::Raised>,
    >)
        ensures
            res matches Ok(handle) ==> handle.forwarded() == with_call(
                old(self).forwarded(),
                legend_request(loc@),
                None,
            ) && *final(handle) == *final(self),
            res matches Err(e) ==> call_failed(
                old(self).forwarded(),
                final(self).forwarded(),
                legend_request(loc@),
                e,
            ),
    ;

    /// Sets the limits of the x axis to `xlim`, lower bound first. The two
    /// bounds are handed over as given, whatever their order.
    fn xlim(&mut self, xlim: (Self::Number, Self::Number)) -> (res: Result<
        &mut Self,
        BridgeError<Self::Raised>,
    >)
        ensures
            res matches Ok(handle) ==> handle.forwarded() == with_call(
                old(self).forwarded(),
                xlim_request(Self::number_value(xlim.0), Self::number_value(xlim.1)),
                None,
            ) && *final(handle) == *final(self),
            res matches Err(e) ==> call_failed(
                old(self).forwarded(),
                final(self).forwarded(),
                xlim_request(Self::number_value(xlim.0), Self::number_value(xlim.1)),
                e,
            ),
    ;

    /// Sets the limits of the y axis to `ylim`, lower bound first. The two
    /// bounds are handed over as given, whatever their order.
    fn ylim(&mut self, ylim: (Self::Number, Self::Number)) -> (res: Result<
        &mut Self,
        BridgeError<Self::Raised>,
    >)
        ensures
            res matches Ok(handle) ==> handle.forwarded() == with_call(
                old(self).forwarded(),
                ylim_request(Self::number_value(ylim.0), Self::number_value(ylim.1)),
                None,
            ) && *final(handle) == *final(self),
            res matches Err(e) ==> call_failed(
                old(self).forwarded(),
                final(self).forwarded(),
                ylim_request(Self::number_value(ylim.0), Self::number_value(ylim.1)),
                e,
            ),
    ;

    /// Draws the points (`xdata[i]`, `ydata[i]`). The two series are handed
    /// over as given, whatever their lengths. `label`, `color` and `marker`
    /// become named arguments, each only when it is present.
    fn scatter(
        &mut self,
        xdata: Self::Series,
        ydata: Self::Series,
        label: &Option<String>,
        color: &Option<String>,
        marker: &Option<String>,
    ) -> (res: Result<&mut Self, BridgeError<Self::Raised>>)
        ensures
            res matches Ok(handle) ==> handle.forwarded() == with_call(
                old(self).forwarded(),
                scatter_request(
                    Self::series_value(xdata),
                    Self::series_value(ydata),
                    *label,
                    *color,
                    *marker,
                ),
                None,
            ) && *final(handle) == *final(self),
            res matches Err(e) ==> call_failed(
                old(self).forwarded(),
                final(self).forwarded(),
                scatter_request(
                    Self::series_value(xdata),
                    Self::series_value(ydata),
                    *label,
                    *color,
                    *marker,
                ),
                e,
            ),
    ;

    /// Draws the line through the points (`xdata[i]`, `ydata[i]`). The two
    /// series are handed over as given, whatever their lengths. `label`,
    /// `color`, `marker`, `linestyle` (as `ls`) and `linewidth` (as `lw`)
    /// become named arguments, each only when it is present.
    fn plot(
        &mut self,
        xdata: Self::Series,
        ydata: Self::Series,
        label: &Option<String>,
        color: &Option<String>,
        marker: &Option<String>,
        linestyle: &Option<String>,
        linewidth: Option<Self::Number>,
    ) -> (res: Result<&mut Self, BridgeError<Self::Raised>>)
        ensures
            res matches Ok(handle) ==> handle.forwarded() == with_call(
                old(self).forwarded(),
                plot_request(
                    Self::series_value(xdata),
                    Self::series_value(ydata),
                    *label,
                    *color,
                    *marker,
                    *linestyle,
                    match linewidth {
                        Some(width) => Some(Self::number_value(width)),
                        None => None,
                    },
                ),
                None,
            ) && *final(handle) == *final(self),
            res matches Err(e) ==> call_failed(
                old(self).forwarded(),
                final(self).forwarded(),
                plot_request(
                    Self::series_value(xdata),
                    Self::series_value(ydata),
                    *label,
                    *color,
                    *marker,
                    *linestyle,
                    match linewidth {
                        Some(width) => Some(Self::number_value(width)),
                        None => None,
                    },
                ),
                e,
            ),
    ;

    /// Activates the style `stylename` through the library's `style`
    /// submodule. Nothing is handed over where the submodule cannot be found.
    fn set_style(&mut self, stylename: &str) -> (res: Result<
        &mut Self,
        BridgeError<Self::Raised>,
    >)
        ensures
            res matches Ok(handle) ==> handle.forwarded() == with_call(
                old(self).forwarded(),
                style_request(stylename@),
                None,
            ) && *final(handle) == *final(self),
            res matches Err(e) ==> call_failed(
                old(self).forwarded(),
                final(self).forwarded(),
                style_request(stylename@),
                e,
            ),
    ;
}

} // verus!
