//! OLE chart rendering: its error type and the checks made before the
//! chart goes to the renderer.

use vstd::prelude::*;

verus! {

/// Why an OLE chart could not be rendered.
#[derive(Debug, Clone, PartialEq, Eq)]
pub enum OleChartRenderError {
    /// The chart has no category or no series.
    EmptyChart,
    /// The server-side renderer failed, with its message.
    CharmingSsr(String),
}

impl OleChartRenderError {
    /// The stable error code.
    pub fn code(&self) -> (c: &'static str)
        ensures
            c@ == match self {
                OleChartRenderError::EmptyChart => "EMPTY_OLE_CHART"@,
                OleChartRenderError::CharmingSsr(_) => "CHARMING_SSR_RENDER_FAILED"@,
            },
    {
        match self {
            OleChartRenderError::EmptyChart => "EMPTY_OLE_CHART",
            OleChartRenderError::CharmingSsr(_) => "CHARMING_SSR_RENDER_FAILED",
        }
    }

    /// The human-readable message.
    pub fn to_string(&self) -> (s: String)
        ensures
            s@ == match self {
                OleChartRenderError::EmptyChart => "empty OLE chart"@,
                OleChartRenderError::CharmingSsr(m) => "charming SSR render failed: "@ + m@,
            },
    {
        match self {
            OleChartRenderError::EmptyChart => String::from_str("empty OLE chart"),
            OleChartRenderError::CharmingSsr(m) => {
                let mut s = String::from_str("charming SSR render failed: ");
                s.append(m.as_str());
                s
            },
        }
    }
}

/// The size a chart is rendered at, or why it is not rendered: a chart
/// without categories or without series is refused; otherwise width and
/// height are raised to at least one pixel.
pub fn plan_ole_chart_render(category_count: usize, series_count: usize, width: u32, height: u32) -> (r: Result<(u32, u32), OleChartRenderError>)
    ensures
        category_count == 0 || series_count == 0 ==> r == Err::<(u32, u32), OleChartRenderError>(OleChartRenderError::EmptyChart),
        category_count > 0 && series_count > 0 ==> r == Ok::<(u32, u32), OleChartRenderError>((
            if width >= 1 { width } else { 1 },
            if height >= 1 { height } else { 1 },
        )),
{
    if category_count == 0 || series_count == 0 {
        return Err(OleChartRenderError::EmptyChart);
    }
    let w = if width >= 1 { width } else { 1 };
    let h = if height >= 1 { height } else { 1 };
    Ok((w, h))
}

/// The grid's top margin: more room above the plot when the chart has a
/// title.
pub fn grid_top(has_title: bool) -> (s: &'static str)
    ensures
        s@ == if has_title { "18%"@ } else { "10%"@ },
{
    if has_title { "18%" } else { "10%" }
}

} // verus!
