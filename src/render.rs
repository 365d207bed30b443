use crate::spectrum::{MGFLike, Measure};
use vstd::prelude::*;
use vstd::string::*;

verus! {

/// A point of the plot: an m/z value across, an intensity up.
#[derive(Clone, Copy, Debug, PartialEq, Eq, Structural)]
pub struct Point {
    pub x: Measure,
    pub y: Measure,
}

/// How a trace is drawn: the baseline as a hairline, a fragment as a
/// regular stroke. Both are black.
#[derive(Clone, Copy, Debug, PartialEq, Eq, Structural)]
pub enum LineStyle {
    Baseline,
    Stick,
}

/// One straight segment of the plot.
#[derive(Clone, Copy, Debug, PartialEq, Eq, Structural)]
pub struct Trace {
    pub start: Point,
    pub end: Point,
    pub style: LineStyle,
    pub show_legend: bool,
    /// The m/z value whose decimal text names the trace, if it has a name.
    pub label: Option<Measure>,
}

/// Title and axis titles of the plot. The y axis shows exponents with a
/// capital `E`.
pub struct PlotLayout {
    pub title: String,
    pub x_axis_title: String,
    pub y_axis_title: String,
}

/// What the plot component is given: the spectrum record to draw.
pub struct PlotComponentProps<S: MGFLike> {
    pub data: S,
}

/// Everything that is handed to the chart: its traces, in drawing order, and
/// its layout.
pub struct SpectrumPlot {
    pub traces: Vec<Trace>,
    pub layout: PlotLayout,
}

pub open spec fn min(a: int, b: int) -> int {
    if a < b {
        a
    } else {
        b
    }
}

/// The zero line: from (0, 0) to (0, 0), unnamed, kept out of the legend.
pub open spec fn baseline_trace() -> Trace {
    Trace {
        start: Point { x: Measure::spec_zero(), y: Measure::spec_zero() },
        end: Point { x: Measure::spec_zero(), y: Measure::spec_zero() },
        style: LineStyle::Baseline,
        show_legend: false,
        label: None,
    }
}

/// The stick of one fragment: from (mz, 0) up to (mz, intensity), named by
/// its m/z value, kept out of the legend.
pub open spec fn stick_trace(mz: Measure, intensity: Measure) -> Trace {
    Trace {
        start: Point { x: mz, y: Measure::spec_zero() },
        end: Point { x: mz, y: intensity },
        style: LineStyle::Stick,
        show_legend: false,
        label: Some(mz),
    }
}

/// The baseline, then one stick for each pair of an m/z value and the
/// intensity at the same index, as far as the shorter sequence goes.
pub open spec fn spectrum_traces_of(mz: Seq<Measure>, intensity: Seq<Measure>) -> Seq<Trace> {
    seq![baseline_trace()] + Seq::new(
        min(mz.len() as int, intensity.len() as int) as nat,
        |i: int| stick_trace(mz[i], intensity[i]),
    )
}

/// The plot's title for a parent mass and a retention time, each already
/// written with four fractional digits.
pub open spec fn title_of(mass_text: Seq<char>, rt_text: Seq<char>) -> Seq<char> {
    "MS2 Spectrum of mass "@ + mass_text + " m/z at RT "@ + rt_text + " seconds"@
}

/// The zero line that every plot starts with.
pub fn baseline() -> (r: Trace)
    ensures
        r == baseline_trace(),
{
    Trace {
        start: Point { x: Measure::zero(), y: Measure::zero() },
        end: Point { x: Measure::zero(), y: Measure::zero() },
        style: LineStyle::Baseline,
        show_legend: false,
        label: None,
    }
}

/// The stick of the fragment with the given m/z value and intensity.
pub fn stick(mz: Measure, intensity: Measure) -> (r: Trace)
    ensures
        r == stick_trace(mz, intensity),
{
    Trace {
        start: Point { x: mz, y: Measure::zero() },
        end: Point { x: mz, y: intensity },
        style: LineStyle::Stick,
        show_legend: false,
        label: Some(mz),
    }
}

/// The traces of a spectrum: the baseline first, then one stick per fragment
/// in stored order. Fragments are paired by index; where one sequence is
/// longer, its extra values are left out.
pub fn spectrum_traces<S: MGFLike>(data: &S) -> (r: Vec<Trace>)
    ensures
        r@ == spectrum_traces_of(data.mz_view(), data.intensity_view()),
        r@.len() == 1 + min(data.mz_view().len() as int, data.intensity_view().len() as int),
        r@[0] == baseline_trace(),
        forall|i: int|
            0 <= i < r@.len() - 1 ==> {
                &&& #[trigger] r@[i + 1].start.x == data.mz_view()[i]
                &&& r@[i + 1].end.x == data.mz_view()[i]
                &&& r@[i + 1].start.y == Measure::spec_zero()
                &&& r@[i + 1].end.y == data.intensity_view()[i]
            },
{
    let mz = data.iter_mz2();
    let intensity = data.iter_mz2_intensity();
    let n: usize = if mz.len() < intensity.len() {
        mz.len()
    } else {
        intensity.len()
    };
    let mut r: Vec<Trace> = Vec::new();
    r.push(baseline());
    let mut i: usize = 0;
    while i < n
        invariant
            n == min(mz@.len() as int, intensity@.len() as int),
            mz@ == data.mz_view(),
            intensity@ == data.intensity_view(),
            0 <= i <= n,
            r@.len() == i + 1,
            r@[0] == baseline_trace(),
            forall|k: int| 0 <= k < i ==> #[trigger] r@[k + 1] == stick_trace(mz@[k], intensity@[k]),
        decreases n - i,
    {
        r.push(stick(mz[i], intensity[i]));
        i = i + 1;
    }
    let ghost expected = spectrum_traces_of(mz@, intensity@);
    assert forall|k: int| 0 <= k < r@.len() implies r@[k] == expected[k] by {
        if k > 0 {
            assert(r@[(k - 1) + 1] == stick_trace(mz@[k - 1], intensity@[k - 1]));
        }
    }
    assert(r@ =~= expected);
    r
}

/// The title of the plot of a parent ion whose mass and retention time are
/// written, with four fractional digits, as `mass_text` and `rt_text`.
pub fn spectrum_title(mass_text: &str, rt_text: &str) -> (r: String)
    ensures
        r@ == title_of(mass_text@, rt_text@),
{
    let mut t = String::from_str("MS2 Spectrum of mass ");
    t.append(mass_text);
    t.append(" m/z at RT ");
    t.append(rt_text);
    t.append(" seconds");
    t
}

/// The layout of the plot: the title, and the axes titled `m/z` and
/// `Intensity`.
pub fn spectrum_layout(mass_text: &str, rt_text: &str) -> (r: PlotLayout)
    ensures
        r.title@ == title_of(mass_text@, rt_text@),
        r.x_axis_title@ == "m/z"@,
        r.y_axis_title@ == "Intensity"@,
{
    PlotLayout {
        title: spectrum_title(mass_text, rt_text),
        x_axis_title: String::from_str("m/z"),
        y_axis_title: String::from_str("Intensity"),
    }
}

/// The plot of a spectrum: its traces and its layout, where `mass_text` and
/// `rt_text` are the record's parent mass and retention time written with four
/// fractional digits.
pub fn spectrum_plot<S: MGFLike>(data: &S, mass_text: &str, rt_text: &str) -> (r: SpectrumPlot)
    ensures
        r.traces@ == spectrum_traces_of(data.mz_view(), data.intensity_view()),
        r.layout.title@ == title_of(mass_text@, rt_text@),
        r.layout.x_axis_title@ == "m/z"@,
        r.layout.y_axis_title@ == "Intensity"@,
{
    SpectrumPlot {
        traces: spectrum_traces(data),
        layout: spectrum_layout(mass_text, rt_text),
    }
}

} // verus!
