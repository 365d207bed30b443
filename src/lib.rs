//! Building the picture of one MS2 spectrum: a zero baseline and one vertical
//! stick per fragment ion, with a title that names the parent ion.
//!
//! Every measured quantity is held as a [`Measure`], the bit pattern of its
//! IEEE 754 binary64 encoding, so that the library carries it exactly and
//! compares it without floating-point arithmetic. Turning a measure into
//! decimal text, and drawing, are left to the caller.
mod render;
mod spectrum;

pub use render::{
    baseline, spectrum_layout, spectrum_plot, spectrum_title, spectrum_traces, stick, LineStyle,
    PlotComponentProps, PlotLayout, Point, SpectrumPlot, Trace,
};
pub use spectrum::{lemma_records_equal_iff_fields, ExampleMGF, MGFLike, Measure};
