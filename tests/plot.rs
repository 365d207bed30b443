use spectrum_plot::{
    baseline, spectrum_layout, spectrum_plot, spectrum_title, spectrum_traces, stick,
    ExampleMGF, LineStyle, MGFLike, Measure, Point, Trace,
};

fn m(v: f64) -> Measure {
    Measure::from_bits(v.to_bits())
}

fn ms(vs: &[f64]) -> Vec<Measure> {
    vs.iter().map(|v| m(*v)).collect()
}

fn record(mass: f64, rt: f64, mz: &[f64], intensity: &[f64]) -> ExampleMGF {
    ExampleMGF::new(m(mass), m(rt), ms(mz), ms(intensity))
}

fn four_digits(x: Measure) -> String {
    format!("{:.4}", f64::from_bits(x.bits))
}

fn zero_point() -> Point {
    Point { x: m(0.0), y: m(0.0) }
}

#[test]
fn scenario_two_fragments() {
    let rec = record(
        520.3401184082031,
        450.62851800000004,
        &[51.556331634521484, 520.3394165039062],
        &[1.8e6, 7.3e7],
    );
    let mass_text = four_digits(rec.get_ms1_mass());
    let rt_text = four_digits(rec.get_ms1_retention_time());
    let plot = spectrum_plot(&rec, &mass_text, &rt_text);
    assert_eq!(
        plot.layout.title,
        "MS2 Spectrum of mass 520.3401 m/z at RT 450.6285 seconds"
    );
    assert_eq!(plot.traces.len(), 3);
    let second = plot.traces[1];
    assert_eq!(second.start, Point { x: m(51.556331634521484), y: m(0.0) });
    assert_eq!(second.end, Point { x: m(51.556331634521484), y: m(1.8e6) });
    let third = plot.traces[2];
    assert_eq!(third.start, Point { x: m(520.3394165039062), y: m(0.0) });
    assert_eq!(third.end, Point { x: m(520.3394165039062), y: m(7.3e7) });
}

#[test]
fn longer_mz_is_truncated() {
    let rec = record(1.0, 2.0, &[10.0, 20.0, 30.0, 40.0, 50.0], &[1.0, 2.0, 3.0]);
    let traces = spectrum_traces(&rec);
    assert_eq!(traces.len(), 4);
    assert_eq!(traces[3].end, Point { x: m(30.0), y: m(3.0) });
}

#[test]
fn longer_intensity_is_truncated() {
    let rec = record(1.0, 2.0, &[10.0, 20.0], &[1.0, 2.0, 3.0, 4.0]);
    let traces = spectrum_traces(&rec);
    assert_eq!(traces.len(), 3);
    assert_eq!(traces[2].end, Point { x: m(20.0), y: m(2.0) });
}

#[test]
fn empty_spectrum_has_only_baseline() {
    let rec = record(1.0, 2.0, &[], &[]);
    let traces = spectrum_traces(&rec);
    assert_eq!(traces.len(), 1);
    assert_eq!(traces[0], baseline());
}

#[test]
fn trace_count_is_one_more_than_pairs() {
    for (a, b) in [(0usize, 0usize), (0, 3), (3, 0), (2, 2), (7, 4), (4, 7)] {
        let mz: Vec<f64> = (0..a).map(|i| 100.0 + i as f64).collect();
        let it: Vec<f64> = (0..b).map(|i| 1000.0 * (i as f64 + 1.0)).collect();
        let traces = spectrum_traces(&record(1.0, 2.0, &mz, &it));
        assert_eq!(traces.len(), 1 + a.min(b));
    }
}

#[test]
fn sticks_follow_fragments_in_order() {
    let mz = [300.5, 100.25, 200.125];
    let it = [5.0, 6.0e3, 7.0e6];
    let traces = spectrum_traces(&record(1.0, 2.0, &mz, &it));
    for i in 0..3 {
        let t = traces[i + 1];
        assert_eq!(t.start, Point { x: m(mz[i]), y: m(0.0) });
        assert_eq!(t.end, Point { x: m(mz[i]), y: m(it[i]) });
        assert_eq!(t.style, LineStyle::Stick);
        assert!(!t.show_legend);
        assert_eq!(t.label, Some(m(mz[i])));
    }
}

#[test]
fn baseline_comes_first_at_origin() {
    let traces = spectrum_traces(&record(1.0, 2.0, &[5.0], &[9.0]));
    let first = traces[0];
    assert_eq!(first.start, zero_point());
    assert_eq!(first.end, zero_point());
    assert_eq!(first.style, LineStyle::Baseline);
    assert!(!first.show_legend);
    assert_eq!(first.label, None);
}

#[test]
fn stick_spans_zero_to_intensity() {
    let t: Trace = stick(m(51.5), m(1.8e6));
    assert_eq!(t.start, Point { x: m(51.5), y: m(0.0) });
    assert_eq!(t.end, Point { x: m(51.5), y: m(1.8e6) });
    assert_eq!(t.label, Some(m(51.5)));
}

#[test]
fn title_follows_pattern() {
    assert_eq!(
        spectrum_title("1.0000", "2.5000"),
        "MS2 Spectrum of mass 1.0000 m/z at RT 2.5000 seconds"
    );
    assert_eq!(spectrum_title("", ""), "MS2 Spectrum of mass  m/z at RT  seconds");
}

#[test]
fn layout_names_axes() {
    let layout = spectrum_layout("520.3401", "450.6285");
    assert_eq!(layout.title, "MS2 Spectrum of mass 520.3401 m/z at RT 450.6285 seconds");
    assert_eq!(layout.x_axis_title, "m/z");
    assert_eq!(layout.y_axis_title, "Intensity");
}

#[test]
fn identical_records_are_equal() {
    let a = record(520.34, 450.62, &[51.5, 52.5], &[1.8e6, 7.3e7]);
    let b = record(520.34, 450.62, &[51.5, 52.5], &[1.8e6, 7.3e7]);
    assert!(a == b);
    assert!(a == a.clone());
}

#[test]
fn any_differing_field_makes_records_unequal() {
    let a = record(520.34, 450.62, &[51.5, 52.5], &[1.8e6, 7.3e7]);
    assert!(a != record(520.35, 450.62, &[51.5, 52.5], &[1.8e6, 7.3e7]));
    assert!(a != record(520.34, 450.63, &[51.5, 52.5], &[1.8e6, 7.3e7]));
    assert!(a != record(520.34, 450.62, &[51.5, 52.6], &[1.8e6, 7.3e7]));
    assert!(a != record(520.34, 450.62, &[51.5, 52.5], &[1.8e6, 7.4e7]));
    assert!(a != record(520.34, 450.62, &[51.5], &[1.8e6, 7.3e7]));
    assert!(a != record(520.34, 450.62, &[51.5, 52.5], &[1.8e6]));
}

#[test]
fn example_record_contents() {
    let rec = ExampleMGF::example1();
    assert_eq!(rec.get_ms1_mass(), m(520.3401184082031));
    assert_eq!(rec.get_ms1_retention_time(), m(450.62851800000004));
    assert_eq!(rec.iter_mz2().len(), 42);
    assert_eq!(rec.iter_mz2_intensity().len(), 42);
    assert_eq!(rec.iter_mz2()[13], m(86.09703826904297));
    assert_eq!(rec.iter_mz2_intensity()[13], m(1.2e8));
    assert_eq!(rec.iter_mz2()[41], m(520.3394165039062));
    assert_eq!(rec.iter_mz2_intensity()[41], m(7.3e7));
}

#[test]
fn example_record_plot() {
    let rec = ExampleMGF::example1();
    let mass_text = four_digits(rec.get_ms1_mass());
    let rt_text = four_digits(rec.get_ms1_retention_time());
    let plot = spectrum_plot(&rec, &mass_text, &rt_text);
    assert_eq!(plot.traces.len(), 43);
    assert_eq!(
        plot.layout.title,
        "MS2 Spectrum of mass 520.3401 m/z at RT 450.6285 seconds"
    );
    assert_eq!(plot.traces[1].end, Point { x: m(51.556331634521484), y: m(1.8e6) });
}
