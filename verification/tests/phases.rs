use thermal_lab::phases::{kept, PhaseRecorder};
use thermal_lab::sensors::metric::{Metric, Reading, Value};

fn reading(temp: f64) -> Reading {
    let mut r = Reading::new();
    r.offer(Metric::CpuTempC, Value::from_bits(temp.to_bits()), "test");
    r
}

fn position(m: Metric) -> usize {
    kept().iter().position(|k| *k == m).expect("tracked")
}

fn record(rec: &mut PhaseRecorder, r: &Reading) {
    assert!(rec.room());
    rec.record(r);
}

#[test]
fn routes_samples_to_the_active_phase() {
    let mut rec = PhaseRecorder::new(1000);
    record(&mut rec, &reading(80.0));
    rec.set_optimized(true);
    record(&mut rec, &reading(60.0));
    record(&mut rec, &reading(62.0));

    assert_eq!(rec.seconds(false), 1);
    assert_eq!(rec.seconds(true), 2);
    let temp = position(Metric::CpuTempC);
    assert_eq!(rec.count(false, temp), 1);
    assert_eq!(rec.count(true, temp), 2);
}

#[test]
fn a_metric_nobody_measures_stays_absent() {
    let mut rec = PhaseRecorder::new(1000);
    record(&mut rec, &reading(70.0));
    assert_eq!(rec.count(false, position(Metric::GpuPowerW)), 0);
}

#[test]
fn counts_seconds_from_the_sampling_period() {
    let mut rec = PhaseRecorder::new(2000);
    record(&mut rec, &reading(70.0));
    record(&mut rec, &reading(70.0));
    assert_eq!(rec.seconds(false), 4);
}

#[test]
fn reset_clears_both_phases() {
    let mut rec = PhaseRecorder::new(1000);
    record(&mut rec, &reading(70.0));
    rec.set_optimized(true);
    record(&mut rec, &reading(50.0));
    rec.reset();

    assert_eq!(rec.seconds(false), 0);
    assert_eq!(rec.seconds(true), 0);
    for k in 0..kept().len() {
        assert_eq!(rec.count(true, k), 0);
    }
    assert!(rec.is_optimized());
}

#[test]
fn seconds_round_to_the_nearest() {
    let mut rec = PhaseRecorder::new(1500);
    record(&mut rec, &reading(70.0));
    assert_eq!(rec.seconds(false), 2);
    let mut rec = PhaseRecorder::new(1400);
    record(&mut rec, &reading(70.0));
    assert_eq!(rec.seconds(false), 1);
}

#[test]
fn untracked_quantities_are_not_counted() {
    assert_eq!(
        kept(),
        vec![Metric::CpuMaxCorePct, Metric::CpuTempC, Metric::CpuPowerW, Metric::GpuTempC, Metric::GpuPowerW]
    );
}
