use thermal_lab::sensors::metric::{Metric, Reading, Value};

fn v(x: f64) -> Value {
    Value::from_bits(x.to_bits())
}

#[test]
fn first_provider_wins() {
    let mut r = Reading::new();
    r.offer(Metric::CpuTempC, v(61.5), "core-temp");
    r.offer(Metric::CpuTempC, v(48.0), "acpi");
    assert_eq!(r.get(Metric::CpuTempC), Some(v(61.5)));
    assert_eq!(r.sample(Metric::CpuTempC).unwrap().provider, "core-temp");
}

#[test]
fn rejects_non_finite() {
    let mut r = Reading::new();
    r.offer(Metric::CpuTempC, v(f64::NAN), "x");
    r.offer(Metric::CpuPowerW, v(f64::INFINITY), "x");
    assert!(!r.has(Metric::CpuTempC));
    assert!(!r.has(Metric::CpuPowerW));
}

#[test]
fn a_failed_provider_leaves_room_for_the_next() {
    let mut r = Reading::new();
    r.offer(Metric::CpuTempC, v(f64::NAN), "core-temp");
    r.offer(Metric::CpuTempC, v(55.0), "libre-hw");
    assert_eq!(r.get(Metric::CpuTempC), Some(v(55.0)));
}

#[test]
fn finiteness_follows_the_exponent() {
    assert!(v(0.0).is_finite());
    assert!(v(-1.0e300).is_finite());
    assert!(!v(f64::NEG_INFINITY).is_finite());
    assert!(!v(f64::NAN).is_finite());
}

#[test]
fn quantities_are_independent() {
    let mut r = Reading::new();
    r.offer(Metric::CpuTempC, v(60.0), "a");
    r.offer(Metric::GpuTempC, v(50.0), "b");
    assert_eq!(r.get(Metric::GpuTempC), Some(v(50.0)));
    assert_eq!(r.get(Metric::CpuPowerW), None);
}

#[test]
fn the_first_cpu_name_is_kept() {
    let mut r = Reading::new();
    assert_eq!(r.cpu_name(), None);
    r.offer_cpu_name(String::new());
    assert_eq!(r.cpu_name(), None);
    r.offer_cpu_name("Ryzen".to_string());
    r.offer_cpu_name("Core".to_string());
    assert_eq!(r.cpu_name().as_deref(), Some("Ryzen"));
    r.set_ts_ms(1234);
    assert_eq!(r.ts_ms(), 1234);
}

#[test]
fn units_and_order_of_the_quantities() {
    let all = Metric::all();
    assert_eq!(all.len(), 11);
    assert_eq!(all[0], Metric::CpuTempC);
    assert_eq!(all[10], Metric::GpuUtilPct);
    assert_eq!(Metric::CpuTempC.unit(), "°C");
    assert_eq!(Metric::GpuPowerW.unit(), "W");
    assert_eq!(Metric::CpuUtilPct.unit(), "%");
    assert_eq!(Metric::GpuClockMhz.unit(), "MHz");
    for (i, m) in all.iter().enumerate() {
        assert_eq!(m.rank(), i);
    }
}
