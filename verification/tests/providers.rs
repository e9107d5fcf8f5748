use thermal_lab::i18n::Lang;
use thermal_lab::sensors::metric::{Metric, Reading, Value};
use thermal_lab::sensors::provider::{ProbeState, Sampled};
use thermal_lab::sensors::providers::amd_gpu::{instance_prefix, AmdGpuProvider};
use thermal_lab::sensors::providers::core_temp::{parse_data, CoreTempProvider, DATA_SIZE};
use thermal_lab::sensors::providers::hwinfo::{
    parse_element, parse_header, Element, Header, HwInfoProvider, ELEMENT_SIZE, HEADER_SIZE, SIGNATURE,
    VALUE_OFFSET,
};
use thermal_lab::sensors::providers::libre_hw::LibreHwProvider;
use thermal_lab::sensors::providers::nvidia::NvidiaProvider;
use thermal_lab::sensors::providers::perf_counters::{CounterRow, PerfCountersProvider};
use thermal_lab::sensors::shared_memory::{c_string, fits, read_u32_le, read_u64_le};
use thermal_lab::sensors::wmi_context::WmiRow;

fn v(x: f64) -> Value {
    Value::from_bits(x.to_bits())
}

fn row(id: &str, kind: &str, name: &str, value: f64) -> WmiRow {
    WmiRow {
        identifier: Some(id.to_string()),
        sensor_type: Some(kind.to_string()),
        name: Some(name.to_string()),
        value: Some(v(value)),
    }
}

#[test]
fn keeps_the_hardware_instance_only() {
    assert_eq!(instance_prefix("/gpu-amd/0/temperature/0").as_deref(), Some("/gpu-amd/0"));
    assert_eq!(instance_prefix("/amdgpu/1/load/0").as_deref(), Some("/amdgpu/1"));
}

#[test]
fn ignores_other_hardware() {
    assert_eq!(instance_prefix("/gpu-nvidia/0/temperature/0"), None);
    assert_eq!(instance_prefix("/amdcpu/0/temperature/0"), None);
    assert_eq!(instance_prefix("/intelcpu/0/load/0"), None);
}

#[test]
fn rejects_truncated_identifiers() {
    assert_eq!(instance_prefix("/gpu-amd/"), None);
    assert_eq!(instance_prefix("/gpu-amd/0"), None);
}

#[test]
fn the_lowest_amd_card_is_measured_with_its_fallbacks() {
    let rows = vec![
        row("/gpu-amd/1/temperature/0", "Temperature", "GPU Core", 70.0),
        row("/gpu-amd/0/temperature/1", "Temperature", "GPU Hot Spot", 65.0),
        row("/gpu-amd/0/power/0", "Power", "GPU Core", 90.0),
        row("/gpu-amd/0/clock/0", "Clock", "GPU Core", 2100.0),
        row("/gpu-amd/0/load/0", "Load", "GPU Core", 40.0),
        row("/gpu-amd/10/power/1", "Power", "GPU Package", 300.0),
        row("/intelcpu/0/temperature/0", "Temperature", "Core Max", 80.0),
    ];
    assert_eq!(AmdGpuProvider::target(&rows).as_deref(), Some("/gpu-amd/0"));
    let mut r = Reading::new();
    AmdGpuProvider::absorb(&mut r, &rows);
    assert_eq!(r.get(Metric::GpuTempC), Some(v(65.0)));
    assert_eq!(r.get(Metric::GpuPowerW), Some(v(90.0)));
    assert_eq!(r.get(Metric::GpuClockMhz), Some(v(2100.0)));
    assert_eq!(r.get(Metric::GpuUtilPct), Some(v(40.0)));
    assert_eq!(r.sample(Metric::GpuTempC).unwrap().provider, "amd-gpu");
}

#[test]
fn the_core_temperature_and_package_power_come_first() {
    let rows = vec![
        row("/gpu-amd/0/temperature/1", "Temperature", "GPU Hot Spot", 65.0),
        row("/gpu-amd/0/temperature/0", "Temperature", "GPU Core", 60.0),
        row("/gpu-amd/0/power/0", "Power", "GPU Core", 90.0),
        row("/gpu-amd/0/power/1", "Power", "GPU PPT", 120.0),
    ];
    let mut r = Reading::new();
    AmdGpuProvider::absorb(&mut r, &rows);
    assert_eq!(r.get(Metric::GpuTempC), Some(v(60.0)));
    assert_eq!(r.get(Metric::GpuPowerW), Some(v(120.0)));
}

#[test]
fn lhm_without_an_amd_card_is_said_so() {
    let mut p = AmdGpuProvider::new();
    let rows = vec![row("/intelcpu/0/temperature/0", "Temperature", "Core", 50.0)];
    assert!(!AmdGpuProvider::any_amd(&rows));
    match p.probe_outcome(true, Some(&rows)) {
        ProbeState::Unavailable { reason, hint } => {
            assert_eq!(reason, "aucun GPU AMD parmi les capteurs de LibreHardwareMonitor");
            assert_eq!(hint, None);
        }
        other => panic!("{other:?}"),
    }
    assert!(matches!(p.probe_outcome(false, None), ProbeState::Failed { .. }));
    assert!(matches!(p.probe_outcome(true, None), ProbeState::Unavailable { .. }));
}

fn header(reading_count: u32) -> Header {
    Header {
        signature: SIGNATURE,
        version: 2,
        revision: 0,
        poll_time: 0,
        sensor_offset: 48,
        sensor_element_size: 264,
        sensor_count: 1,
        reading_offset: 312,
        reading_element_size: 320,
        reading_count,
    }
}

#[test]
fn header_layout_accounts_for_time64_alignment() {
    assert_eq!(std::mem::size_of::<Header>(), 48);
    assert_eq!(HEADER_SIZE, 48);
}

#[test]
fn reading_element_layout_matches_published_struct() {
    assert_eq!(ELEMENT_SIZE, 320);
    assert_eq!(VALUE_OFFSET % 8, 0);
}

#[test]
fn little_endian_fields_read_as_published() {
    let b = [0x53u8, 0x69, 0x57, 0x48, 1, 2, 3, 4, 5, 6, 7, 8];
    assert_eq!(read_u32_le(&b, 0), SIGNATURE);
    assert_eq!(read_u32_le(&b, 4), 0x0403_0201);
    assert_eq!(read_u64_le(&b, 4), 0x0807_0605_0403_0201);
}

#[test]
fn a_header_decodes_from_its_bytes() {
    let h = header(3);
    let mut b: Vec<u8> = Vec::new();
    for v in [h.signature, h.version, h.revision, 0] {
        b.extend_from_slice(&v.to_le_bytes());
    }
    b.extend_from_slice(&(-5i64).to_le_bytes());
    for v in [h.sensor_offset, h.sensor_element_size, h.sensor_count, h.reading_offset, h.reading_element_size, h.reading_count] {
        b.extend_from_slice(&v.to_le_bytes());
    }
    assert_eq!(b.len(), HEADER_SIZE);
    let got = parse_header(&b).unwrap();
    assert_eq!(got.signature, SIGNATURE);
    assert_eq!(got.poll_time, -5);
    assert_eq!(got.reading_offset, 312);
    assert_eq!(got.reading_element_size, 320);
    assert_eq!(got.reading_count, 3);
    assert!(HwInfoProvider::header_ok(&got));
    assert!(parse_header(&b[..HEADER_SIZE - 1]).is_none());
}

#[test]
fn a_reading_element_decodes_from_its_bytes() {
    let mut b = vec![0u8; ELEMENT_SIZE];
    b[0..4].copy_from_slice(&5u32.to_le_bytes());
    b[12..12 + 17].copy_from_slice(b"CPU Package Power");
    b[140..145].copy_from_slice(b"Other");
    b[VALUE_OFFSET..VALUE_OFFSET + 8].copy_from_slice(&42.5f64.to_le_bytes());
    let e = parse_element(&b).unwrap();
    assert_eq!(e.reading_type, 5);
    assert_eq!(e.label_orig.len(), 128);
    assert_eq!(c_string(&e.label_orig), "CPU Package Power");
    assert_eq!(e.value, v(42.5));
    assert!(parse_element(&b[..ELEMENT_SIZE - 1]).is_none());
}

#[test]
fn the_core_temp_structure_decodes_from_its_bytes() {
    let mut b = vec![0u8; DATA_SIZE];
    b[1024..1028].copy_from_slice(&95u32.to_le_bytes());
    b[1536..1540].copy_from_slice(&8u32.to_le_bytes());
    b[1540..1544].copy_from_slice(&1u32.to_le_bytes());
    b[1544 + 4..1544 + 8].copy_from_slice(&61.5f32.to_bits().to_le_bytes());
    b[2584..2584 + 7].copy_from_slice(b"Ryzen 7");
    b[2685] = 1;
    b[2687] = 1;
    b[3204..3208].copy_from_slice(&35.0f32.to_bits().to_le_bytes());
    let d = parse_data(&b).unwrap();
    assert_eq!(d.tj_max, 95);
    assert_eq!((d.core_count, d.cpu_count), (8, 1));
    assert_eq!(d.temp_bits.len(), 256);
    assert_eq!(f32::from_bits(d.temp_bits[1]), 61.5);
    assert_eq!(c_string(&d.cpu_name), "Ryzen 7");
    assert!(!d.fahrenheit && d.delta_to_tjmax && d.power_supported);
    assert_eq!(f32::from_bits(d.power_bits), 35.0);
    assert!(parse_data(&b[..DATA_SIZE - 1]).is_none());
}

#[test]
fn signature_decodes_as_siwh() {
    assert_eq!(&SIGNATURE.to_le_bytes(), b"SiWH");
}

#[test]
fn hwinfo_reads_the_cpu_package_until_the_first_unreadable_element() {
    let mut p = HwInfoProvider::new();
    assert!(matches!(p.probe_outcome(Some(Some(header(3)))), ProbeState::Ready));
    let label = |s: &str| {
        let mut b = s.as_bytes().to_vec();
        b.resize(128, 0);
        b
    };
    let elements = vec![
        Some(Element { reading_type: 1, label_orig: label("CPU Package"), value: v(71.0) }),
        Some(Element { reading_type: 5, label_orig: label("CPU Package Power"), value: v(88.0) }),
        None,
        Some(Element { reading_type: 1, label_orig: label("GPU Temperature"), value: v(50.0) }),
    ];
    let mut r = Reading::new();
    assert_eq!(p.sample(&mut r, Some(Some(header(3))), &elements), Sampled::Answered);
    assert_eq!(r.get(Metric::CpuTempC), Some(v(71.0)));
    assert_eq!(r.get(Metric::CpuPowerW), Some(v(88.0)));
    assert_eq!(HwInfoProvider::element_offset(&header(3), 2), 312 + 2 * 320);
}

#[test]
fn hwinfo_reads_no_more_elements_than_the_header_announces() {
    let mut p = HwInfoProvider::new();
    assert!(matches!(p.probe_outcome(Some(Some(header(1)))), ProbeState::Ready));
    let label = |s: &str| {
        let mut b = s.as_bytes().to_vec();
        b.resize(128, 0);
        b
    };
    let elements = vec![
        Some(Element { reading_type: 1, label_orig: label("CPU Package"), value: v(64.0) }),
        Some(Element { reading_type: 5, label_orig: label("CPU Package Power"), value: v(40.0) }),
    ];
    let mut r = Reading::new();
    assert_eq!(p.sample(&mut r, Some(Some(header(1))), &elements), Sampled::Answered);
    assert_eq!(r.get(Metric::CpuTempC), Some(v(64.0)));
    assert_eq!(r.get(Metric::CpuPowerW), None);
}

#[test]
fn hwinfo_without_its_section_is_lost() {
    let mut p = HwInfoProvider::new();
    assert!(matches!(p.probe_outcome(None), ProbeState::Unavailable { .. }));
    let mut bad = header(3);
    bad.signature = 0;
    assert!(matches!(p.probe_outcome(Some(Some(bad))), ProbeState::Failed { .. }));
    let mut r = Reading::new();
    assert_eq!(p.sample(&mut r, None, &vec![]), Sampled::Lost);
    assert!(matches!(p.probe_outcome(Some(Some(header(9000)))), ProbeState::Failed { .. }));
}

#[test]
fn bytes_after_the_first_nul_are_ignored() {
    assert_eq!(c_string(b"Core i7\0garbage  "), c_string(b"Core i7\0"));
    assert_eq!(c_string(b"\0\0Core"), "");
    assert_eq!(c_string(b"\t Ryzen 9 \r\n\0"), "Ryzen 9");
}

#[test]
fn decodes_fixed_width_c_strings() {
    assert_eq!(c_string(b"Intel Core i9\0\0\0\0"), "Intel Core i9");
    assert_eq!(c_string(b"sans terminateur"), "sans terminateur");
    assert_eq!(c_string(b"\0"), "");
    assert_eq!(c_string(b"  espaces  \0"), "espaces");
}

#[test]
fn a_structure_must_lie_within_the_view() {
    assert!(fits(0, 48, 48));
    assert!(!fits(1, 48, 48));
    assert!(!fits(usize::MAX, 2, 10));
}

#[test]
fn core_temp_needs_a_readable_cpu_name() {
    let mut p = CoreTempProvider::new();
    assert!(matches!(p.probe_outcome(None, None), ProbeState::Unavailable { .. }));
    assert!(matches!(
        p.probe_outcome(Some("CoreTempMappingObjectEx"), None),
        ProbeState::Failed { .. }
    ));
    assert!(matches!(
        p.probe_outcome(Some("CoreTempMappingObjectEx"), Some(b"\0\0\0".as_slice())),
        ProbeState::Failed { .. }
    ));
    assert!(matches!(
        p.probe_outcome(Some("CoreTempMappingObjectEx"), Some(b"Ryzen 7\0".as_slice())),
        ProbeState::Ready
    ));
    assert_eq!(p.section(), Some("CoreTempMappingObjectEx"));
    assert_eq!(CoreTempProvider::cores_to_read(8, 0), 8);
    assert_eq!(CoreTempProvider::cores_to_read(200, 2), 256);
    let mut r = Reading::new();
    CoreTempProvider::absorb_name(&mut r, b"  Ryzen 7 \0\0");
    assert_eq!(r.cpu_name().as_deref(), Some("Ryzen 7"));
}

#[test]
fn nvidia_reads_the_first_gpu_line() {
    let mut p = NvidiaProvider::new();
    assert!(matches!(p.probe_outcome(Lang::En, Some("45, 30.5, 1500, 12\n")), ProbeState::Ready));
    let fields = p.fields(Some("45, 30.5, [N/A], 12\r\n50, 1, 1, 1\n")).expect("fields");
    assert_eq!(fields, vec!["45", "30.5", "[N/A]", "12"]);
    let parsed = vec![Some(v(45.0)), Some(v(30.5)), None, Some(v(12.0))];
    let mut r = Reading::new();
    assert_eq!(NvidiaProvider::absorb(&mut r, &parsed), Sampled::Answered);
    assert_eq!(r.get(Metric::GpuTempC), Some(v(45.0)));
    assert_eq!(r.get(Metric::GpuPowerW), Some(v(30.5)));
    assert_eq!(r.get(Metric::GpuClockMhz), None);
    assert_eq!(r.get(Metric::GpuUtilPct), Some(v(12.0)));
}

#[test]
fn nvidia_in_an_unexpected_format_fails() {
    let mut p = NvidiaProvider::new();
    match p.probe_outcome(Lang::Fr, Some("NVIDIA-SMI has failed")) {
        ProbeState::Failed { error } => assert_eq!(error, "nvidia-smi a repondu un format inattendu"),
        other => panic!("{other:?}"),
    }
    assert_eq!(p.fields(Some("45, 1")), None);
    match p.probe_outcome(Lang::En, None) {
        ProbeState::Unavailable { reason, .. } => assert_eq!(reason, "no NVIDIA GPU, or driver missing"),
        other => panic!("{other:?}"),
    }
}

#[test]
fn lhm_prefers_the_package_sensor_to_the_hottest_core() {
    let rows = vec![
        row("/intelcpu/0/temperature/0", "Temperature", "CPU Core #1", 70.0),
        row("/intelcpu/0/temperature/8", "Temperature", "CPU Package", 72.0),
        row("/intelcpu/0/power/0", "Power", "CPU Package", 95.0),
        row("/gpu-nvidia/0/temperature/0", "Temperature", "GPU Core", 60.0),
    ];
    let mut r = Reading::new();
    LibreHwProvider::absorb(&mut r, &rows, Some(v(70.0)));
    assert_eq!(r.get(Metric::CpuTempC), Some(v(72.0)));
    assert_eq!(r.get(Metric::CpuPowerW), Some(v(95.0)));
    assert_eq!(r.sample(Metric::CpuTempC).unwrap().provider, "libre-hw");

    let cores_only = vec![row("/amdcpu/0/temperature/2", "Temperature", "Core #2", 66.0)];
    let mut r = Reading::new();
    LibreHwProvider::absorb(&mut r, &cores_only, Some(v(66.0)));
    assert_eq!(r.get(Metric::CpuTempC), Some(v(66.0)));
    assert_eq!(r.get(Metric::CpuPowerW), None);
}

fn counters(name: &str, perf: Option<f64>, time: Option<f64>, freq: Option<f64>) -> CounterRow {
    CounterRow {
        name: Some(name.to_string()),
        performance: perf.map(v),
        time: time.map(v),
        frequency: freq.map(v),
    }
}

#[test]
fn the_total_instance_gives_the_averages_and_the_cores_the_maximum() {
    let rows = vec![
        counters("0,0", Some(150.0), Some(80.0), Some(3200.0)),
        counters("0,_Total", Some(60.0), Some(20.0), Some(3200.0)),
        counters("0,1", Some(178.0), Some(90.0), Some(3200.0)),
    ];
    let mut r = Reading::new();
    PerfCountersProvider::absorb(&mut r, &rows, Some(v(178.0)));
    assert_eq!(r.get(Metric::CpuAvgPerfPct), Some(v(60.0)));
    assert_eq!(r.get(Metric::CpuUtilPct), Some(v(20.0)));
    assert_eq!(r.get(Metric::CpuNominalMhz), Some(v(3200.0)));
    assert_eq!(r.get(Metric::CpuMaxCorePct), Some(v(178.0)));
    assert!(PerfCountersProvider::is_total("_Total"));
    assert!(!PerfCountersProvider::is_total("0,3"));
}

#[test]
fn the_card_with_the_smallest_index_is_kept_as_a_number() {
    let rows = vec![
        row("/gpu-amd/10/temperature/0", "Temperature", "GPU Core", 80.0),
        row("/gpu-amd/2/temperature/0", "Temperature", "GPU Core", 55.0),
    ];
    assert_eq!(AmdGpuProvider::target(&rows).as_deref(), Some("/gpu-amd/2"));
    let mut r = Reading::new();
    AmdGpuProvider::absorb(&mut r, &rows);
    assert_eq!(r.get(Metric::GpuTempC), Some(v(55.0)));
    let named = vec![
        row("/gpu-amd/x/temperature/0", "Temperature", "GPU Core", 70.0),
        row("/amdgpu/3/temperature/0", "Temperature", "GPU Core", 65.0),
    ];
    assert_eq!(AmdGpuProvider::target(&named).as_deref(), Some("/amdgpu/3"));
}
