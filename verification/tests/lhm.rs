use thermal_lab::sensors::lhm::{flatten, Node};
use thermal_lab::sensors::metric::Value;

fn node(text: &str, sensor: Option<(&str, &str, f64)>, children: Vec<Node>) -> Node {
    Node {
        text: text.to_string(),
        sensor_id: sensor.map(|s| s.0.to_string()),
        kind: sensor.map(|s| s.1.to_string()),
        raw_value: sensor.map(|s| Value::from_bits(s.2.to_bits())),
        children,
    }
}

fn sample() -> Node {
    node(
        "Sensor",
        None,
        vec![node(
            "DESKTOP",
            None,
            vec![node(
                "AMD Ryzen 7",
                None,
                vec![node(
                    "Temperatures",
                    None,
                    vec![
                        node("Core (Tctl/Tdie)", Some(("/amdcpu/0/temperature/0", "Temperature", 52.375)), vec![]),
                        node("Core (Tdie)", Some(("/amdcpu/0/temperature/1", "Temperature", f64::NAN)), vec![]),
                    ],
                )],
            )],
        )],
    )
}

#[test]
fn flattens_the_tree_into_sensor_rows() {
    let rows = flatten(&sample());
    assert_eq!(rows.len(), 2, "les deux capteurs doivent ressortir");
    assert_eq!(rows[0].id, "/amdcpu/0/temperature/0");
    assert_eq!(rows[0].kind, "Temperature");
    assert_eq!(rows[0].name, "core (tctl/tdie)");
    assert_eq!(f64::from_bits(rows[0].value.bits), 52.375);
}

#[test]
fn keeps_unreadable_sensors_as_nan() {
    assert!(f64::from_bits(flatten(&sample())[1].value.bits).is_nan());
}

#[test]
fn ignores_nodes_without_a_sensor() {
    let rows = flatten(&node("root", None, vec![node("cpu", None, vec![])]));
    assert!(rows.is_empty());
}

#[test]
fn a_sensor_without_a_number_is_left_out_and_order_is_depth_first() {
    let mut silent = node("x", Some(("/a/0/x/0", "Load", 1.0)), vec![]);
    silent.raw_value = None;
    let tree = node(
        "root",
        None,
        vec![
            node("a", Some(("/a", "Load", 1.0)), vec![node("a1", Some(("/a1", "Load", 2.0)), vec![])]),
            silent,
            node("b", Some(("/b", "Clock", 3.0)), vec![]),
        ],
    );
    let ids: Vec<String> = flatten(&tree).into_iter().map(|r| r.id).collect();
    assert_eq!(ids, vec!["/a", "/a1", "/b"]);
}
