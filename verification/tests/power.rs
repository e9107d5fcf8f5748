use thermal_lab::power::{
    after_write, first_write, RunOutcome, WriteStep,
    extract_guid, extract_name, parse_active_scheme, powercfg_failure, set_optimized, setting_path,
    state, PERFBOOSTMODE, PROCTHROTTLEMAX, SUB_PROCESSOR,
};

#[test]
fn parses_guid_from_localized_output() {
    let fr = "GUID du mode de gestion de l'alimentation : 4e2a2b94-6646-493e-9f10-64f712e088aa  (Camomile)";
    assert_eq!(
        extract_guid(fr).as_deref(),
        Some("4e2a2b94-6646-493e-9f10-64f712e088aa")
    );
    assert_eq!(extract_name(fr), "Camomile");
}

#[test]
fn parses_guid_from_english_output() {
    let en = "Power Scheme GUID: 381b4222-f694-41f0-9685-ff5bb260df2e  (Balanced)";
    assert_eq!(
        extract_guid(en).as_deref(),
        Some("381b4222-f694-41f0-9685-ff5bb260df2e")
    );
    assert_eq!(extract_name(en), "Balanced");
}

#[test]
fn rejects_malformed_guid() {
    assert_eq!(extract_guid("pas de guid ici 1234-56"), None);
}

#[test]
fn a_guid_in_capitals_is_given_in_lowercase() {
    assert_eq!(
        extract_guid("GUID: 381B4222-F694-41F0-9685-FF5BB260DF2E").as_deref(),
        Some("381b4222-f694-41f0-9685-ff5bb260df2e")
    );
}

#[test]
fn the_case_of_the_output_does_not_change_the_guid() {
    let fr = "GUID du mode de gestion de l'alimentation : 4e2a2b94-6646-493e-9f10-64f712e088aa  (Camomile)";
    assert_eq!(extract_guid(&fr.to_ascii_uppercase()), extract_guid(fr));
    assert_eq!(extract_guid(&"pas de guid ici 1234-56".to_ascii_uppercase()), None);
}

#[test]
fn a_scheme_without_a_name_is_named_so() {
    assert_eq!(extract_name("GUID: 381b4222-f694-41f0-9685-ff5bb260df2e"), "(sans nom)");
    assert_eq!(extract_name("x ( Mon schema )"), "Mon schema");
}

#[test]
fn the_active_scheme_needs_a_guid() {
    assert_eq!(
        parse_active_scheme("rien"),
        Err("GUID du schema actif introuvable".to_string())
    );
    assert_eq!(
        parse_active_scheme("Power Scheme GUID: 381b4222-f694-41f0-9685-ff5bb260df2e  (Balanced)"),
        Ok(("381b4222-f694-41f0-9685-ff5bb260df2e".to_string(), "Balanced".to_string()))
    );
}

#[test]
fn either_lever_caps_the_turbo() {
    let s = state("g".to_string(), "n".to_string(), None, None, true);
    assert_eq!((s.boost_mode, s.throttle_max, s.optimized), (2, 100, false));
    assert!(state("g".to_string(), "n".to_string(), Some(0), None, true).optimized);
    assert!(state("g".to_string(), "n".to_string(), None, Some(99), false).optimized);
    assert!(!state("g".to_string(), "n".to_string(), Some(2), Some(100), false).optimized);
}

#[test]
fn capping_writes_both_levers_then_activates() {
    let out = "Power Scheme GUID: 381b4222-f694-41f0-9685-ff5bb260df2e  (Balanced)".to_string();
    let g = "381b4222-f694-41f0-9685-ff5bb260df2e";
    let cmds = set_optimized(true, Ok(out.clone()), true).expect("commands");
    assert_eq!(cmds.len(), 5);
    assert_eq!(cmds[0], vec!["/setacvalueindex", g, SUB_PROCESSOR, PERFBOOSTMODE, "0"]);
    assert_eq!(cmds[1], vec!["/setdcvalueindex", g, SUB_PROCESSOR, PERFBOOSTMODE, "0"]);
    assert_eq!(cmds[2], vec!["/setacvalueindex", g, SUB_PROCESSOR, PROCTHROTTLEMAX, "99"]);
    assert_eq!(cmds[3], vec!["/setdcvalueindex", g, SUB_PROCESSOR, PROCTHROTTLEMAX, "99"]);
    assert_eq!(cmds[4], vec!["/setactive", g]);
    let free = set_optimized(true, Ok(out), false).expect("commands");
    assert_eq!(free[0][4], "2");
    assert_eq!(free[2][4], "100");
}

#[test]
fn capping_is_refused_without_rights_or_scheme() {
    assert_eq!(
        set_optimized(false, Ok("x".to_string()), true),
        Err("droits administrateur requis pour modifier le schema d'alimentation".to_string())
    );
    assert_eq!(
        set_optimized(true, Err("powercfg introuvable".to_string()), true),
        Err("powercfg introuvable".to_string())
    );
    assert_eq!(
        set_optimized(true, Ok("sortie".to_string()), true),
        Err("GUID du schema actif introuvable".to_string())
    );
}

#[test]
fn registry_paths_and_failures_read_as_expected() {
    assert_eq!(
        setting_path("g", "s"),
        format!("SYSTEM\\CurrentControlSet\\Control\\Power\\User\\PowerSchemes\\g\\{SUB_PROCESSOR}\\s")
    );
    assert_eq!(
        powercfg_failure(&vec!["/setactive".to_string(), "g".to_string()], "", " Acces refuse. "),
        "powercfg /setactive g a echoue : Acces refuse."
    );
}

#[test]
fn the_values_written_read_back_as_the_requested_cap() {
    let out = "Power Scheme GUID: 381b4222-f694-41f0-9685-ff5bb260df2e  (Balanced)".to_string();
    for on in [true, false] {
        let cmds = set_optimized(true, Ok(out.clone()), on).expect("commands");
        let boost: u32 = cmds[0][4].parse().unwrap();
        let throttle: u32 = cmds[2][4].parse().unwrap();
        let read = state("g".to_string(), "n".to_string(), Some(boost), Some(throttle), true);
        assert_eq!(read.optimized, on);
    }
}

#[test]
fn a_failed_write_stops_the_sequence() {
    let out = "Power Scheme GUID: 381b4222-f694-41f0-9685-ff5bb260df2e  (Balanced)".to_string();
    let cmds = set_optimized(true, Ok(out), true).expect("commands");
    assert!(matches!(first_write(&cmds), WriteStep::Run(0)));
    assert!(matches!(after_write(&cmds, 0, RunOutcome::Succeeded), WriteStep::Run(1)));
    assert!(matches!(after_write(&cmds, 4, RunOutcome::Succeeded), WriteStep::Finished));
    match after_write(
        &cmds,
        1,
        RunOutcome::Failed { stderr: " Acces refuse. ".to_string(), stdout: String::new() },
    ) {
        WriteStep::Failed(m) => assert_eq!(
            m,
            format!(
                "powercfg /setdcvalueindex 381b4222-f694-41f0-9685-ff5bb260df2e {SUB_PROCESSOR} {PERFBOOSTMODE} 0 a echoue : Acces refuse."
            )
        ),
        _ => panic!("the sequence must stop"),
    }
    match after_write(&cmds, 3, RunOutcome::NotStarted { error: "introuvable".to_string() }) {
        WriteStep::Failed(m) => assert_eq!(m, "powercfg introuvable : introuvable"),
        _ => panic!("the sequence must stop"),
    }
    assert!(matches!(first_write(&vec![]), WriteStep::Finished));
}
