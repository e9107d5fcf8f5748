use thermal_lab::tools::{
    app_paths_key, by_provider, check_url, display_matches, expand, icon_executable, install_cache_fresh,
    is_running,
    launch_target, launched, opened, same_executable, statuses, tool, tools, unquote_path,
    variables, wide_to_string, ToolStatus,
};

fn paths(core: Option<&str>, hw: Option<&str>, lhm: Option<&str>) -> Vec<Option<String>> {
    vec![core.map(String::from), hw.map(String::from), lhm.map(String::from)]
}

#[test]
fn every_provider_maps_to_a_known_tool() {
    for (provider, tool_id) in by_provider() {
        assert!(tool(tool_id).is_some(), "{provider} renvoie vers l'outil inconnu {tool_id}");
    }
}

#[test]
fn portable_tools_are_not_claimed_absent() {
    let lhm = tool("libre-hw").expect("outil connu");
    assert!(lhm.needle.is_none());
    let statuses = statuses(&paths(None, None, None), &vec![]);
    let status = &statuses.iter().find(|(p, _)| *p == "libre-hw").expect("libre-hw").1;
    assert!(status.installed || !status.certain);
    assert!(!status.certain);
}

#[test]
fn reported_state_is_self_consistent() {
    let found = paths(Some(r"C:\Program Files\Core Temp\Core Temp.exe"), None, Some(r"D:\LHM\LibreHardwareMonitor.exe"));
    let images = vec!["core temp.exe".to_string(), "explorer.exe".to_string()];
    for (provider, s) in statuses(&found, &images) {
        println!(
            "{provider:<10} installe={:<5} certain={:<5} tourne={:<5} lancable={:<5} {}",
            s.installed,
            s.certain,
            s.running,
            s.launchable,
            s.path.clone().unwrap_or_else(|| "-".into())
        );
        assert_eq!(s.installed, s.path.is_some());
        assert_eq!(s.launchable, s.installed && !s.running);
    }
}

#[test]
fn launchable_requires_installed_and_stopped() {
    let t = tool("core-temp").expect("outil connu");
    let somewhere = Some(r"C:\Program Files\Core Temp\Core Temp.exe".to_string());

    assert!(ToolStatus::new(&t, somewhere.clone(), false).launchable);
    assert!(!ToolStatus::new(&t, somewhere, true).launchable);
    assert!(!ToolStatus::new(&t, None, false).launchable);
}

#[test]
fn only_web_addresses_are_opened() {
    assert!(check_url(r"C:\Windows\System32\calc.exe").is_err());
    assert!(check_url("file:///C:/Windows/System32/calc.exe").is_err());
    assert!(check_url("javascript:alert(1)").is_err());
    assert_eq!(check_url("https://www.hwinfo.com/"), Ok(()));
    assert_eq!(check_url("http://localhost:8085/"), Ok(()));
    assert_eq!(check_url("ftp://x"), Err("adresse refusée : ftp://x".to_string()));
}

#[test]
fn expands_environment_variables() {
    assert_eq!(variables(r"%THERMAL_LAB_TEST_DIR%\outil.exe"), vec!["THERMAL_LAB_TEST_DIR"]);
    assert_eq!(
        expand(r"%THERMAL_LAB_TEST_DIR%\outil.exe", &vec![Some(r"C:\ailleurs".to_string())]),
        r"C:\ailleurs\outil.exe"
    );
    assert_eq!(expand(r"C:\sans\variable", &vec![]), r"C:\sans\variable");
    assert_eq!(expand("%INCONNU_ICI%\\x", &vec![None]), "%INCONNU_ICI%\\x");
}

#[test]
fn expansion_follows_the_references_in_order() {
    let path = "%A%\\mid\\%B%\\end%unclosed";
    assert_eq!(variables(path), vec!["A", "B"]);
    assert_eq!(
        expand(path, &vec![Some("x".to_string()), Some("y".to_string())]),
        "x\\mid\\y\\end%unclosed"
    );
    assert_eq!(expand(path, &vec![Some("x".to_string())]), "x\\mid\\%B%\\end%unclosed");
}

#[test]
fn the_running_tool_is_found_by_executable_or_alias() {
    let table = tools();
    let hw = &table[1];
    assert!(is_running(hw, &vec!["hwinfo32.exe".to_string()]));
    assert!(is_running(hw, &vec!["hwinfo64.exe".to_string()]));
    assert!(!is_running(hw, &vec!["hwinfo-other.exe".to_string()]));
    let s = statuses(&paths(None, Some(r"C:\HW\HWiNFO64.exe"), None), &vec!["hwinfo64.exe".to_string()]);
    let hw_status = &s.iter().find(|(p, _)| *p == "hwinfo").unwrap().1;
    assert!(hw_status.running && hw_status.installed && !hw_status.launchable);
    let amd = &s.iter().find(|(p, _)| *p == "amd-gpu").unwrap().1;
    assert_eq!(amd.id, "libre-hw");
    assert_eq!(s.len(), 4);
}

#[test]
fn process_names_are_decoded_up_to_the_terminator() {
    let mut raw = [0u16; 16];
    for (i, u) in "Hi.exe".encode_utf16().enumerate() {
        raw[i] = u;
    }
    raw[10] = 'X' as u16;
    assert_eq!(wide_to_string(&raw), "Hi.exe");
    let full: Vec<u16> = "abc".encode_utf16().collect();
    assert_eq!(wide_to_string(&full), "abc");
}

#[test]
fn registry_entries_are_read_as_windows_writes_them() {
    assert!(display_matches("HWiNFO64 Version 8.10", "hwinfo"));
    assert!(!display_matches("Core Temp", "HWiNFO"));
    assert_eq!(icon_executable("\"C:\\HW\\HWiNFO64.exe\",0"), "C:\\HW\\HWiNFO64.exe");
    assert_eq!(icon_executable(" C:\\HW\\HWiNFO64.exe "), "C:\\HW\\HWiNFO64.exe");
    assert_eq!(unquote_path("  \"C:\\x y\\a.exe\"  "), "C:\\x y\\a.exe");
    assert!(same_executable("hwinfo64.EXE", "HWiNFO64.exe"));
    assert!(!same_executable("hwinfo32.exe", "HWiNFO64.exe"));
    assert_eq!(
        app_paths_key("Core Temp.exe"),
        "SOFTWARE\\Microsoft\\Windows\\CurrentVersion\\App Paths\\Core Temp.exe"
    );
}

#[test]
fn launching_needs_a_known_and_located_tool() {
    let found = paths(Some(r"C:\CT\Core Temp.exe"), None, None);
    assert_eq!(launch_target("core-temp", &found), Ok(r"C:\CT\Core Temp.exe".to_string()));
    assert_eq!(
        launch_target("hwinfo", &found),
        Err("HWiNFO est introuvable sur cette machine".to_string())
    );
    assert_eq!(launch_target("gpu-z", &found), Err("outil inconnu : gpu-z".to_string()));
}

#[test]
fn shell_answers_are_told_apart() {
    assert_eq!(launched("Core Temp", 42), Ok(()));
    assert_eq!(launched("Core Temp", 5), Err("Core Temp : élévation non accordée".to_string()));
    assert_eq!(launched("HWiNFO", 2), Err("HWiNFO : introuvable à l'emplacement connu".to_string()));
    assert_eq!(launched("HWiNFO", 3), Err("HWiNFO : introuvable à l'emplacement connu".to_string()));
    assert_eq!(launched("HWiNFO", 31), Err("HWiNFO : lancement impossible (code 31)".to_string()));
    assert_eq!(opened(33), Ok(()));
    assert_eq!(opened(0), Err("ouverture impossible (code 0)".to_string()));
    assert_eq!(opened(-1), Err("ouverture impossible (code -1)".to_string()));
}

#[test]
fn tool_locations_are_trusted_for_thirty_seconds() {
    assert!(!install_cache_fresh(None, 5));
    assert!(install_cache_fresh(Some(1_000), 30_999));
    assert!(!install_cache_fresh(Some(1_000), 31_000));
    assert!(install_cache_fresh(Some(2_000), 1_000));
}

#[test]
fn surrogates_are_paired_and_strays_replaced() {
    let mut raw: Vec<u16> = "a😀".encode_utf16().collect();
    raw.push(0xD800);
    raw.push(b'b' as u16);
    raw.push(0xDC00);
    raw.push(0);
    raw.push(b'z' as u16);
    assert_eq!(wide_to_string(&raw), "a😀\u{FFFD}b\u{FFFD}");
}

#[test]
fn each_provider_is_reported_once() {
    let s = statuses(&paths(None, None, None), &vec![]);
    let mut ids: Vec<&str> = s.iter().map(|(p, _)| *p).collect();
    assert_eq!(ids, vec!["core-temp", "hwinfo", "libre-hw", "amd-gpu"]);
    ids.sort();
    ids.dedup();
    assert_eq!(ids.len(), 4);
}
