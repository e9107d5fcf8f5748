use thermal_lab::autostart::{
    create_args, delete_args, elevated_outcome, elevated_parameters, elevation_refused, quote,
    shows_on_launch, schtasks_failure, task_targets, ERROR_CANCELLED, SILENT_FLAG, TASK,
};

#[test]
fn quotes_only_what_needs_it() {
    assert_eq!(quote("/Create"), "/Create");
    assert_eq!(quote("Thermal Lab"), "\"Thermal Lab\"");
}

#[test]
fn nests_the_quotes_of_the_task_action() {
    let action = "\"C:\\Program Files\\Thermal Lab\\thermal-lab.exe\" --silent";
    assert_eq!(
        quote(action),
        "\"\\\"C:\\Program Files\\Thermal Lab\\thermal-lab.exe\\\" --silent\""
    );
}

#[test]
fn the_task_is_elevated_silent_and_bound_to_logon() {
    let args = create_args(
        Ok(r"C:\Program Files\Thermal Lab\thermal-lab.exe".to_string()),
        Some("BUREAU".to_string()),
        Some("alice".to_string()),
    )
    .expect("arguments constructibles");
    let joined = args.join(" ");
    assert!(joined.contains("/RL HIGHEST"), "{joined}");
    assert!(joined.contains("/SC ONLOGON"), "{joined}");
    assert!(joined.contains("/IT"), "{joined}");
    assert!(joined.contains(SILENT_FLAG), "{joined}");
    assert!(args.contains(&TASK.to_string()));
}

const SAMPLE: &str = r#"<Task version="1.4">
  <Principals><Principal id="Author"><RunLevel>HighestAvailable</RunLevel></Principal></Principals>
  <Actions Context="Author">
    <Exec>
      <Command>D:\Outils\Thermal Lab\thermal-lab.exe</Command>
      <Arguments>--silent</Arguments>
    </Exec>
  </Actions>
</Task>"#;

#[test]
fn recognises_the_executable_it_points_at() {
    assert!(task_targets(SAMPLE, r"D:\Outils\Thermal Lab\thermal-lab.exe"));
}

#[test]
fn ignores_case() {
    assert!(task_targets(SAMPLE, r"d:\outils\thermal lab\THERMAL-LAB.EXE"));
}

#[test]
fn a_task_left_behind_elsewhere_does_not_count() {
    assert!(!task_targets(SAMPLE, r"C:\Ailleurs\thermal-lab.exe"));
}

#[test]
fn deletion_does_not_prompt() {
    assert!(delete_args().contains(&"/F".to_string()));
}

#[test]
fn the_task_runs_under_the_session_account() {
    let args = create_args(
        Ok(r"C:\T\thermal-lab.exe".to_string()),
        Some("BUREAU".to_string()),
        Some("alice".to_string()),
    )
    .unwrap();
    assert_eq!(
        args,
        vec![
            "/Create",
            "/TN",
            "Thermal Lab",
            "/TR",
            "\"C:\\T\\thermal-lab.exe\" --silent",
            "/SC",
            "ONLOGON",
            "/RL",
            "HIGHEST",
            "/RU",
            "BUREAU\\alice",
            "/IT",
            "/F",
        ]
    );
    let bare = create_args(Ok("x.exe".to_string()), None, Some("bob".to_string())).unwrap();
    assert_eq!(bare[10], "bob");
}

#[test]
fn a_missing_account_or_executable_is_reported() {
    assert_eq!(
        create_args(Ok("x.exe".to_string()), Some("D".to_string()), None),
        Err("compte utilisateur courant indeterminable".to_string())
    );
    assert_eq!(
        create_args(Err("acces refuse".to_string()), None, Some("bob".to_string())),
        Err("chemin de l'executable introuvable : acces refuse".to_string())
    );
}

#[test]
fn unticking_deletes_the_task() {
    assert_eq!(
        thermal_lab::autostart::set(false, Err("ignored".to_string()), None, None),
        Ok(vec![
            "/Delete".to_string(),
            "/TN".to_string(),
            "Thermal Lab".to_string(),
            "/F".to_string()
        ])
    );
}

#[test]
fn elevated_parameters_quote_each_argument() {
    let args = vec!["/Delete".to_string(), "/TN".to_string(), "Thermal Lab".to_string(), "/F".to_string()];
    assert_eq!(elevated_parameters(&args), "/Delete /TN \"Thermal Lab\" /F");
}

#[test]
fn elevation_outcomes_are_told_apart() {
    assert_eq!(elevation_refused(ERROR_CANCELLED), "élévation non accordée");
    assert_eq!(elevation_refused(5), "élévation impossible (code 5)");
    assert_eq!(elevated_outcome(true, true, 0), Ok(()));
    assert_eq!(elevated_outcome(false, true, 0), Err("schtasks n'a pas rendu la main".to_string()));
    assert_eq!(elevated_outcome(true, false, 0), Err("code de sortie de schtasks illisible".to_string()));
    assert_eq!(elevated_outcome(true, true, 1), Err("schtasks a echoue (code 1)".to_string()));
}

#[test]
fn a_direct_failure_says_what_schtasks_said() {
    assert_eq!(schtasks_failure("  acces refuse \r\n", "ignored"), "schtasks a echoue : acces refuse");
    assert_eq!(schtasks_failure("  ", " sortie "), "schtasks a echoue : sortie");
}

#[test]
fn the_silent_start_keeps_the_panel_closed() {
    assert!(shows_on_launch(&vec!["thermal-lab.exe".to_string()]));
    assert!(!shows_on_launch(&vec!["thermal-lab.exe".to_string(), "--silent".to_string()]));
}
