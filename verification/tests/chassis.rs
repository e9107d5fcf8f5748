use thermal_lab::capabilities::{collect, metric_info};
use thermal_lab::flyout::{Flyout, Toggle, REOPEN_GUARD_MS, SETTLE_MS};
use thermal_lab::i18n::{lang_from_langid, pick, Lang};
use thermal_lab::power::state;
use thermal_lab::sensors::hub::{publish_statuses, Cycle, ProviderStatus, Slot, Step, REPROBE_EVERY};
use thermal_lab::sensors::metric::Metric;
use thermal_lab::sensors::provider::{ProbeState, Sampled};
use thermal_lab::sensors::registry::infos;
use thermal_lab::settings::{Prefs, Settings};
use thermal_lab::tray::{autostart_error, menu_command, tick_after, tooltip_text, MenuCommand, Tooltip};
use thermal_lab::update::{progress_mark, Download, Progress, PROGRESS_STEP_BYTES};

fn statuses(ready: &[bool]) -> Vec<ProviderStatus> {
    infos(Lang::En)
        .into_iter()
        .zip(ready.iter())
        .map(|(info, r)| ProviderStatus {
            info,
            state: if *r { ProbeState::Ready } else { ProbeState::unavailable_only("absent") },
        })
        .collect()
}

#[test]
fn a_missing_quantity_names_who_would_measure_it() {
    let ps = statuses(&[false, false, true, false, true, false, true]);
    let temp = metric_info(Metric::CpuTempC, &ps);
    assert!(temp.available);
    assert_eq!(temp.unit, "°C");
    assert_eq!(temp.provided_by, vec!["Core Temp", "HWiNFO", "LibreHardwareMonitor"]);
    let gpu = metric_info(Metric::GpuPowerW, &ps);
    assert!(!gpu.available);
    assert_eq!(gpu.provided_by, vec!["GPU AMD (LibreHardwareMonitor)", "NVIDIA (nvidia-smi)"]);
}

#[test]
fn power_control_needs_the_rights() {
    let elevated = state("g".to_string(), "n".to_string(), None, None, true);
    let c = collect(statuses(&[true; 7]), vec![], &Ok(elevated), Lang::En);
    assert!(c.can_control_power);
    assert_eq!(c.power_blocked_reason, None);
    assert_eq!(c.metrics.len(), 11);
    assert_eq!(c.metrics[0].metric, Metric::CpuTempC);

    let plain = state("g".to_string(), "n".to_string(), None, None, false);
    let c = collect(statuses(&[true; 7]), vec![], &Ok(plain), Lang::Fr);
    assert!(!c.can_control_power);
    assert_eq!(
        c.power_blocked_reason.as_deref(),
        Some("droits administrateur requis pour modifier le schema d'alimentation")
    );
    let c = collect(vec![], vec![], &Err("powercfg introuvable".to_string()), Lang::En);
    assert!(!c.can_control_power);
    assert_eq!(c.power_blocked_reason.as_deref(), Some("powercfg introuvable"));
    assert!(c.metrics.iter().all(|m| !m.available && m.provided_by.is_empty()));
}

#[test]
fn french_is_chosen_by_the_display_language_only() {
    assert_eq!(lang_from_langid(0x040c), Lang::Fr);
    assert_eq!(lang_from_langid(0x0c0c), Lang::Fr);
    assert_eq!(lang_from_langid(0x0409), Lang::En);
    assert_eq!(pick(Lang::Fr, "open", "ouvrir"), "ouvrir");
}

#[test]
fn one_cycle_in_five_retries_the_absent_providers() {
    let mut c = Cycle::new();
    let retries: Vec<bool> = (0..10).map(|_| c.begin()).collect();
    assert_eq!(retries.iter().filter(|r| **r).count(), 2);
    assert!(retries[REPROBE_EVERY as usize - 1]);
}

#[test]
fn a_provider_that_comes_up_is_read_in_the_same_cycle() {
    let mut s = Slot::new(ProbeState::unavailable_only("absent"));
    assert_eq!(s.start(false), Step::Done);
    assert_eq!(s.start(true), Step::Probe);
    assert_eq!(s.probed(ProbeState::Ready), (Step::Sample, true));
    assert!(s.is_ready());
    assert_eq!(s.sampled(Sampled::Answered), Step::Done);
    assert_eq!(s.start(false), Step::Sample);
}

#[test]
fn a_lost_source_is_probed_again_and_not_reread() {
    let mut s = Slot::new(ProbeState::Ready);
    assert_eq!(s.start(false), Step::Sample);
    assert_eq!(s.sampled(Sampled::Lost), Step::Probe);
    assert_eq!(s.probed(ProbeState::Ready), (Step::Done, false));
    assert_eq!(s.start(false), Step::Sample);
    assert_eq!(s.sampled(Sampled::Lost), Step::Probe);
    assert_eq!(s.probed(ProbeState::unavailable_only("ferme")), (Step::Done, true));
    assert!(!s.is_ready());
    let published = publish_statuses(&infos(Lang::En), &vec![s]);
    assert_eq!(published.len(), 1);
    assert_eq!(published[0].info.id, "core-temp");
    assert!(!published[0].state.is_ready());
}

#[test]
fn the_consent_is_kept_and_reported() {
    let mut s = Settings::new(Some("C:\\cfg\\settings.json".to_string()), Prefs::default());
    assert!(!s.prefs().auto_update);
    assert_eq!(
        s.to_save(true),
        Ok(("C:\\cfg\\settings.json".to_string(), Prefs { auto_update: true }))
    );
    assert!(!s.prefs().auto_update);
    assert_eq!(s.set_auto_update(true, Ok(())), Ok(Prefs { auto_update: true }));
    assert!(s.prefs().auto_update);
    assert_eq!(s.path().as_deref(), Some("C:\\cfg\\settings.json"));
}

#[test]
fn a_failed_save_leaves_the_preferences_unchanged() {
    let mut s = Settings::new(Some("C:\\cfg\\settings.json".to_string()), Prefs::default());
    assert_eq!(
        s.set_auto_update(true, Err("C:\\cfg : acces refuse".to_string())),
        Err("C:\\cfg : acces refuse".to_string())
    );
    assert!(!s.prefs().auto_update);

    let mut nowhere = Settings::new(None, Prefs::default());
    assert_eq!(nowhere.to_save(true), Err("dossier de configuration introuvable".to_string()));
    assert_eq!(
        nowhere.set_auto_update(true, Ok(())),
        Err("dossier de configuration introuvable".to_string())
    );
    assert!(!nowhere.prefs().auto_update);
}

#[test]
fn progress_moves_by_whole_percent_or_by_steps() {
    assert_eq!(progress_mark(50, Some(200)), 25);
    assert_eq!(progress_mark(3 * PROGRESS_STEP_BYTES + 1, None), 3);
    assert_eq!(progress_mark(3 * PROGRESS_STEP_BYTES, Some(0)), 3);
    let mut d = Download::new();
    assert_eq!(d.chunk(1, Some(1000)), None);
    assert_eq!(d.chunk(9, Some(1000)), Some(Progress { downloaded: 10, total: Some(1000) }));
    assert_eq!(d.chunk(5, Some(1000)), None);
    assert_eq!(d.chunk(990, Some(1000)), Some(Progress { downloaded: 1005, total: Some(1000) }));
}

#[test]
fn the_click_that_hid_the_panel_does_not_reopen_it() {
    let mut f = Flyout::new(true);
    assert_eq!(f.toggle(1_000, false), Toggle::Show { place: true });
    f.on_focus_gained();
    let later = 1_000 + SETTLE_MS;
    assert!(f.on_focus_lost(later));
    assert_eq!(f.toggle(later + REOPEN_GUARD_MS - 1, false), Toggle::Ignore);
    assert_eq!(f.toggle(later + REOPEN_GUARD_MS - 1, false), Toggle::Show { place: true });
    assert_eq!(f.toggle(later + 5_000, true), Toggle::Hide);
}

#[test]
fn a_panel_stays_while_settling_pinned_or_unfocused() {
    let mut f = Flyout::new(true);
    f.show(1_000);
    assert!(!f.on_focus_lost(5_000));
    f.on_focus_gained();
    assert!(!f.on_focus_lost(1_000 + SETTLE_MS - 1));
    f.set_pinned(true);
    assert!(f.is_pinned());
    assert!(!f.on_focus_lost(10_000));
    assert!(!f.show(20_000));
    let mut dev = Flyout::new(false);
    dev.show(0);
    dev.on_focus_gained();
    assert!(!dev.on_focus_lost(10_000));
}

#[test]
fn the_menu_entries_and_the_tooltip() {
    assert_eq!(menu_command("open"), Some(MenuCommand::Open));
    assert_eq!(menu_command("toggle"), Some(MenuCommand::Toggle));
    assert_eq!(menu_command("autostart"), Some(MenuCommand::Autostart));
    assert_eq!(menu_command("quit"), Some(MenuCommand::Quit));
    assert_eq!(menu_command("other"), None);
    assert_eq!(tick_after(true, false), Some(false));
    assert_eq!(tick_after(true, true), None);
    assert_eq!(thermal_lab::tray::line("CPU", Some("61 °C".to_string()), Some("35 W".to_string())), "CPU 61 °C · 35 W\n");
    assert_eq!(thermal_lab::tray::line("GPU", None, Some("35 W".to_string())), "GPU 35 W\n");
    assert_eq!(thermal_lab::tray::line("GPU", None, None), "");
    assert_eq!(
        tooltip_text(Lang::Fr, true, "CPU 61 °C\n", ""),
        "Thermal Lab — optimisation active\nCPU 61 °C\n"
    );
    let mut t = Tooltip::new();
    assert!(t.refresh("a"));
    assert!(!t.refresh("a"));
    assert!(t.refresh("b"));
    assert_eq!(autostart_error(Lang::En, "x"), "autostart: x");
    assert_eq!(autostart_error(Lang::Fr, "x"), "démarrage automatique : x");
}
