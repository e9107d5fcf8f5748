use std::collections::HashSet;

use thermal_lab::i18n::Lang;
use thermal_lab::sensors::provider::ProviderKind;
use thermal_lab::sensors::registry::infos;

#[test]
fn identifiers_are_unique() {
    let ids: Vec<_> = infos(Lang::En).iter().map(|p| p.id).collect();
    let unique: HashSet<_> = ids.iter().collect();
    assert_eq!(ids.len(), unique.len(), "identifiants de fournisseurs dupliques");
}

#[test]
fn every_provider_declares_what_it_measures() {
    for info in infos(Lang::Fr) {
        assert!(!info.provides.is_empty(), "{} ne declare aucune metrique", info.id);
        assert!(!info.name.is_empty());
    }
}

#[test]
fn external_providers_tell_where_to_get_them() {
    for info in infos(Lang::En) {
        if info.kind == ProviderKind::External {
            assert!(info.url.is_some(), "{} est externe sans URL", info.id);
        }
    }
}

#[test]
fn kernel_backed_providers_come_first() {
    let kinds: Vec<_> = infos(Lang::En).iter().map(|p| p.kind).collect();
    let last_external = kinds.iter().rposition(|k| *k == ProviderKind::External);
    let first_builtin = kinds.iter().position(|k| *k == ProviderKind::Builtin);
    assert!(last_external < first_builtin, "ordre de priorite incoherent");
}

#[test]
fn the_priority_order_is_the_documented_one() {
    let ids: Vec<_> = infos(Lang::En).iter().map(|p| p.id).collect();
    assert_eq!(
        ids,
        vec!["core-temp", "hwinfo", "libre-hw", "amd-gpu", "perf-counters", "nvidia-smi", "acpi"]
    );
}
