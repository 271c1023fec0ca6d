use cachyos_hello::text::{contains_string, position_of_string};
use cachyos_hello::units::SystemdUnits;

fn strings(items: &[&str]) -> Vec<String> {
    items.iter().map(|s| s.to_string()).collect()
}

#[test]
fn new_units_are_empty() {
    let units = SystemdUnits::new();
    assert!(units.loaded_units.is_empty());
    assert!(units.enabled_units.is_empty());
}

#[test]
fn default_units_are_empty() {
    let units = SystemdUnits::default();
    assert!(units.loaded_units.is_empty());
    assert!(units.enabled_units.is_empty());
}

#[test]
fn clear_enabled_keeps_loaded_units() {
    let mut units = SystemdUnits::new();
    units.loaded_units = strings(&["a.service"]);
    units.enabled_units = strings(&["b.service", "c.service"]);
    units.clear_enabled();
    assert!(units.enabled_units.is_empty());
    assert_eq!(units.loaded_units, strings(&["a.service"]));
}

#[test]
fn finished_reload_replaces_enabled_units() {
    let mut units = SystemdUnits::new();
    units.loaded_units = strings(&["a.service"]);
    units.enabled_units = strings(&["old.service"]);
    units.finish_enabled_reload(Some(strings(&["psd.service", "bluetooth.service"])));
    assert_eq!(units.enabled_units, strings(&["psd.service", "bluetooth.service"]));
    assert_eq!(units.loaded_units, strings(&["a.service"]));
}

#[test]
fn failed_reload_keeps_enabled_units() {
    let mut units = SystemdUnits::new();
    units.enabled_units = strings(&["old.service"]);
    units.finish_enabled_reload(None);
    assert_eq!(units.enabled_units, strings(&["old.service"]));
}

#[test]
fn failed_reload_after_clear_leaves_nothing_enabled() {
    let mut units = SystemdUnits::new();
    units.enabled_units = strings(&["old.service"]);
    units.clear_enabled();
    units.finish_enabled_reload(None);
    assert!(units.enabled_units.is_empty());
}

#[test]
fn is_enabled_looks_for_whole_names() {
    let mut units = SystemdUnits::new();
    units.enabled_units = strings(&["psd.service"]);
    assert!(units.is_enabled("psd.service"));
    assert!(!units.is_enabled("psd"));
    assert!(!units.is_enabled(""));
}

#[test]
fn contains_string_finds_equal_strings_only() {
    let v = strings(&["x", "yz", ""]);
    assert!(contains_string(&v, "yz"));
    assert!(contains_string(&v, ""));
    assert!(!contains_string(&v, "y"));
    assert!(!contains_string(&Vec::new(), "x"));
}

#[test]
fn position_of_string_gives_first_occurrence() {
    let v = strings(&["wired", "wifi", "wired"]);
    assert_eq!(position_of_string(&v, "wired"), Some(0));
    assert_eq!(position_of_string(&v, "wifi"), Some(1));
    assert_eq!(position_of_string(&v, "vpn"), None);
}
