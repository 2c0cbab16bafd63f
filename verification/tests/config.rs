use ear_native::config::AppConfig;

#[test]
fn remembering_a_name_reports_changes() {
    let mut c = AppConfig::empty();
    assert!(c.remember_device_name("AA", "Ear"));
    assert!(!c.remember_device_name("AA", "Ear"));
    assert!(c.remember_device_name("AA", "Ear (2)"));
    assert_eq!(c.known_devices.len(), 1);
    assert_eq!(c.known_devices[0].1.name, "Ear (2)");
}

#[test]
fn remembering_the_connected_device() {
    let mut c = AppConfig::empty();
    assert!(c.remember_connected_device("AA"));
    assert!(!c.remember_connected_device("AA"));
    assert_eq!(c.last_connected_device_id.as_deref(), Some("AA"));
    assert_eq!(c.last_connected_mac_address.as_deref(), Some("AA"));
    assert!(c.remember_connected_device("BB"));
}

#[test]
fn remembering_metadata() {
    let mut c = AppConfig::empty();
    assert_eq!(c.known_model_key("AA"), None);
    assert!(c.remember_device_metadata("AA", Some("Nothing Ear (2)"), Some("ear_2_white"), Some("17")));
    assert_eq!(c.known_model_key("AA"), Some("ear_2_white"));
    assert!(!c.remember_device_metadata("AA", None, Some("ear_2_white"), None));
    assert!(c.remember_device_metadata("AA", None, None, Some("18")));
    assert_eq!(c.known_devices[0].1.sku.as_deref(), Some("18"));
    assert_eq!(c.known_devices[0].1.name, "Nothing Ear (2)");
    assert_eq!(c.known_model_key("BB"), None);
}

#[test]
fn loading_falls_back_to_defaults() {
    let c = AppConfig::load_or_default(Err("missing".to_string()));
    assert!(c.last_connected_device_id.is_none());
    assert!(c.known_devices.is_empty());
    let mut saved = AppConfig::empty();
    saved.remember_connected_device("AA");
    let c = AppConfig::load_or_default(Ok(saved));
    assert_eq!(c.last_connected_device_id.as_deref(), Some("AA"));
}
