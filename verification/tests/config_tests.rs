use mirror::config::{default_as_false, default_as_true, MirrorConfig};

#[test]
fn load_or_default_adopts_a_loaded_configuration() {
    let loaded = MirrorConfig {
        multithreading: false,
        obs_capture: false,
        connect_on_startup: true,
        last_connector: Some("kvm".to_string()),
        last_connector_args: None,
        last_os: Some("win32".to_string()),
        last_os_args: None,
    };
    let c = MirrorConfig::load_or_default(Some(loaded));
    assert!(!c.multithreading);
    assert!(c.connect_on_startup);
    assert_eq!(c.last_connector.as_deref(), Some("kvm"));
}

#[test]
fn load_or_default_falls_back_to_defaults() {
    let c = MirrorConfig::load_or_default(None);
    assert!(c.multithreading);
    assert!(c.obs_capture);
    assert!(!c.connect_on_startup);
    assert!(c.last_connector.is_none());
    assert!(c.last_connector_args.is_none());
    assert!(c.last_os.is_none());
    assert!(c.last_os_args.is_none());
}

#[test]
fn absent_flags_default_to_off() {
    assert!(!default_as_false());
    assert!(!default_as_true());
}

#[test]
fn connect_on_startup_needs_remembered_plugins() {
    let mut c = MirrorConfig::default();
    assert!(!c.can_connect_on_startup());
    c.connect_on_startup = true;
    assert!(!c.can_connect_on_startup());
    c.last_connector = Some("kvm".to_string());
    assert!(!c.can_connect_on_startup());
    c.last_os = Some("win32".to_string());
    assert!(c.can_connect_on_startup());
}
