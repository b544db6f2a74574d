use gallery_core::settings::{Settings, SettingsRegistry};
use gallery_core::CoreError;

#[test]
fn read_before_init_is_not_found() {
    let registry = SettingsRegistry::new();
    assert!(matches!(registry.get(), Err(CoreError::NotFound)));
}

#[test]
fn init_installs_the_defaults() {
    let mut registry = SettingsRegistry::new();
    registry.init(Settings::default()).unwrap();
    let s = registry.get().unwrap();
    assert!(!s.notifications);
    assert_eq!(s.username, "");
}

#[test]
fn second_init_is_reported_and_keeps_the_first_value() {
    let mut registry = SettingsRegistry::new();
    registry
        .init(Settings { notifications: true, username: "ada".to_string() })
        .unwrap();
    let second = registry.init(Settings::default());
    assert!(matches!(second, Err(CoreError::AlreadyInitialized)));
    let s = registry.get().unwrap();
    assert!(s.notifications);
    assert_eq!(s.username, "ada");
}

#[test]
fn preferences_can_be_updated_after_init() {
    let mut registry = SettingsRegistry::new();
    registry.init(Settings::default()).unwrap();
    registry.set_notifications(true).unwrap();
    registry.set_username("grace".to_string()).unwrap();
    let s = registry.get().unwrap();
    assert!(s.notifications);
    assert_eq!(s.username, "grace");
}

#[test]
fn updates_before_init_are_not_found() {
    let mut registry = SettingsRegistry::new();
    assert!(matches!(registry.set_notifications(true), Err(CoreError::NotFound)));
    assert!(matches!(registry.set_username("x".to_string()), Err(CoreError::NotFound)));
    assert!(matches!(registry.set(Settings::default()), Err(CoreError::NotFound)));
}
