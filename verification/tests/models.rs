use kukuri_client::models::settings::Settings;

#[test]
fn default_settings_are_global_and_notify() {
    let s = Settings::default();
    assert_eq!(s.user_id, None);
    assert!(s.selected_relays.is_empty());
    assert_eq!(s.theme, "system");
    assert_eq!(s.language, "ja");
    assert!(!s.autostart);
    assert!(s.notifications);
}
