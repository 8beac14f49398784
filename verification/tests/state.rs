use openhome::models::{GlobalSettings, Selection, SwitchSettings};
use openhome::session::{cached_token, HomebridgeClient, TokenResponse};
use openhome::state::{CacheReset, PluginState};

fn configured_switch() -> SwitchSettings {
    let mut s = SwitchSettings::default();
    s.accessory_id = "abc".to_string();
    s.characteristic_type = "On".to_string();
    s
}

#[test]
fn registered_settings_are_read_back_and_polled() {
    let mut state: PluginState<u8, u8> = PluginState::new();
    assert!(!state.polling_due());
    state.remember_switch("k1".to_string(), configured_switch());
    assert_eq!(state.switch_settings("k1").unwrap().accessory_id, "abc");
    assert!(state.polls_switch("k1"));
    state.mark_switch_invalid("k1");
    assert!(!state.switch_polling_enabled("k1"));
    assert!(!state.polls_switch("k1"));
    state.remember_switch("k1".to_string(), configured_switch());
    assert!(state.polls_switch("k1"));
    state.forget_switch("k1");
    assert!(state.switch_settings("k1").is_none());
    assert!(!state.polls_switch("k1"));

    state.remember_adjust("e1".to_string(), Selection::new("abc", "", "uuid"), 7);
    assert_eq!(*state.adjust_settings("e1").unwrap(), 7);
    assert!(state.polls_adjust("e1"));
    state.remember_adjust("e2".to_string(), Selection::new(" ", "Brightness", ""), 8);
    assert!(!state.polls_adjust("e2"));
    state.forget_adjust("e1");
    assert!(state.adjust_settings("e1").is_none());

    state.remember_brightness("d1".to_string(), Selection::new("abc", "Brightness", ""), 9);
    assert!(state.polls_brightness("d1"));
    state.mark_brightness_invalid("d1");
    assert!(!state.polls_brightness("d1"));
    state.clear_brightness_invalid("d1");
    assert_eq!(*state.brightness_settings("d1").unwrap(), 9);
    assert!(state.polls_brightness("d1"));
}

#[test]
fn errors_are_logged_once_until_cleared() {
    let mut state: PluginState<u8, u8> = PluginState::new();
    assert!(state.should_log_error("switch:k1", "down"));
    assert!(!state.should_log_error("switch:k1", "down"));
    assert!(state.should_log_error("switch:k1", "other"));
    state.clear_error("switch:k1");
    assert!(state.should_log_error("switch:k1", "other"));
}

#[test]
fn connection_status_and_settings_changes() {
    let mut state: PluginState<u8, u8> = PluginState::new();
    assert!(!state.global_settings_loaded() && !state.has_connected_once());
    assert!(state.mark_connection_online());
    assert!(!state.mark_connection_online());
    assert!(state.mark_connection_offline());
    assert!(state.has_connected_once() && !state.connection_online());

    let mut settings = GlobalSettings::default();
    assert!(matches!(state.update_global_settings(settings.duplicate()), CacheReset::Nothing));
    assert!(state.global_settings_loaded());
    settings.catalog_cache_seconds = 120;
    assert!(matches!(state.update_global_settings(settings.duplicate()), CacheReset::Catalogs));
    settings.password = "new".to_string();
    assert!(matches!(state.update_global_settings(settings.duplicate()), CacheReset::Everything));
    assert_eq!(state.global_settings().password, "new");
    assert_eq!(state.global_settings().catalog_cache_ttl(), 120);
}

#[test]
fn settings_limits_are_clamped() {
    let mut settings = GlobalSettings::default();
    assert_eq!(settings.polling_interval(), 5);
    assert_eq!(settings.catalog_cache_ttl(), 60);
    settings.update_interval = 0;
    settings.catalog_cache_seconds = 1;
    assert_eq!(settings.polling_interval(), 1);
    assert_eq!(settings.catalog_cache_ttl(), 5);
    settings.update_interval = 10_000;
    settings.catalog_cache_seconds = 10_000;
    assert_eq!(settings.polling_interval(), 3600);
    assert_eq!(settings.catalog_cache_ttl(), 3600);
}

#[test]
fn tokens_are_reused_until_renewal() {
    let mut client = HomebridgeClient::new();
    let response = TokenResponse { access_token: "t".to_string(), token_type: "Bearer".to_string(), expires_in: 600 };
    let token = cached_token(response, "Homebridge username/password", 1_000, 0);
    assert_eq!(token.refresh_at_ns, 1_000 + 540_000_000_000);
    client.store_token(5, token);
    assert_eq!(client.reusable_token(5, 2_000).unwrap().access_token, "t");
    assert!(client.reusable_token(5, 1_000 + 539_999_999_999).is_some());
    assert!(client.reusable_token(5, 1_000 + 540_000_000_000).is_none());
    assert!(client.reusable_token(6, 2_000).is_none());
    client.forget_token(5);
    assert!(client.reusable_token(5, 2_000).is_none());
}
