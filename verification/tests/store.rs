use mememeow_core::config_manager::{ConfigManager, LoadOutcome};
use mememeow_core::endpoints::{ApiUrl, ApiUrlConfig};
use mememeow_core::error::ConfigError;
use mememeow_core::preferences::{
    default_active_api_index, default_api_urls, default_true, UserPreferences,
};
use mememeow_core::shortcut::{
    default_toggle_app_shortcut, KeyCode, ModifierSet, ShortcutConfig, ShortcutConfigs,
};

fn endpoint(name: &str, url: &str) -> ApiUrl {
    ApiUrl { name: name.to_string(), url: url.to_string() }
}

fn store_with(urls: Vec<ApiUrl>, active_index: usize) -> ConfigManager {
    let mut prefs = UserPreferences::default();
    prefs.api_urls = ApiUrlConfig { urls, active_index };
    ConfigManager::new(LoadOutcome::Loaded(prefs))
}

fn three() -> Vec<ApiUrl> {
    vec![
        endpoint("a", "https://a.example"),
        endpoint("b", "https://b.example"),
        endpoint("c", "https://c.example"),
    ]
}

#[test]
fn missing_file_gives_defaults() {
    let store = ConfigManager::new(LoadOutcome::Missing);
    let prefs = store.get_preferences();
    assert!(prefs.copy_to_clipboard);
    assert_eq!(prefs.shortcuts.toggle_app.modifiers, vec!["ctrl".to_string(), "alt".to_string()]);
    assert_eq!(prefs.shortcuts.toggle_app.key, "v");
    assert_eq!(prefs.shortcuts.toggle_app.action, "切换应用窗口");
    assert_eq!(prefs.api_urls.urls, vec![endpoint("默认API", "https://mememeow.morami.icu")]);
    assert_eq!(prefs.api_urls.active_index, 0);
    assert_eq!(prefs, UserPreferences::default());
}

#[test]
fn every_failed_load_gives_defaults() {
    for outcome in [LoadOutcome::Missing, LoadOutcome::Unreadable, LoadOutcome::Malformed] {
        let store = ConfigManager::new(outcome);
        assert_eq!(store.get_preferences(), UserPreferences::default());
    }
}

#[test]
fn loaded_record_is_kept() {
    let mut prefs = UserPreferences::default();
    prefs.copy_to_clipboard = false;
    prefs.api_urls = ApiUrlConfig { urls: three(), active_index: 2 };
    let store = ConfigManager::new(LoadOutcome::Loaded(prefs.clone()));
    assert_eq!(store.get_preferences(), prefs);
}

#[test]
fn rewrite_is_called_for_missing_and_malformed_files_only() {
    assert!(LoadOutcome::Missing.calls_for_rewrite());
    assert!(LoadOutcome::Malformed.calls_for_rewrite());
    assert!(!LoadOutcome::Unreadable.calls_for_rewrite());
    assert!(!LoadOutcome::Loaded(UserPreferences::default()).calls_for_rewrite());
}

#[test]
fn field_defaults() {
    assert!(default_true());
    assert_eq!(default_active_api_index(), 0);
    assert_eq!(default_api_urls(), vec![endpoint("默认API", "https://mememeow.morami.icu")]);
    let binding = default_toggle_app_shortcut();
    assert_eq!(binding.modifiers, vec!["ctrl".to_string(), "alt".to_string()]);
    assert_eq!(binding.key, "n");
    assert_eq!(binding.action, "切换应用窗口");
}

#[test]
fn clipboard_setting_changes_nothing_else() {
    let mut store = store_with(three(), 1);
    let before = store.get_preferences();
    store.update_clipboard_setting(false);
    let after = store.get_preferences();
    assert!(!after.copy_to_clipboard);
    assert_eq!(after.shortcuts, before.shortcuts);
    assert_eq!(after.api_urls, before.api_urls);
    store.update_clipboard_setting(true);
    assert_eq!(store.get_preferences(), before);
}

#[test]
fn whole_record_is_replaced() {
    let mut store = ConfigManager::new(LoadOutcome::Missing);
    let mut prefs = UserPreferences::default();
    prefs.copy_to_clipboard = false;
    prefs.api_urls = ApiUrlConfig { urls: three(), active_index: 7 };
    store.update_preferences(prefs.clone());
    assert_eq!(store.get_preferences(), prefs);
}

#[test]
fn shortcuts_are_replaced_and_read_back() {
    let mut store = ConfigManager::new(LoadOutcome::Missing);
    let binding = ShortcutConfig {
        modifiers: vec!["Shift".to_string(), "COMMAND".to_string(), "hyper".to_string()],
        key: "F5".to_string(),
        action: "toggle".to_string(),
    };
    store.update_shortcuts(ShortcutConfigs { toggle_app: binding.clone() });
    assert_eq!(store.get_shortcuts().toggle_app, binding);
    let (mods, key) = store.get_toggle_app_shortcut();
    assert_eq!(mods, ModifierSet { control: false, alt: false, shift: true, meta: true });
    assert_eq!(key, KeyCode::F5);
    assert!(store.get_preferences().copy_to_clipboard);
}

#[test]
fn default_binding_is_ctrl_alt_v() {
    let store = ConfigManager::new(LoadOutcome::Missing);
    let (mods, key) = store.get_toggle_app_shortcut();
    assert_eq!(mods, ModifierSet { control: true, alt: true, shift: false, meta: false });
    assert_eq!(key, KeyCode::KeyV);
}

#[test]
fn active_url_of_an_empty_list_is_the_fallback() {
    for index in [0usize, 1, 99] {
        let store = store_with(Vec::new(), index);
        assert_eq!(store.get_active_api_url(), "https://mememeow.morami.icu");
        assert_eq!(store.get_api_url_config().active_index, index);
    }
}

#[test]
fn active_url_follows_the_selection() {
    let store = store_with(three(), 1);
    assert_eq!(store.get_active_api_url(), "https://b.example");
}

#[test]
fn active_url_past_the_end_is_the_first_entry_and_nothing_is_stored() {
    let store = store_with(three(), 3);
    assert_eq!(store.get_active_api_url(), "https://a.example");
    assert_eq!(store.get_api_url_config().active_index, 3);
}

#[test]
fn selecting_an_entry_updates_the_selection() {
    let mut store = store_with(three(), 0);
    assert_eq!(store.set_active_api_url(2), Ok(()));
    assert_eq!(store.get_api_url_config(), ApiUrlConfig { urls: three(), active_index: 2 });
    assert_eq!(store.get_active_api_url(), "https://c.example");
}

#[test]
fn selecting_past_the_end_is_refused() {
    let mut store = store_with(three(), 1);
    let before = store.get_preferences();
    assert_eq!(store.set_active_api_url(3), Err(ConfigError::IndexOutOfRange));
    assert_eq!(store.set_active_api_url(usize::MAX), Err(ConfigError::IndexOutOfRange));
    assert_eq!(store.get_preferences(), before);
}

#[test]
fn selecting_in_an_empty_list_is_refused() {
    let mut store = store_with(Vec::new(), 0);
    assert_eq!(store.set_active_api_url(0), Err(ConfigError::IndexOutOfRange));
}

#[test]
fn adding_appends_and_keeps_the_selection() {
    let mut store = store_with(three(), 1);
    store.add_api_url("d".to_string(), "https://d.example".to_string());
    let mut expected = three();
    expected.push(endpoint("d", "https://d.example"));
    assert_eq!(store.get_api_url_config(), ApiUrlConfig { urls: expected, active_index: 1 });
}

#[test]
fn removing_the_selected_entry_selects_the_first() {
    for active in 0..3usize {
        let mut store = store_with(three(), active);
        assert_eq!(store.remove_api_url(active), Ok(()));
        let config = store.get_api_url_config();
        assert_eq!(config.active_index, 0);
        assert_eq!(config.urls.len(), 2);
    }
}

#[test]
fn removing_the_only_entry_leaves_an_empty_list() {
    let mut store = ConfigManager::new(LoadOutcome::Missing);
    assert_eq!(store.remove_api_url(0), Ok(()));
    assert_eq!(store.get_api_url_config(), ApiUrlConfig { urls: Vec::new(), active_index: 0 });
    assert_eq!(store.get_active_api_url(), "https://mememeow.morami.icu");
}

#[test]
fn removing_another_entry_keeps_the_index_while_it_fits() {
    let mut store = store_with(three(), 1);
    assert_eq!(store.remove_api_url(2), Ok(()));
    assert_eq!(
        store.get_api_url_config(),
        ApiUrlConfig {
            urls: vec![endpoint("a", "https://a.example"), endpoint("b", "https://b.example")],
            active_index: 1,
        }
    );
    let mut store = store_with(three(), 2);
    assert_eq!(store.remove_api_url(0), Ok(()));
    assert_eq!(store.get_api_url_config().active_index, 0);
    let mut store = store_with(three(), 1);
    assert_eq!(store.remove_api_url(0), Ok(()));
    assert_eq!(store.get_api_url_config().active_index, 1);
    assert_eq!(store.get_active_api_url(), "https://c.example");
}

#[test]
fn removing_past_the_end_is_refused() {
    let mut store = store_with(three(), 1);
    let before = store.get_preferences();
    assert_eq!(store.remove_api_url(3), Err(ConfigError::IndexOutOfRange));
    assert_eq!(store.get_preferences(), before);
}

#[test]
fn endpoint_list_is_replaced_as_given() {
    let mut store = ConfigManager::new(LoadOutcome::Missing);
    let config = ApiUrlConfig { urls: three(), active_index: 9 };
    store.update_api_url_config(config.clone());
    assert_eq!(store.get_api_url_config(), config);
    assert!(store.get_preferences().copy_to_clipboard);
}

#[test]
fn error_messages() {
    assert_eq!(ConfigError::LockBusy.message(), "获取偏好锁失败");
    assert_eq!(ConfigError::IndexOutOfRange.message(), "API URL索引超出范围");
    assert!(ConfigError::IndexOutOfRange.is_invalid_input());
    assert!(!ConfigError::LockBusy.is_invalid_input());
}
