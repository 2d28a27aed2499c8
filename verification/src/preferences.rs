//! The record of user preferences and the values it starts from.

use vstd::prelude::*;

use crate::endpoints::{
    default_api_server_urls, default_endpoints, ApiUrl, ApiUrlConfig, ApiUrlConfigView,
};
use crate::shortcut::{toggle_binding, ShortcutConfigs, ShortcutConfigsView};

verus! {

/// Everything the application remembers for its user: whether a chosen image
/// is copied to the clipboard, the hotkey bindings and the API endpoints.
#[derive(Debug, PartialEq, Eq)]
pub struct UserPreferences {
    pub copy_to_clipboard: bool,
    pub shortcuts: ShortcutConfigs,
    pub api_urls: ApiUrlConfig,
}

/// Mathematical model of [`UserPreferences`].
pub struct UserPreferencesView {
    pub copy_to_clipboard: bool,
    pub shortcuts: ShortcutConfigsView,
    pub api_urls: ApiUrlConfigView,
}

impl View for UserPreferences {
    type V = UserPreferencesView;

    open spec fn view(&self) -> UserPreferencesView {
        UserPreferencesView {
            copy_to_clipboard: self.copy_to_clipboard,
            shortcuts: self.shortcuts@,
            api_urls: self.api_urls@,
        }
    }
}

impl Clone for UserPreferences {
    fn clone(&self) -> (r: Self)
        ensures
            r@ == self@,
    {
        UserPreferences {
            copy_to_clipboard: self.copy_to_clipboard,
            shortcuts: self.shortcuts.clone(),
            api_urls: self.api_urls.clone(),
        }
    }
}

/// The preferences of a fresh installation: clipboard copy on, the window
/// toggle on Ctrl+Alt+V, the built-in endpoint alone and selected.
pub open spec fn default_preferences() -> UserPreferencesView {
    UserPreferencesView {
        copy_to_clipboard: true,
        shortcuts: ShortcutConfigsView { toggle_app: toggle_binding("v"@) },
        api_urls: ApiUrlConfigView { urls: default_endpoints(), active_index: 0 },
    }
}

impl Default for UserPreferences {
    fn default() -> (r: Self)
        ensures
            r@ == default_preferences(),
    {
        UserPreferences {
            copy_to_clipboard: true,
            shortcuts: ShortcutConfigs::default(),
            api_urls: ApiUrlConfig::default(),
        }
    }
}

/// The clipboard setting of a record that does not state one.
pub fn default_true() -> (r: bool)
    ensures
        r,
{
    true
}

/// The endpoints of a record that does not list any.
pub fn default_api_urls() -> (r: Vec<ApiUrl>)
    ensures
        r.deep_view() == default_endpoints(),
{
    default_api_server_urls()
}

/// The selection of a record that does not state one.
pub fn default_active_api_index() -> (r: usize)
    ensures
        r == 0,
{
    0
}

} // verus!
