//! The preference store.
//!
//! [`ConfigManager`] owns the one in-memory copy of the preferences. Readers
//! get copies; every change goes through one of its methods, which says
//! exactly how the record after the call relates to the record before it.
//! The store itself does not touch the disk: its owner guards it with a lock
//! and writes the whole record out after each change.

use vstd::prelude::*;

use crate::endpoints::{ApiUrlConfig, ApiUrlView};
use crate::error::ConfigError;
use crate::preferences::{default_preferences, UserPreferences, UserPreferencesView};
use crate::shortcut::{
    key_code_of, lowercase_all, modifier_set_of, KeyCode, ModifierSet, ShortcutConfigs,
};
use crate::text::lowercase;

verus! {

/// What reading the preferences file at start-up came to.
#[derive(Debug, PartialEq, Eq)]
pub enum LoadOutcome {
    /// There is no file yet.
    Missing,
    /// The file is there but could not be read.
    Unreadable,
    /// The file was read but does not hold a preferences record.
    Malformed,
    /// The file held this record.
    Loaded(UserPreferences),
}

/// The record that the store starts with: the one from the file if there is
/// one, the defaults in every other case.
pub open spec fn initial_preferences(outcome: LoadOutcome) -> UserPreferencesView {
    match outcome {
        LoadOutcome::Loaded(preferences) => preferences@,
        _ => default_preferences(),
    }
}

impl LoadOutcome {
    /// Whether the file has to be written anew from the record that the store
    /// starts with: when it is missing and when its contents are not a record.
    pub open spec fn needs_rewrite(self) -> bool {
        self is Missing || self is Malformed
    }

    /// Whether the file has to be written anew from the record that the store
    /// starts with.
    pub fn calls_for_rewrite(&self) -> (r: bool)
        ensures
            r == self.needs_rewrite(),
    {
        match self {
            LoadOutcome::Missing => true,
            LoadOutcome::Malformed => true,
            LoadOutcome::Unreadable => false,
            LoadOutcome::Loaded(_) => false,
        }
    }
}

/// The single in-memory copy of the user's preferences.
pub struct ConfigManager {
    preferences: UserPreferences,
}

impl View for ConfigManager {
    type V = UserPreferencesView;

    closed spec fn view(&self) -> UserPreferencesView {
        self.preferences@
    }
}

impl ConfigManager {
    /// Sets the store up from what reading the file came to. No outcome
    /// prevents this: where the file gave no record the defaults stand in.
    pub fn new(outcome: LoadOutcome) -> (r: ConfigManager)
        ensures
            r@ == initial_preferences(outcome),
    {
        match outcome {
            LoadOutcome::Loaded(preferences) => ConfigManager { preferences },
            _ => ConfigManager { preferences: UserPreferences::default() },
        }
    }

    /// A copy of the whole record.
    pub fn get_preferences(&self) -> (r: UserPreferences)
        ensures
            r@ == self@,
    {
        self.preferences.clone()
    }

    /// Replaces the whole record.
    pub fn update_preferences(&mut self, new_prefs: UserPreferences)
        ensures
            final(self)@ == new_prefs@,
    {
        self.preferences = new_prefs;
    }

    /// Turns copying to the clipboard on or off.
    pub fn update_clipboard_setting(&mut self, enabled: bool)
        ensures
            final(self)@ == (UserPreferencesView { copy_to_clipboard: enabled, ..old(self)@ }),
    {
        self.preferences.copy_to_clipboard = enabled;
    }

    /// Replaces the hotkey bindings.
    pub fn update_shortcuts(&mut self, shortcuts: ShortcutConfigs)
        ensures
            final(self)@ == (UserPreferencesView { shortcuts: shortcuts@, ..old(self)@ }),
    {
        self.preferences.shortcuts = shortcuts;
    }

    /// A copy of the hotkey bindings.
    pub fn get_shortcuts(&self) -> (r: ShortcutConfigs)
        ensures
            r@ == self@.shortcuts,
    {
        self.preferences.shortcuts.clone()
    }

    /// The modifier flags and the key of the binding that toggles the window.
    pub fn get_toggle_app_shortcut(&self) -> (r: (ModifierSet, KeyCode))
        ensures
            r.0 == modifier_set_of(lowercase_all(self@.shortcuts.toggle_app.modifiers)),
            r.1 == key_code_of(lowercase(self@.shortcuts.toggle_app.key)),
    {
        self.preferences.shortcuts.toggle_app.to_tauri_shortcut()
    }

    /// The URL of the endpoint in use. An empty list gives the built-in URL
    /// and an index past the end gives the first entry; the stored record is
    /// not changed by this.
    pub fn get_active_api_url(&self) -> (r: String)
        ensures
            r@ == self@.api_urls.active_url(),
    {
        self.preferences.api_urls.active_url()
    }

    /// A copy of the endpoint list and its selection.
    pub fn get_api_url_config(&self) -> (r: ApiUrlConfig)
        ensures
            r@ == self@.api_urls,
    {
        self.preferences.api_urls.clone()
    }

    /// Replaces the endpoint list and its selection.
    pub fn update_api_url_config(&mut self, config: ApiUrlConfig)
        ensures
            final(self)@ == (UserPreferencesView { api_urls: config@, ..old(self)@ }),
    {
        self.preferences.api_urls = config;
    }

    /// Selects the endpoint at `index`. An index that names no entry is
    /// refused, and the record stays as it was.
    pub fn set_active_api_url(&mut self, index: usize) -> (r: Result<(), ConfigError>)
        ensures
            index < old(self)@.api_urls.urls.len() ==> r is Ok && final(self)@ == (
            UserPreferencesView {
                api_urls: old(self)@.api_urls.select(index as nat),
                ..old(self)@
            }),
            index >= old(self)@.api_urls.urls.len() ==> r == Err::<(), ConfigError>(
                ConfigError::IndexOutOfRange,
            ) && final(self)@ == old(self)@,
    {
        self.preferences.api_urls.select(index)
    }

    /// Adds an endpoint at the end of the list.
    pub fn add_api_url(&mut self, name: String, url: String)
        ensures
            final(self)@ == (UserPreferencesView {
                api_urls: old(self)@.api_urls.append(ApiUrlView { name: name@, url: url@ }),
                ..old(self)@
            }),
    {
        self.preferences.api_urls.append(name, url);
    }

    /// Removes the endpoint at `index`. An index that names no entry is
    /// refused, and the record stays as it was.
    pub fn remove_api_url(&mut self, index: usize) -> (r: Result<(), ConfigError>)
        ensures
            index < old(self)@.api_urls.urls.len() ==> r is Ok && final(self)@ == (
            UserPreferencesView {
                api_urls: old(self)@.api_urls.remove(index as int),
                ..old(self)@
            }),
            index >= old(self)@.api_urls.urls.len() ==> r == Err::<(), ConfigError>(
                ConfigError::IndexOutOfRange,
            ) && final(self)@ == old(self)@,
    {
        self.preferences.api_urls.remove(index)
    }
}

} // verus!
