//! What the application does when the hotkey is pressed, and what it tells
//! the user when the hotkey cannot be registered.
//!
//! Registering and the window itself belong to the caller. This module holds
//! the decisions and the wording.

use vstd::prelude::*;
use vstd::string::StringExecFns;

use crate::shortcut::{format_shortcut_for_display, shortcut_label, KeyCode, ModifierSet};

verus! {

/// What happens to the main window.
#[derive(Clone, Copy, Debug, PartialEq, Eq, Structural)]
pub enum WindowAction {
    /// The window is left alone.
    Nothing,
    /// The window is hidden.
    Hide,
    /// The window is shown and, once it is shown, given the focus.
    ShowAndFocus,
}

/// The action for a hotkey event. Only a press of the binding that toggles
/// the window does anything, and only where the window's visibility is
/// known: a visible window is hidden, a hidden one is shown.
pub open spec fn window_action_for(
    pressed: bool,
    is_toggle_binding: bool,
    visible: Option<bool>,
) -> WindowAction {
    if pressed && is_toggle_binding {
        match visible {
            Some(true) => WindowAction::Hide,
            Some(false) => WindowAction::ShowAndFocus,
            None => WindowAction::Nothing,
        }
    } else {
        WindowAction::Nothing
    }
}

/// Decides what a hotkey event does to the main window. `visible` is `None`
/// where there is no window or its visibility could not be asked.
pub fn toggle_window_action(pressed: bool, is_toggle_binding: bool, visible: Option<bool>) -> (r:
    WindowAction)
    ensures
        r == window_action_for(pressed, is_toggle_binding, visible),
{
    if !pressed || !is_toggle_binding {
        return WindowAction::Nothing;
    }
    match visible {
        Some(true) => WindowAction::Hide,
        Some(false) => WindowAction::ShowAndFocus,
        None => WindowAction::Nothing,
    }
}

/// When the hotkey is registered.
#[derive(Clone, Copy, Debug, PartialEq, Eq, Structural)]
pub enum Occasion {
    /// At the start of the application.
    Startup,
    /// When the user has changed the binding.
    Refresh,
}

/// Why the hotkey was not registered.
#[derive(Debug, PartialEq, Eq)]
pub enum RegistrationFailure {
    /// There is no preference store yet.
    StoreMissing,
    /// The binding could not be read from the store; the reason is attached.
    BindingUnavailable(String),
    /// The system refused the hotkey, most likely because it is taken; the
    /// reason is attached.
    Refused { modifiers: ModifierSet, key: KeyCode, reason: String },
}

/// Mathematical model of a [`RegistrationFailure`].
pub enum RegistrationFailureModel {
    StoreMissing,
    BindingUnavailable(Seq<char>),
    Refused { modifiers: ModifierSet, key: KeyCode, reason: Seq<char> },
}

impl View for RegistrationFailure {
    type V = RegistrationFailureModel;

    open spec fn view(&self) -> RegistrationFailureModel {
        match self {
            RegistrationFailure::StoreMissing => RegistrationFailureModel::StoreMissing,
            RegistrationFailure::BindingUnavailable(e) => RegistrationFailureModel::BindingUnavailable(
                e@,
            ),
            RegistrationFailure::Refused { modifiers, key, reason } => RegistrationFailureModel::Refused {
                modifiers: *modifiers,
                key: *key,
                reason: reason@,
            },
        }
    }
}

impl RegistrationFailureModel {
    /// The error that a refresh of the hotkey returns.
    pub open spec fn error_text(self) -> Seq<char> {
        match self {
            RegistrationFailureModel::StoreMissing => "配置管理器未初始化"@,
            RegistrationFailureModel::BindingUnavailable(e) => "无法获取快捷键配置: "@ + e,
            RegistrationFailureModel::Refused { reason, .. } => "无法注册快捷键: "@ + reason,
        }
    }

    /// The notice that the window is sent, if it is sent one. At start-up
    /// every failure that can occur is announced; at a refresh only a
    /// refused hotkey is, the other failures being returned to the caller.
    pub open spec fn notice_text(self, occasion: Occasion) -> Option<Seq<char>> {
        match self {
            RegistrationFailureModel::StoreMissing => None,
            RegistrationFailureModel::BindingUnavailable(e) => match occasion {
                Occasion::Startup => Some(
                    "无法获取快捷键配置: "@ + e + "，请在设置中重新配置快捷键。"@,
                ),
                Occasion::Refresh => None,
            },
            RegistrationFailureModel::Refused { modifiers, key, .. } => match occasion {
                Occasion::Startup => Some(
                    "无法注册快捷键 "@ + shortcut_label(modifiers, key)
                        + "，可能与系统快捷键冲突。请在设置中配置其他快捷键。"@,
                ),
                Occasion::Refresh => Some(
                    "无法注册快捷键 "@ + shortcut_label(modifiers, key)
                        + "，请在设置中配置其他快捷键。"@,
                ),
            },
        }
    }
}

/// The name of the event that carries a notice to the window.
pub fn registration_failed_event() -> (r: &'static str)
    ensures
        r@ == "shortcut-registration-failed"@,
{
    "shortcut-registration-failed"
}

impl RegistrationFailure {
    /// The error that a refresh of the hotkey returns.
    pub fn error(&self) -> (r: String)
        ensures
            r@ == self@.error_text(),
    {
        match self {
            RegistrationFailure::StoreMissing => "配置管理器未初始化".to_string(),
            RegistrationFailure::BindingUnavailable(e) => "无法获取快捷键配置: ".to_string().concat(
                e.as_str(),
            ),
            RegistrationFailure::Refused { reason, .. } => "无法注册快捷键: ".to_string().concat(
                reason.as_str(),
            ),
        }
    }

    /// The notice that the window is sent, if it is sent one.
    pub fn notice(&self, occasion: Occasion) -> (r: Option<String>)
        ensures
            r.deep_view() == self@.notice_text(occasion),
    {
        match self {
            RegistrationFailure::StoreMissing => None,
            RegistrationFailure::BindingUnavailable(e) => match occasion {
                Occasion::Startup => {
                    let mut text = "无法获取快捷键配置: ".to_string();
                    text.append(e.as_str());
                    text.append("，请在设置中重新配置快捷键。");
                    Some(text)
                },
                Occasion::Refresh => None,
            },
            RegistrationFailure::Refused { modifiers, key, .. } => {
                let label = format_shortcut_for_display(modifiers, key);
                let mut text = "无法注册快捷键 ".to_string();
                text.append(label.as_str());
                match occasion {
                    Occasion::Startup => {
                        text.append("，可能与系统快捷键冲突。请在设置中配置其他快捷键。");
                    },
                    Occasion::Refresh => {
                        text.append("，请在设置中配置其他快捷键。");
                    },
                }
                Some(text)
            },
        }
    }
}

} // verus!
