use mememeow_core::hotkey::{
    registration_failed_event, toggle_window_action, Occasion, RegistrationFailure, WindowAction,
};
use mememeow_core::shortcut::{KeyCode, ModifierSet};

fn refused() -> RegistrationFailure {
    RegistrationFailure::Refused {
        modifiers: ModifierSet { control: true, alt: true, shift: false, meta: false },
        key: KeyCode::KeyV,
        reason: "already registered".to_string(),
    }
}

#[test]
fn a_press_of_the_binding_toggles_the_window() {
    assert_eq!(toggle_window_action(true, true, Some(true)), WindowAction::Hide);
    assert_eq!(toggle_window_action(true, true, Some(false)), WindowAction::ShowAndFocus);
    assert_eq!(toggle_window_action(true, true, None), WindowAction::Nothing);
}

#[test]
fn anything_else_leaves_the_window_alone() {
    for visible in [Some(true), Some(false), None] {
        assert_eq!(toggle_window_action(false, true, visible), WindowAction::Nothing);
        assert_eq!(toggle_window_action(true, false, visible), WindowAction::Nothing);
        assert_eq!(toggle_window_action(false, false, visible), WindowAction::Nothing);
    }
}

#[test]
fn notices_at_startup() {
    assert_eq!(
        refused().notice(Occasion::Startup),
        Some("无法注册快捷键 Ctrl+Alt+V，可能与系统快捷键冲突。请在设置中配置其他快捷键。".to_string())
    );
    assert_eq!(
        RegistrationFailure::BindingUnavailable("获取偏好锁失败".to_string()).notice(Occasion::Startup),
        Some("无法获取快捷键配置: 获取偏好锁失败，请在设置中重新配置快捷键。".to_string())
    );
    assert_eq!(RegistrationFailure::StoreMissing.notice(Occasion::Startup), None);
}

#[test]
fn notices_at_a_refresh() {
    assert_eq!(
        refused().notice(Occasion::Refresh),
        Some("无法注册快捷键 Ctrl+Alt+V，请在设置中配置其他快捷键。".to_string())
    );
    assert_eq!(
        RegistrationFailure::BindingUnavailable("x".to_string()).notice(Occasion::Refresh),
        None
    );
    assert_eq!(RegistrationFailure::StoreMissing.notice(Occasion::Refresh), None);
}

#[test]
fn errors_of_a_refresh() {
    assert_eq!(refused().error(), "无法注册快捷键: already registered");
    assert_eq!(
        RegistrationFailure::BindingUnavailable("获取偏好锁失败".to_string()).error(),
        "无法获取快捷键配置: 获取偏好锁失败"
    );
    assert_eq!(RegistrationFailure::StoreMissing.error(), "配置管理器未初始化");
}

#[test]
fn name_of_the_event() {
    assert_eq!(registration_failed_event(), "shortcut-registration-failed");
}

#[test]
fn greeting() {
    assert_eq!(mememeow_core::greet("Tauri"), "Hello, Tauri! You've been greeted from Rust!");
    assert_eq!(mememeow_core::greet(""), "Hello, ! You've been greeted from Rust!");
}
