use mememeow_core::shortcut::{
    format_shortcut_for_display, KeyCode, Modifier, ModifierSet, ShortcutConfig, ShortcutConfigs,
};

fn binding(modifiers: &[&str], key: &str) -> ShortcutConfig {
    ShortcutConfig {
        modifiers: modifiers.iter().map(|m| m.to_string()).collect(),
        key: key.to_string(),
        action: String::new(),
    }
}

fn table() -> Vec<(&'static str, KeyCode)> {
    vec![
        ("a", KeyCode::KeyA), ("b", KeyCode::KeyB), ("c", KeyCode::KeyC), ("d", KeyCode::KeyD),
        ("e", KeyCode::KeyE), ("f", KeyCode::KeyF), ("g", KeyCode::KeyG), ("h", KeyCode::KeyH),
        ("i", KeyCode::KeyI), ("j", KeyCode::KeyJ), ("k", KeyCode::KeyK), ("l", KeyCode::KeyL),
        ("m", KeyCode::KeyM), ("n", KeyCode::KeyN), ("o", KeyCode::KeyO), ("p", KeyCode::KeyP),
        ("q", KeyCode::KeyQ), ("r", KeyCode::KeyR), ("s", KeyCode::KeyS), ("t", KeyCode::KeyT),
        ("u", KeyCode::KeyU), ("v", KeyCode::KeyV), ("w", KeyCode::KeyW), ("x", KeyCode::KeyX),
        ("y", KeyCode::KeyY), ("z", KeyCode::KeyZ),
        ("0", KeyCode::Digit0), ("1", KeyCode::Digit1), ("2", KeyCode::Digit2),
        ("3", KeyCode::Digit3), ("4", KeyCode::Digit4), ("5", KeyCode::Digit5),
        ("6", KeyCode::Digit6), ("7", KeyCode::Digit7), ("8", KeyCode::Digit8),
        ("9", KeyCode::Digit9),
        ("f1", KeyCode::F1), ("f2", KeyCode::F2), ("f3", KeyCode::F3), ("f4", KeyCode::F4),
        ("f5", KeyCode::F5), ("f6", KeyCode::F6), ("f7", KeyCode::F7), ("f8", KeyCode::F8),
        ("f9", KeyCode::F9), ("f10", KeyCode::F10), ("f11", KeyCode::F11), ("f12", KeyCode::F12),
    ]
}

#[test]
fn every_name_finds_its_key() {
    for (name, code) in table() {
        assert_eq!(KeyCode::from_name(name), code, "{}", name);
        assert_eq!(binding(&[], name).to_tauri_shortcut().1, code, "{}", name);
    }
}

#[test]
fn the_names_stand_for_forty_eight_different_keys() {
    let codes: Vec<KeyCode> = table().into_iter().map(|(name, _)| KeyCode::from_name(name)).collect();
    assert_eq!(codes.len(), 48);
    for i in 0..codes.len() {
        for j in 0..i {
            assert_ne!(codes[i], codes[j]);
        }
    }
}

#[test]
fn upper_case_names_find_the_same_keys() {
    for (name, code) in table() {
        let upper = name.to_uppercase();
        assert_eq!(binding(&[], &upper).to_tauri_shortcut().1, code, "{}", upper);
    }
}

#[test]
fn other_names_stand_for_v() {
    for name in ["", " ", "aa", "f0", "f13", "f01", "10", "é", "enter", "space", "-", "a ", "ctrl"] {
        assert_eq!(KeyCode::from_name(name), KeyCode::KeyV, "{:?}", name);
        assert_eq!(binding(&[], name).to_tauri_shortcut().1, KeyCode::KeyV, "{:?}", name);
    }
}

#[test]
fn from_name_takes_its_argument_as_it_is() {
    assert_eq!(KeyCode::from_name("A"), KeyCode::KeyV);
    assert_eq!(KeyCode::from_name("F1"), KeyCode::KeyV);
}

#[test]
fn modifier_tokens() {
    assert_eq!(Modifier::from_token("ctrl"), Some(Modifier::Control));
    assert_eq!(Modifier::from_token("alt"), Some(Modifier::Alt));
    assert_eq!(Modifier::from_token("shift"), Some(Modifier::Shift));
    assert_eq!(Modifier::from_token("meta"), Some(Modifier::Meta));
    assert_eq!(Modifier::from_token("super"), Some(Modifier::Meta));
    assert_eq!(Modifier::from_token("command"), Some(Modifier::Meta));
    assert_eq!(Modifier::from_token("control"), None);
    assert_eq!(Modifier::from_token("Ctrl"), None);
    assert_eq!(Modifier::from_token(""), None);
}

#[test]
fn modifiers_are_case_insensitive() {
    let (mods, _) = binding(&["CTRL", "Alt", "sHiFt", "Super"], "a").to_tauri_shortcut();
    assert_eq!(mods, ModifierSet { control: true, alt: true, shift: true, meta: true });
}

#[test]
fn modifier_order_and_repetition_do_not_matter() {
    let one = binding(&["ctrl", "shift"], "a").to_tauri_shortcut().0;
    let two = binding(&["shift", "ctrl"], "a").to_tauri_shortcut().0;
    let three = binding(&["shift", "ctrl", "shift", "ctrl"], "a").to_tauri_shortcut().0;
    assert_eq!(one, ModifierSet { control: true, alt: false, shift: true, meta: false });
    assert_eq!(one, two);
    assert_eq!(one, three);
}

#[test]
fn unknown_modifiers_are_dropped() {
    let (mods, key) = binding(&["hyper", "alt", "", "ctl"], "7").to_tauri_shortcut();
    assert_eq!(mods, ModifierSet { control: false, alt: true, shift: false, meta: false });
    assert_eq!(key, KeyCode::Digit7);
}

#[test]
fn no_modifier_gives_the_empty_set() {
    let (mods, _) = binding(&[], "a").to_tauri_shortcut();
    assert_eq!(mods, ModifierSet::empty());
    assert_eq!(mods, ModifierSet { control: false, alt: false, shift: false, meta: false });
}

#[test]
fn meta_synonyms_name_one_flag() {
    for token in ["meta", "super", "command", "META", "Command"] {
        let (mods, _) = binding(&[token], "a").to_tauri_shortcut();
        assert_eq!(mods, ModifierSet { control: false, alt: false, shift: false, meta: true });
    }
}

#[test]
fn modifier_set_operations() {
    let mut set = ModifierSet::empty();
    assert!(!set.contains(Modifier::Alt));
    set.insert(Modifier::Alt);
    set.insert(Modifier::Meta);
    set.insert(Modifier::Alt);
    assert!(set.contains(Modifier::Alt));
    assert!(set.contains(Modifier::Meta));
    assert!(!set.contains(Modifier::Control));
    assert!(!set.contains(Modifier::Shift));
}

#[test]
fn display_of_a_shortcut() {
    let all = ModifierSet { control: true, alt: true, shift: true, meta: true };
    assert_eq!(format_shortcut_for_display(&all, &KeyCode::KeyV), "Ctrl+Alt+Shift+Meta+V");
    let some = ModifierSet { control: true, alt: true, shift: false, meta: false };
    assert_eq!(format_shortcut_for_display(&some, &KeyCode::KeyN), "Ctrl+Alt+N");
    assert_eq!(format_shortcut_for_display(&ModifierSet::empty(), &KeyCode::F12), "F12");
    let meta = ModifierSet { control: false, alt: false, shift: false, meta: true };
    assert_eq!(format_shortcut_for_display(&meta, &KeyCode::Digit0), "Meta+Digit0");
}

#[test]
fn labels_of_keys() {
    assert_eq!(KeyCode::KeyA.label(), "A");
    assert_eq!(KeyCode::KeyZ.label(), "Z");
    assert_eq!(KeyCode::Digit9.label(), "Digit9");
    assert_eq!(KeyCode::F1.label(), "F1");
    assert_eq!(KeyCode::F10.label(), "F10");
}

#[test]
fn default_bindings() {
    let binding = ShortcutConfig::default();
    assert_eq!(binding.modifiers, vec!["ctrl".to_string(), "alt".to_string()]);
    assert_eq!(binding.key, "v");
    assert_eq!(binding.action, "切换应用窗口");
    assert_eq!(ShortcutConfigs::default().toggle_app, binding);
    assert_eq!(binding.clone(), binding);
}

#[test]
fn tokens_are_taken_as_they_are() {
    let tokens = vec!["alt".to_string(), "Ctrl".to_string(), "command".to_string(), "alt".to_string()];
    let set = ModifierSet::from_tokens(&tokens);
    assert_eq!(set, ModifierSet { control: false, alt: true, shift: false, meta: true });
    assert_eq!(ModifierSet::from_tokens(&Vec::new()), ModifierSet::empty());
}
