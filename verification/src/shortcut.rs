//! Hotkey bindings and their mapping to physical keys and modifier flags.
//!
//! A binding names its key and its modifiers with free-form strings. The
//! mapping to the closed set of keys that the application can register is
//! total: every string has a key, and a token that names no modifier is
//! ignored.

use vstd::prelude::*;
use vstd::string::StringExecFns;

use crate::text::lowercase;

verus! {

/// A physical key that a binding can name: a letter, a digit of the top row
/// or one of the function keys F1 to F12.
#[derive(Clone, Copy, Debug, PartialEq, Eq, Structural)]
pub enum KeyCode {
    KeyA,
    KeyB,
    KeyC,
    KeyD,
    KeyE,
    KeyF,
    KeyG,
    KeyH,
    KeyI,
    KeyJ,
    KeyK,
    KeyL,
    KeyM,
    KeyN,
    KeyO,
    KeyP,
    KeyQ,
    KeyR,
    KeyS,
    KeyT,
    KeyU,
    KeyV,
    KeyW,
    KeyX,
    KeyY,
    KeyZ,
    Digit0,
    Digit1,
    Digit2,
    Digit3,
    Digit4,
    Digit5,
    Digit6,
    Digit7,
    Digit8,
    Digit9,
    F1,
    F2,
    F3,
    F4,
    F5,
    F6,
    F7,
    F8,
    F9,
    F10,
    F11,
    F12,
}

/// One of the four modifier flags of a hotkey.
#[derive(Clone, Copy, Debug, PartialEq, Eq, Structural)]
pub enum Modifier {
    Control,
    Alt,
    Shift,
    Meta,
}

/// A set of modifier flags.
#[derive(Clone, Copy, Debug, PartialEq, Eq, Structural)]
pub struct ModifierSet {
    pub control: bool,
    pub alt: bool,
    pub shift: bool,
    pub meta: bool,
}

/// The key that a lowercase key name stands for: the letter keys under `a`
/// to `z`, the digit keys under `0` to `9`, the function keys under `f1` to
/// `f12`. A name outside the table stands for the V key.
pub open spec fn key_code_of(name: Seq<char>) -> KeyCode {
    if name =~= seq!['a'] {
        KeyCode::KeyA
    } else if name =~= seq!['b'] {
        KeyCode::KeyB
    } else if name =~= seq!['c'] {
        KeyCode::KeyC
    } else if name =~= seq!['d'] {
        KeyCode::KeyD
    } else if name =~= seq!['e'] {
        KeyCode::KeyE
    } else if name =~= seq!['f'] {
        KeyCode::KeyF
    } else if name =~= seq!['g'] {
        KeyCode::KeyG
    } else if name =~= seq!['h'] {
        KeyCode::KeyH
    } else if name =~= seq!['i'] {
        KeyCode::KeyI
    } else if name =~= seq!['j'] {
        KeyCode::KeyJ
    } else if name =~= seq!['k'] {
        KeyCode::KeyK
    } else if name =~= seq!['l'] {
        KeyCode::KeyL
    } else if name =~= seq!['m'] {
        KeyCode::KeyM
    } else if name =~= seq!['n'] {
        KeyCode::KeyN
    } else if name =~= seq!['o'] {
        KeyCode::KeyO
    } else if name =~= seq!['p'] {
        KeyCode::KeyP
    } else if name =~= seq!['q'] {
        KeyCode::KeyQ
    } else if name =~= seq!['r'] {
        KeyCode::KeyR
    } else if name =~= seq!['s'] {
        KeyCode::KeyS
    } else if name =~= seq!['t'] {
        KeyCode::KeyT
    } else if name =~= seq!['u'] {
        KeyCode::KeyU
    } else if name =~= seq!['v'] {
        KeyCode::KeyV
    } else if name =~= seq!['w'] {
        KeyCode::KeyW
    } else if name =~= seq!['x'] {
        KeyCode::KeyX
    } else if name =~= seq!['y'] {
        KeyCode::KeyY
    } else if name =~= seq!['z'] {
        KeyCode::KeyZ
    } else if name =~= seq!['0'] {
        KeyCode::Digit0
    } else if name =~= seq!['1'] {
        KeyCode::Digit1
    } else if name =~= seq!['2'] {
        KeyCode::Digit2
    } else if name =~= seq!['3'] {
        KeyCode::Digit3
    } else if name =~= seq!['4'] {
        KeyCode::Digit4
    } else if name =~= seq!['5'] {
        KeyCode::Digit5
    } else if name =~= seq!['6'] {
        KeyCode::Digit6
    } else if name =~= seq!['7'] {
        KeyCode::Digit7
    } else if name =~= seq!['8'] {
        KeyCode::Digit8
    } else if name =~= seq!['9'] {
        KeyCode::Digit9
    } else if name =~= seq!['f', '1'] {
        KeyCode::F1
    } else if name =~= seq!['f', '2'] {
        KeyCode::F2
    } else if name =~= seq!['f', '3'] {
        KeyCode::F3
    } else if name =~= seq!['f', '4'] {
        KeyCode::F4
    } else if name =~= seq!['f', '5'] {
        KeyCode::F5
    } else if name =~= seq!['f', '6'] {
        KeyCode::F6
    } else if name =~= seq!['f', '7'] {
        KeyCode::F7
    } else if name =~= seq!['f', '8'] {
        KeyCode::F8
    } else if name =~= seq!['f', '9'] {
        KeyCode::F9
    } else if name =~= seq!['f', '1', '0'] {
        KeyCode::F10
    } else if name =~= seq!['f', '1', '1'] {
        KeyCode::F11
    } else if name =~= seq!['f', '1', '2'] {
        KeyCode::F12
    } else {
        KeyCode::KeyV
    }
}

/// The name under which a key is found in the table of [`key_code_of`].
pub open spec fn key_name(code: KeyCode) -> Seq<char> {
    match code {
        KeyCode::KeyA => seq!['a'],
        KeyCode::KeyB => seq!['b'],
        KeyCode::KeyC => seq!['c'],
        KeyCode::KeyD => seq!['d'],
        KeyCode::KeyE => seq!['e'],
        KeyCode::KeyF => seq!['f'],
        KeyCode::KeyG => seq!['g'],
        KeyCode::KeyH => seq!['h'],
        KeyCode::KeyI => seq!['i'],
        KeyCode::KeyJ => seq!['j'],
        KeyCode::KeyK => seq!['k'],
        KeyCode::KeyL => seq!['l'],
        KeyCode::KeyM => seq!['m'],
        KeyCode::KeyN => seq!['n'],
        KeyCode::KeyO => seq!['o'],
        KeyCode::KeyP => seq!['p'],
        KeyCode::KeyQ => seq!['q'],
        KeyCode::KeyR => seq!['r'],
        KeyCode::KeyS => seq!['s'],
        KeyCode::KeyT => seq!['t'],
        KeyCode::KeyU => seq!['u'],
        KeyCode::KeyV => seq!['v'],
        KeyCode::KeyW => seq!['w'],
        KeyCode::KeyX => seq!['x'],
        KeyCode::KeyY => seq!['y'],
        KeyCode::KeyZ => seq!['z'],
        KeyCode::Digit0 => seq!['0'],
        KeyCode::Digit1 => seq!['1'],
        KeyCode::Digit2 => seq!['2'],
        KeyCode::Digit3 => seq!['3'],
        KeyCode::Digit4 => seq!['4'],
        KeyCode::Digit5 => seq!['5'],
        KeyCode::Digit6 => seq!['6'],
        KeyCode::Digit7 => seq!['7'],
        KeyCode::Digit8 => seq!['8'],
        KeyCode::Digit9 => seq!['9'],
        KeyCode::F1 => seq!['f', '1'],
        KeyCode::F2 => seq!['f', '2'],
        KeyCode::F3 => seq!['f', '3'],
        KeyCode::F4 => seq!['f', '4'],
        KeyCode::F5 => seq!['f', '5'],
        KeyCode::F6 => seq!['f', '6'],
        KeyCode::F7 => seq!['f', '7'],
        KeyCode::F8 => seq!['f', '8'],
        KeyCode::F9 => seq!['f', '9'],
        KeyCode::F10 => seq!['f', '1', '0'],
        KeyCode::F11 => seq!['f', '1', '1'],
        KeyCode::F12 => seq!['f', '1', '2'],
    }
}

/// The text that stands for a key in a message to the user: the capital
/// letter for a letter key, `Digit0` to `Digit9` for the digit keys, `F1` to
/// `F12` for the function keys.
pub open spec fn key_label(code: KeyCode) -> Seq<char> {
    match code {
        KeyCode::KeyA => seq!['A'],
        KeyCode::KeyB => seq!['B'],
        KeyCode::KeyC => seq!['C'],
        KeyCode::KeyD => seq!['D'],
        KeyCode::KeyE => seq!['E'],
        KeyCode::KeyF => seq!['F'],
        KeyCode::KeyG => seq!['G'],
        KeyCode::KeyH => seq!['H'],
        KeyCode::KeyI => seq!['I'],
        KeyCode::KeyJ => seq!['J'],
        KeyCode::KeyK => seq!['K'],
        KeyCode::KeyL => seq!['L'],
        KeyCode::KeyM => seq!['M'],
        KeyCode::KeyN => seq!['N'],
        KeyCode::KeyO => seq!['O'],
        KeyCode::KeyP => seq!['P'],
        KeyCode::KeyQ => seq!['Q'],
        KeyCode::KeyR => seq!['R'],
        KeyCode::KeyS => seq!['S'],
        KeyCode::KeyT => seq!['T'],
        KeyCode::KeyU => seq!['U'],
        KeyCode::KeyV => seq!['V'],
        KeyCode::KeyW => seq!['W'],
        KeyCode::KeyX => seq!['X'],
        KeyCode::KeyY => seq!['Y'],
        KeyCode::KeyZ => seq!['Z'],
        KeyCode::Digit0 => seq!['D', 'i', 'g', 'i', 't', '0'],
        KeyCode::Digit1 => seq!['D', 'i', 'g', 'i', 't', '1'],
        KeyCode::Digit2 => seq!['D', 'i', 'g', 'i', 't', '2'],
        KeyCode::Digit3 => seq!['D', 'i', 'g', 'i', 't', '3'],
        KeyCode::Digit4 => seq!['D', 'i', 'g', 'i', 't', '4'],
        KeyCode::Digit5 => seq!['D', 'i', 'g', 'i', 't', '5'],
        KeyCode::Digit6 => seq!['D', 'i', 'g', 'i', 't', '6'],
        KeyCode::Digit7 => seq!['D', 'i', 'g', 'i', 't', '7'],
        KeyCode::Digit8 => seq!['D', 'i', 'g', 'i', 't', '8'],
        KeyCode::Digit9 => seq!['D', 'i', 'g', 'i', 't', '9'],
        KeyCode::F1 => seq!['F', '1'],
        KeyCode::F2 => seq!['F', '2'],
        KeyCode::F3 => seq!['F', '3'],
        KeyCode::F4 => seq!['F', '4'],
        KeyCode::F5 => seq!['F', '5'],
        KeyCode::F6 => seq!['F', '6'],
        KeyCode::F7 => seq!['F', '7'],
        KeyCode::F8 => seq!['F', '8'],
        KeyCode::F9 => seq!['F', '9'],
        KeyCode::F10 => seq!['F', '1', '0'],
        KeyCode::F11 => seq!['F', '1', '1'],
        KeyCode::F12 => seq!['F', '1', '2'],
    }
}

/// The modifier that a lowercase token names, if it names one: `ctrl`,
/// `alt`, `shift`, and `meta`, `super` or `command`, which name the same
/// flag.
pub open spec fn modifier_of(token: Seq<char>) -> Option<Modifier> {
    if token =~= seq!['c', 't', 'r', 'l'] {
        Some(Modifier::Control)
    } else if token =~= seq!['a', 'l', 't'] {
        Some(Modifier::Alt)
    } else if token =~= seq!['s', 'h', 'i', 'f', 't'] {
        Some(Modifier::Shift)
    } else if token =~= seq!['m', 'e', 't', 'a'] || token =~= seq!['s', 'u', 'p', 'e', 'r']
        || token =~= seq!['c', 'o', 'm', 'm', 'a', 'n', 'd'] {
        Some(Modifier::Meta)
    } else {
        None
    }
}

/// Whether some token of the sequence names the modifier `m`.
pub open spec fn names_modifier(tokens: Seq<Seq<char>>, m: Modifier) -> bool {
    exists|i: int| 0 <= i < tokens.len() && modifier_of(#[trigger] tokens[i]) == Some(m)
}

/// The flags that a sequence of lowercase tokens names. Tokens that name no
/// modifier contribute nothing, and neither order nor repetition matters.
pub open spec fn modifier_set_of(tokens: Seq<Seq<char>>) -> ModifierSet {
    ModifierSet {
        control: names_modifier(tokens, Modifier::Control),
        alt: names_modifier(tokens, Modifier::Alt),
        shift: names_modifier(tokens, Modifier::Shift),
        meta: names_modifier(tokens, Modifier::Meta),
    }
}

/// Each token in its lowercase form.
pub open spec fn lowercase_all(tokens: Seq<Seq<char>>) -> Seq<Seq<char>> {
    Seq::new(tokens.len(), |i: int| lowercase(tokens[i]))
}

impl Modifier {
    /// Looks a lowercase token up among the modifier names.
    pub fn from_token(token: &str) -> (r: Option<Modifier>)
        ensures
            r == modifier_of(token@),
    {
        proof {
            lemma_modifier_names_spelled();
        }
        if token.eq("ctrl") {
            Some(Modifier::Control)
        } else if token.eq("alt") {
            Some(Modifier::Alt)
        } else if token.eq("shift") {
            Some(Modifier::Shift)
        } else if token.eq("meta") || token.eq("super") || token.eq("command") {
            Some(Modifier::Meta)
        } else {
            None
        }
    }
}

impl ModifierSet {
    /// Whether the flag `m` is in the set.
    pub open spec fn has(self, m: Modifier) -> bool {
        match m {
            Modifier::Control => self.control,
            Modifier::Alt => self.alt,
            Modifier::Shift => self.shift,
            Modifier::Meta => self.meta,
        }
    }

    /// The set with no flag.
    pub fn empty() -> (r: ModifierSet)
        ensures
            forall|m: Modifier| !r.has(m),
    {
        ModifierSet { control: false, alt: false, shift: false, meta: false }
    }

    /// Adds the flag `m`; the other flags stay as they are.
    pub fn insert(&mut self, m: Modifier)
        ensures
            forall|o: Modifier| final(self).has(o) == (o == m || old(self).has(o)),
    {
        match m {
            Modifier::Control => {
                self.control = true;
            },
            Modifier::Alt => {
                self.alt = true;
            },
            Modifier::Shift => {
                self.shift = true;
            },
            Modifier::Meta => {
                self.meta = true;
            },
        }
    }

    /// The flags that a list of lowercase tokens names. Tokens that name no
    /// modifier are passed over.
    pub fn from_tokens(tokens: &Vec<String>) -> (r: ModifierSet)
        ensures
            r == modifier_set_of(tokens.deep_view()),
    {
        let ghost names = tokens.deep_view();
        let mut set = ModifierSet::empty();
        let mut i: usize = 0;
        while i < tokens.len()
            invariant
                i <= tokens.len(),
                names == tokens.deep_view(),
                forall|m: Modifier| set.has(m) == names_modifier(names.take(i as int), m),
            decreases tokens.len() - i,
        {
            let found = Modifier::from_token(tokens[i].as_str());
            if let Some(m) = found {
                set.insert(m);
            }
            proof {
                let before = names.take(i as int);
                let after = names.take(i + 1);
                assert(after[i as int] == tokens[i as int]@);
                assert forall|m: Modifier|
                    names_modifier(after, m) == (found == Some(m) || names_modifier(
                        before,
                        m,
                    )) by {
                    if names_modifier(after, m) {
                        let j = choose|j: int|
                            0 <= j < after.len() && modifier_of(#[trigger] after[j]) == Some(m);
                        if j < i {
                            assert(before[j] == after[j]);
                        }
                    }
                    if names_modifier(before, m) {
                        let j = choose|j: int|
                            0 <= j < before.len() && modifier_of(#[trigger] before[j]) == Some(m);
                        assert(after[j] == before[j]);
                    }
                }
            }
            i += 1;
        }
        assert(names.take(i as int) =~= names);
        proof {
            let named = modifier_set_of(names);
            assert(set.has(Modifier::Control) == named.control);
            assert(set.has(Modifier::Alt) == named.alt);
            assert(set.has(Modifier::Shift) == named.shift);
            assert(set.has(Modifier::Meta) == named.meta);
        }
        set
    }

    /// Whether the flag `m` is in the set.
    pub fn contains(&self, m: Modifier) -> (r: bool)
        ensures
            r == self.has(m),
    {
        match m {
            Modifier::Control => self.control,
            Modifier::Alt => self.alt,
            Modifier::Shift => self.shift,
            Modifier::Meta => self.meta,
        }
    }
}

impl KeyCode {
    /// Looks a lowercase key name up in the key table.
    pub fn from_name(name: &str) -> (r: KeyCode)
        ensures
            r == key_code_of(name@),
    {
        proof {
            lemma_key_names_spelled();
        }
        if name.eq("a") {
            KeyCode::KeyA
        } else if name.eq("b") {
            KeyCode::KeyB
        } else if name.eq("c") {
            KeyCode::KeyC
        } else if name.eq("d") {
            KeyCode::KeyD
        } else if name.eq("e") {
            KeyCode::KeyE
        } else if name.eq("f") {
            KeyCode::KeyF
        } else if name.eq("g") {
            KeyCode::KeyG
        } else if name.eq("h") {
            KeyCode::KeyH
        } else if name.eq("i") {
            KeyCode::KeyI
        } else if name.eq("j") {
            KeyCode::KeyJ
        } else if name.eq("k") {
            KeyCode::KeyK
        } else if name.eq("l") {
            KeyCode::KeyL
        } else if name.eq("m") {
            KeyCode::KeyM
        } else if name.eq("n") {
            KeyCode::KeyN
        } else if name.eq("o") {
            KeyCode::KeyO
        } else if name.eq("p") {
            KeyCode::KeyP
        } else if name.eq("q") {
            KeyCode::KeyQ
        } else if name.eq("r") {
            KeyCode::KeyR
        } else if name.eq("s") {
            KeyCode::KeyS
        } else if name.eq("t") {
            KeyCode::KeyT
        } else if name.eq("u") {
            KeyCode::KeyU
        } else if name.eq("v") {
            KeyCode::KeyV
        } else if name.eq("w") {
            KeyCode::KeyW
        } else if name.eq("x") {
            KeyCode::KeyX
        } else if name.eq("y") {
            KeyCode::KeyY
        } else if name.eq("z") {
            KeyCode::KeyZ
        } else if name.eq("0") {
            KeyCode::Digit0
        } else if name.eq("1") {
            KeyCode::Digit1
        } else if name.eq("2") {
            KeyCode::Digit2
        } else if name.eq("3") {
            KeyCode::Digit3
        } else if name.eq("4") {
            KeyCode::Digit4
        } else if name.eq("5") {
            KeyCode::Digit5
        } else if name.eq("6") {
            KeyCode::Digit6
        } else if name.eq("7") {
            KeyCode::Digit7
        } else if name.eq("8") {
            KeyCode::Digit8
        } else if name.eq("9") {
            KeyCode::Digit9
        } else if name.eq("f1") {
            KeyCode::F1
        } else if name.eq("f2") {
            KeyCode::F2
        } else if name.eq("f3") {
            KeyCode::F3
        } else if name.eq("f4") {
            KeyCode::F4
        } else if name.eq("f5") {
            KeyCode::F5
        } else if name.eq("f6") {
            KeyCode::F6
        } else if name.eq("f7") {
            KeyCode::F7
        } else if name.eq("f8") {
            KeyCode::F8
        } else if name.eq("f9") {
            KeyCode::F9
        } else if name.eq("f10") {
            KeyCode::F10
        } else if name.eq("f11") {
            KeyCode::F11
        } else if name.eq("f12") {
            KeyCode::F12
        } else {
            KeyCode::KeyV
        }
    }

    /// The text that stands for the key in a message to the user.
    pub fn label(&self) -> (r: &'static str)
        ensures
            r@ == key_label(*self),
    {
        proof {
            lemma_key_labels_spelled();
        }
        match self {
            KeyCode::KeyA => "A",
            KeyCode::KeyB => "B",
            KeyCode::KeyC => "C",
            KeyCode::KeyD => "D",
            KeyCode::KeyE => "E",
            KeyCode::KeyF => "F",
            KeyCode::KeyG => "G",
            KeyCode::KeyH => "H",
            KeyCode::KeyI => "I",
            KeyCode::KeyJ => "J",
            KeyCode::KeyK => "K",
            KeyCode::KeyL => "L",
            KeyCode::KeyM => "M",
            KeyCode::KeyN => "N",
            KeyCode::KeyO => "O",
            KeyCode::KeyP => "P",
            KeyCode::KeyQ => "Q",
            KeyCode::KeyR => "R",
            KeyCode::KeyS => "S",
            KeyCode::KeyT => "T",
            KeyCode::KeyU => "U",
            KeyCode::KeyV => "V",
            KeyCode::KeyW => "W",
            KeyCode::KeyX => "X",
            KeyCode::KeyY => "Y",
            KeyCode::KeyZ => "Z",
            KeyCode::Digit0 => "Digit0",
            KeyCode::Digit1 => "Digit1",
            KeyCode::Digit2 => "Digit2",
            KeyCode::Digit3 => "Digit3",
            KeyCode::Digit4 => "Digit4",
            KeyCode::Digit5 => "Digit5",
            KeyCode::Digit6 => "Digit6",
            KeyCode::Digit7 => "Digit7",
            KeyCode::Digit8 => "Digit8",
            KeyCode::Digit9 => "Digit9",
            KeyCode::F1 => "F1",
            KeyCode::F2 => "F2",
            KeyCode::F3 => "F3",
            KeyCode::F4 => "F4",
            KeyCode::F5 => "F5",
            KeyCode::F6 => "F6",
            KeyCode::F7 => "F7",
            KeyCode::F8 => "F8",
            KeyCode::F9 => "F9",
            KeyCode::F10 => "F10",
            KeyCode::F11 => "F11",
            KeyCode::F12 => "F12",
        }
    }
}

/// A hotkey binding as the user writes it: modifier names, a key name and a
/// label for the action that the hotkey triggers.
#[derive(Debug, PartialEq, Eq)]
pub struct ShortcutConfig {
    pub modifiers: Vec<String>,
    pub key: String,
    pub action: String,
}

/// Mathematical model of a [`ShortcutConfig`].
pub struct ShortcutConfigView {
    pub modifiers: Seq<Seq<char>>,
    pub key: Seq<char>,
    pub action: Seq<char>,
}

impl View for ShortcutConfig {
    type V = ShortcutConfigView;

    open spec fn view(&self) -> ShortcutConfigView {
        ShortcutConfigView {
            modifiers: self.modifiers.deep_view(),
            key: self.key@,
            action: self.action@,
        }
    }
}

impl DeepView for ShortcutConfig {
    type V = ShortcutConfigView;

    open spec fn deep_view(&self) -> ShortcutConfigView {
        self@
    }
}

impl Clone for ShortcutConfig {
    fn clone(&self) -> (r: Self)
        ensures
            r@ == self@,
    {
        let r = ShortcutConfig {
            modifiers: self.modifiers.clone(),
            key: self.key.clone(),
            action: self.action.clone(),
        };
        assert(r.modifiers.deep_view() =~= self.modifiers.deep_view());
        r
    }
}

/// The label of the one action that a hotkey can trigger: showing or hiding
/// the application window.
pub open spec fn toggle_action_label() -> Seq<char> {
    "切换应用窗口"@
}

/// The binding Ctrl+Alt with the given key, for toggling the window.
pub open spec fn toggle_binding(key: Seq<char>) -> ShortcutConfigView {
    ShortcutConfigView {
        modifiers: seq!["ctrl"@, "alt"@],
        key,
        action: toggle_action_label(),
    }
}

fn ctrl_alt_binding(key: &str) -> (r: ShortcutConfig)
    ensures
        r@ == toggle_binding(key@),
{
    let mut modifiers: Vec<String> = Vec::new();
    modifiers.push("ctrl".to_string());
    modifiers.push("alt".to_string());
    let r = ShortcutConfig {
        modifiers,
        key: key.to_string(),
        action: "切换应用窗口".to_string(),
    };
    assert(r.modifiers.deep_view() =~= seq!["ctrl"@, "alt"@]);
    r
}

impl Default for ShortcutConfig {
    /// Ctrl+Alt+V.
    fn default() -> (r: Self)
        ensures
            r@ == toggle_binding("v"@),
    {
        ctrl_alt_binding("v")
    }
}

/// The binding that stands in for a missing `toggle_app` entry: Ctrl+Alt+N.
pub fn default_toggle_app_shortcut() -> (r: ShortcutConfig)
    ensures
        r@ == toggle_binding("n"@),
{
    ctrl_alt_binding("n")
}

impl ShortcutConfig {
    /// Maps the binding to the modifier flags and the key that it names.
    /// Case does not matter: every token is taken in its lowercase form.
    pub fn to_tauri_shortcut(&self) -> (r: (ModifierSet, KeyCode))
        ensures
            r.0 == modifier_set_of(lowercase_all(self@.modifiers)),
            r.1 == key_code_of(lowercase(self@.key)),
    {
        let mut tokens: Vec<String> = Vec::new();
        let mut i: usize = 0;
        while i < self.modifiers.len()
            invariant
                i <= self.modifiers.len(),
                tokens@.len() == i,
                forall|j: int| 0 <= j < i ==> (#[trigger] tokens@[j])@ == lowercase(self.modifiers@[j]@),
            decreases self.modifiers.len() - i,
        {
            tokens.push(self.modifiers[i].to_lowercase());
            i += 1;
        }
        assert(tokens.deep_view() =~= lowercase_all(self@.modifiers));
        let key = self.key.to_lowercase();
        (ModifierSet::from_tokens(&tokens), KeyCode::from_name(key.as_str()))
    }
}

/// The hotkey bindings of the application. There is one: the binding that
/// shows or hides the window.
#[derive(Debug, PartialEq, Eq)]
pub struct ShortcutConfigs {
    pub toggle_app: ShortcutConfig,
}

/// Mathematical model of [`ShortcutConfigs`].
pub struct ShortcutConfigsView {
    pub toggle_app: ShortcutConfigView,
}

impl View for ShortcutConfigs {
    type V = ShortcutConfigsView;

    open spec fn view(&self) -> ShortcutConfigsView {
        ShortcutConfigsView { toggle_app: self.toggle_app@ }
    }
}

impl Clone for ShortcutConfigs {
    fn clone(&self) -> (r: Self)
        ensures
            r@ == self@,
    {
        ShortcutConfigs { toggle_app: self.toggle_app.clone() }
    }
}

impl Default for ShortcutConfigs {
    /// The window toggle on Ctrl+Alt+V.
    fn default() -> (r: Self)
        ensures
            r@ == (ShortcutConfigsView { toggle_app: toggle_binding("v"@) }),
    {
        ShortcutConfigs { toggle_app: ShortcutConfig::default() }
    }
}

/// A hotkey as a message shows it: the modifiers in the order Ctrl, Alt,
/// Shift, Meta, then the key, joined by `+`.
pub open spec fn shortcut_label(mods: ModifierSet, code: KeyCode) -> Seq<char> {
    (if mods.control { seq!['C', 't', 'r', 'l', '+'] } else { Seq::<char>::empty() })
    + (if mods.alt { seq!['A', 'l', 't', '+'] } else { Seq::<char>::empty() })
    + (if mods.shift { seq!['S', 'h', 'i', 'f', 't', '+'] } else { Seq::<char>::empty() })
    + (if mods.meta { seq!['M', 'e', 't', 'a', '+'] } else { Seq::<char>::empty() })
    + key_label(code)
}

/// Writes a hotkey the way a message shows it, such as `Ctrl+Alt+V`.
pub fn format_shortcut_for_display(mods: &ModifierSet, code: &KeyCode) -> (r: String)
    ensures
        r@ == shortcut_label(*mods, *code),
{
    proof {
        lemma_modifier_labels_spelled();
    }
    let mut text = String::new();
    if mods.control {
        text.append("Ctrl+");
    }
    if mods.alt {
        text.append("Alt+");
    }
    if mods.shift {
        text.append("Shift+");
    }
    if mods.meta {
        text.append("Meta+");
    }
    text.append(code.label());
    text
}

/// Every key is found under its own name: the forty-eight names of the table
/// stand for forty-eight different keys.
pub proof fn lemma_key_name_finds_its_key(code: KeyCode)
    ensures
        key_code_of(key_name(code)) == code,
{
    let name = key_name(code);
    assert(1 <= name.len() <= 3);
    assert(name.len() == 1 ==> name =~= seq![name[0]]);
    assert(name.len() == 2 ==> name =~= seq![name[0], name[1]]);
    assert(name.len() == 3 ==> name =~= seq![name[0], name[1], name[2]]);
}

/// The key names as string literals, character by character.
proof fn lemma_key_names_spelled()
    ensures
        "a"@ == seq!['a'],
        "b"@ == seq!['b'],
        "c"@ == seq!['c'],
        "d"@ == seq!['d'],
        "e"@ == seq!['e'],
        "f"@ == seq!['f'],
        "g"@ == seq!['g'],
        "h"@ == seq!['h'],
        "i"@ == seq!['i'],
        "j"@ == seq!['j'],
        "k"@ == seq!['k'],
        "l"@ == seq!['l'],
        "m"@ == seq!['m'],
        "n"@ == seq!['n'],
        "o"@ == seq!['o'],
        "p"@ == seq!['p'],
        "q"@ == seq!['q'],
        "r"@ == seq!['r'],
        "s"@ == seq!['s'],
        "t"@ == seq!['t'],
        "u"@ == seq!['u'],
        "v"@ == seq!['v'],
        "w"@ == seq!['w'],
        "x"@ == seq!['x'],
        "y"@ == seq!['y'],
        "z"@ == seq!['z'],
        "0"@ == seq!['0'],
        "1"@ == seq!['1'],
        "2"@ == seq!['2'],
        "3"@ == seq!['3'],
        "4"@ == seq!['4'],
        "5"@ == seq!['5'],
        "6"@ == seq!['6'],
        "7"@ == seq!['7'],
        "8"@ == seq!['8'],
        "9"@ == seq!['9'],
        "f1"@ == seq!['f', '1'],
        "f2"@ == seq!['f', '2'],
        "f3"@ == seq!['f', '3'],
        "f4"@ == seq!['f', '4'],
        "f5"@ == seq!['f', '5'],
        "f6"@ == seq!['f', '6'],
        "f7"@ == seq!['f', '7'],
        "f8"@ == seq!['f', '8'],
        "f9"@ == seq!['f', '9'],
        "f10"@ == seq!['f', '1', '0'],
        "f11"@ == seq!['f', '1', '1'],
        "f12"@ == seq!['f', '1', '2'],
{
    reveal_strlit("a");
    assert("a"@ =~= seq!['a']);
    reveal_strlit("b");
    assert("b"@ =~= seq!['b']);
    reveal_strlit("c");
    assert("c"@ =~= seq!['c']);
    reveal_strlit("d");
    assert("d"@ =~= seq!['d']);
    reveal_strlit("e");
    assert("e"@ =~= seq!['e']);
    reveal_strlit("f");
    assert("f"@ =~= seq!['f']);
    reveal_strlit("g");
    assert("g"@ =~= seq!['g']);
    reveal_strlit("h");
    assert("h"@ =~= seq!['h']);
    reveal_strlit("i");
    assert("i"@ =~= seq!['i']);
    reveal_strlit("j");
    assert("j"@ =~= seq!['j']);
    reveal_strlit("k");
    assert("k"@ =~= seq!['k']);
    reveal_strlit("l");
    assert("l"@ =~= seq!['l']);
    reveal_strlit("m");
    assert("m"@ =~= seq!['m']);
    reveal_strlit("n");
    assert("n"@ =~= seq!['n']);
    reveal_strlit("o");
    assert("o"@ =~= seq!['o']);
    reveal_strlit("p");
    assert("p"@ =~= seq!['p']);
    reveal_strlit("q");
    assert("q"@ =~= seq!['q']);
    reveal_strlit("r");
    assert("r"@ =~= seq!['r']);
    reveal_strlit("s");
    assert("s"@ =~= seq!['s']);
    reveal_strlit("t");
    assert("t"@ =~= seq!['t']);
    reveal_strlit("u");
    assert("u"@ =~= seq!['u']);
    reveal_strlit("v");
    assert("v"@ =~= seq!['v']);
    reveal_strlit("w");
    assert("w"@ =~= seq!['w']);
    reveal_strlit("x");
    assert("x"@ =~= seq!['x']);
    reveal_strlit("y");
    assert("y"@ =~= seq!['y']);
    reveal_strlit("z");
    assert("z"@ =~= seq!['z']);
    reveal_strlit("0");
    assert("0"@ =~= seq!['0']);
    reveal_strlit("1");
    assert("1"@ =~= seq!['1']);
    reveal_strlit("2");
    assert("2"@ =~= seq!['2']);
    reveal_strlit("3");
    assert("3"@ =~= seq!['3']);
    reveal_strlit("4");
    assert("4"@ =~= seq!['4']);
    reveal_strlit("5");
    assert("5"@ =~= seq!['5']);
    reveal_strlit("6");
    assert("6"@ =~= seq!['6']);
    reveal_strlit("7");
    assert("7"@ =~= seq!['7']);
    reveal_strlit("8");
    assert("8"@ =~= seq!['8']);
    reveal_strlit("9");
    assert("9"@ =~= seq!['9']);
    reveal_strlit("f1");
    assert("f1"@ =~= seq!['f', '1']);
    reveal_strlit("f2");
    assert("f2"@ =~= seq!['f', '2']);
    reveal_strlit("f3");
    assert("f3"@ =~= seq!['f', '3']);
    reveal_strlit("f4");
    assert("f4"@ =~= seq!['f', '4']);
    reveal_strlit("f5");
    assert("f5"@ =~= seq!['f', '5']);
    reveal_strlit("f6");
    assert("f6"@ =~= seq!['f', '6']);
    reveal_strlit("f7");
    assert("f7"@ =~= seq!['f', '7']);
    reveal_strlit("f8");
    assert("f8"@ =~= seq!['f', '8']);
    reveal_strlit("f9");
    assert("f9"@ =~= seq!['f', '9']);
    reveal_strlit("f10");
    assert("f10"@ =~= seq!['f', '1', '0']);
    reveal_strlit("f11");
    assert("f11"@ =~= seq!['f', '1', '1']);
    reveal_strlit("f12");
    assert("f12"@ =~= seq!['f', '1', '2']);
}

/// The key labels as string literals, character by character.
proof fn lemma_key_labels_spelled()
    ensures
        "A"@ == seq!['A'],
        "B"@ == seq!['B'],
        "C"@ == seq!['C'],
        "D"@ == seq!['D'],
        "E"@ == seq!['E'],
        "F"@ == seq!['F'],
        "G"@ == seq!['G'],
        "H"@ == seq!['H'],
        "I"@ == seq!['I'],
        "J"@ == seq!['J'],
        "K"@ == seq!['K'],
        "L"@ == seq!['L'],
        "M"@ == seq!['M'],
        "N"@ == seq!['N'],
        "O"@ == seq!['O'],
        "P"@ == seq!['P'],
        "Q"@ == seq!['Q'],
        "R"@ == seq!['R'],
        "S"@ == seq!['S'],
        "T"@ == seq!['T'],
        "U"@ == seq!['U'],
        "V"@ == seq!['V'],
        "W"@ == seq!['W'],
        "X"@ == seq!['X'],
        "Y"@ == seq!['Y'],
        "Z"@ == seq!['Z'],
        "Digit0"@ == seq!['D', 'i', 'g', 'i', 't', '0'],
        "Digit1"@ == seq!['D', 'i', 'g', 'i', 't', '1'],
        "Digit2"@ == seq!['D', 'i', 'g', 'i', 't', '2'],
        "Digit3"@ == seq!['D', 'i', 'g', 'i', 't', '3'],
        "Digit4"@ == seq!['D', 'i', 'g', 'i', 't', '4'],
        "Digit5"@ == seq!['D', 'i', 'g', 'i', 't', '5'],
        "Digit6"@ == seq!['D', 'i', 'g', 'i', 't', '6'],
        "Digit7"@ == seq!['D', 'i', 'g', 'i', 't', '7'],
        "Digit8"@ == seq!['D', 'i', 'g', 'i', 't', '8'],
        "Digit9"@ == seq!['D', 'i', 'g', 'i', 't', '9'],
        "F1"@ == seq!['F', '1'],
        "F2"@ == seq!['F', '2'],
        "F3"@ == seq!['F', '3'],
        "F4"@ == seq!['F', '4'],
        "F5"@ == seq!['F', '5'],
        "F6"@ == seq!['F', '6'],
        "F7"@ == seq!['F', '7'],
        "F8"@ == seq!['F', '8'],
        "F9"@ == seq!['F', '9'],
        "F10"@ == seq!['F', '1', '0'],
        "F11"@ == seq!['F', '1', '1'],
        "F12"@ == seq!['F', '1', '2'],
{
    reveal_strlit("A");
    assert("A"@ =~= seq!['A']);
    reveal_strlit("B");
    assert("B"@ =~= seq!['B']);
    reveal_strlit("C");
    assert("C"@ =~= seq!['C']);
    reveal_strlit("D");
    assert("D"@ =~= seq!['D']);
    reveal_strlit("E");
    assert("E"@ =~= seq!['E']);
    reveal_strlit("F");
    assert("F"@ =~= seq!['F']);
    reveal_strlit("G");
    assert("G"@ =~= seq!['G']);
    reveal_strlit("H");
    assert("H"@ =~= seq!['H']);
    reveal_strlit("I");
    assert("I"@ =~= seq!['I']);
    reveal_strlit("J");
    assert("J"@ =~= seq!['J']);
    reveal_strlit("K");
    assert("K"@ =~= seq!['K']);
    reveal_strlit("L");
    assert("L"@ =~= seq!['L']);
    reveal_strlit("M");
    assert("M"@ =~= seq!['M']);
    reveal_strlit("N");
    assert("N"@ =~= seq!['N']);
    reveal_strlit("O");
    assert("O"@ =~= seq!['O']);
    reveal_strlit("P");
    assert("P"@ =~= seq!['P']);
    reveal_strlit("Q");
    assert("Q"@ =~= seq!['Q']);
    reveal_strlit("R");
    assert("R"@ =~= seq!['R']);
    reveal_strlit("S");
    assert("S"@ =~= seq!['S']);
    reveal_strlit("T");
    assert("T"@ =~= seq!['T']);
    reveal_strlit("U");
    assert("U"@ =~= seq!['U']);
    reveal_strlit("V");
    assert("V"@ =~= seq!['V']);
    reveal_strlit("W");
    assert("W"@ =~= seq!['W']);
    reveal_strlit("X");
    assert("X"@ =~= seq!['X']);
    reveal_strlit("Y");
    assert("Y"@ =~= seq!['Y']);
    reveal_strlit("Z");
    assert("Z"@ =~= seq!['Z']);
    reveal_strlit("Digit0");
    assert("Digit0"@ =~= seq!['D', 'i', 'g', 'i', 't', '0']);
    reveal_strlit("Digit1");
    assert("Digit1"@ =~= seq!['D', 'i', 'g', 'i', 't', '1']);
    reveal_strlit("Digit2");
    assert("Digit2"@ =~= seq!['D', 'i', 'g', 'i', 't', '2']);
    reveal_strlit("Digit3");
    assert("Digit3"@ =~= seq!['D', 'i', 'g', 'i', 't', '3']);
    reveal_strlit("Digit4");
    assert("Digit4"@ =~= seq!['D', 'i', 'g', 'i', 't', '4']);
    reveal_strlit("Digit5");
    assert("Digit5"@ =~= seq!['D', 'i', 'g', 'i', 't', '5']);
    reveal_strlit("Digit6");
    assert("Digit6"@ =~= seq!['D', 'i', 'g', 'i', 't', '6']);
    reveal_strlit("Digit7");
    assert("Digit7"@ =~= seq!['D', 'i', 'g', 'i', 't', '7']);
    reveal_strlit("Digit8");
    assert("Digit8"@ =~= seq!['D', 'i', 'g', 'i', 't', '8']);
    reveal_strlit("Digit9");
    assert("Digit9"@ =~= seq!['D', 'i', 'g', 'i', 't', '9']);
    reveal_strlit("F1");
    assert("F1"@ =~= seq!['F', '1']);
    reveal_strlit("F2");
    assert("F2"@ =~= seq!['F', '2']);
    reveal_strlit("F3");
    assert("F3"@ =~= seq!['F', '3']);
    reveal_strlit("F4");
    assert("F4"@ =~= seq!['F', '4']);
    reveal_strlit("F5");
    assert("F5"@ =~= seq!['F', '5']);
    reveal_strlit("F6");
    assert("F6"@ =~= seq!['F', '6']);
    reveal_strlit("F7");
    assert("F7"@ =~= seq!['F', '7']);
    reveal_strlit("F8");
    assert("F8"@ =~= seq!['F', '8']);
    reveal_strlit("F9");
    assert("F9"@ =~= seq!['F', '9']);
    reveal_strlit("F10");
    assert("F10"@ =~= seq!['F', '1', '0']);
    reveal_strlit("F11");
    assert("F11"@ =~= seq!['F', '1', '1']);
    reveal_strlit("F12");
    assert("F12"@ =~= seq!['F', '1', '2']);
}

/// The modifier labels as string literals, character by character.
proof fn lemma_modifier_labels_spelled()
    ensures
        "Ctrl+"@ == seq!['C', 't', 'r', 'l', '+'],
        "Alt+"@ == seq!['A', 'l', 't', '+'],
        "Shift+"@ == seq!['S', 'h', 'i', 'f', 't', '+'],
        "Meta+"@ == seq!['M', 'e', 't', 'a', '+'],
{
    reveal_strlit("Ctrl+");
    assert("Ctrl+"@ =~= seq!['C', 't', 'r', 'l', '+']);
    reveal_strlit("Alt+");
    assert("Alt+"@ =~= seq!['A', 'l', 't', '+']);
    reveal_strlit("Shift+");
    assert("Shift+"@ =~= seq!['S', 'h', 'i', 'f', 't', '+']);
    reveal_strlit("Meta+");
    assert("Meta+"@ =~= seq!['M', 'e', 't', 'a', '+']);
}

/// The modifier names as string literals, character by character.
proof fn lemma_modifier_names_spelled()
    ensures
        "ctrl"@ == seq!['c', 't', 'r', 'l'],
        "alt"@ == seq!['a', 'l', 't'],
        "shift"@ == seq!['s', 'h', 'i', 'f', 't'],
        "meta"@ == seq!['m', 'e', 't', 'a'],
        "super"@ == seq!['s', 'u', 'p', 'e', 'r'],
        "command"@ == seq!['c', 'o', 'm', 'm', 'a', 'n', 'd'],
{
    reveal_strlit("ctrl");
    assert("ctrl"@ =~= seq!['c', 't', 'r', 'l']);
    reveal_strlit("alt");
    assert("alt"@ =~= seq!['a', 'l', 't']);
    reveal_strlit("shift");
    assert("shift"@ =~= seq!['s', 'h', 'i', 'f', 't']);
    reveal_strlit("meta");
    assert("meta"@ =~= seq!['m', 'e', 't', 'a']);
    reveal_strlit("super");
    assert("super"@ =~= seq!['s', 'u', 'p', 'e', 'r']);
    reveal_strlit("command");
    assert("command"@ =~= seq!['c', 'o', 'm', 'm', 'a', 'n', 'd']);
}

/// Two different keys have different names.
pub proof fn lemma_key_names_differ(a: KeyCode, b: KeyCode)
    requires
        a != b,
    ensures
        key_name(a) != key_name(b),
{
    lemma_key_name_finds_its_key(a);
    lemma_key_name_finds_its_key(b);
}

/// A string that is the name of no key stands for the V key.
pub proof fn lemma_unnamed_key_is_default(name: Seq<char>)
    requires
        forall|code: KeyCode| name != #[trigger] key_name(code),
    ensures
        key_code_of(name) == KeyCode::KeyV,
{
    let code = key_code_of(name);
    assert(name == key_name(code) || code == KeyCode::KeyV);
}

/// The flags that a sequence of tokens names depend on which tokens occur in
/// it, not on their order or number.
pub proof fn lemma_modifier_set_ignores_order(a: Seq<Seq<char>>, b: Seq<Seq<char>>)
    requires
        forall|t: Seq<char>| a.contains(t) <==> b.contains(t),
    ensures
        modifier_set_of(a) == modifier_set_of(b),
{
    assert forall|m: Modifier| names_modifier(a, m) == names_modifier(b, m) by {
        if names_modifier(a, m) {
            let i = choose|i: int| 0 <= i < a.len() && modifier_of(#[trigger] a[i]) == Some(m);
            assert(a.contains(a[i]));
            let j = choose|j: int| 0 <= j < b.len() && b[j] == a[i];
            assert(modifier_of(b[j]) == Some(m));
        }
        if names_modifier(b, m) {
            let i = choose|i: int| 0 <= i < b.len() && modifier_of(#[trigger] b[i]) == Some(m);
            assert(b.contains(b[i]));
            let j = choose|j: int| 0 <= j < a.len() && a[j] == b[i];
            assert(modifier_of(a[j]) == Some(m));
        }
    }
}

/// A token that names no modifier changes nothing, wherever it stands.
pub proof fn lemma_unknown_token_is_dropped(tokens: Seq<Seq<char>>, at: int, token: Seq<char>)
    requires
        0 <= at <= tokens.len(),
        modifier_of(token) is None,
    ensures
        modifier_set_of(tokens.insert(at, token)) == modifier_set_of(tokens),
{
    let longer = tokens.insert(at, token);
    assert forall|m: Modifier| names_modifier(longer, m) == names_modifier(tokens, m) by {
        if names_modifier(longer, m) {
            let i = choose|i: int| 0 <= i < longer.len() && modifier_of(#[trigger] longer[i]) == Some(m);
            if i < at {
                assert(tokens[i] == longer[i]);
            } else {
                assert(i != at);
                assert(tokens[i - 1] == longer[i]);
            }
        }
        if names_modifier(tokens, m) {
            let i = choose|i: int| 0 <= i < tokens.len() && modifier_of(#[trigger] tokens[i]) == Some(m);
            if i < at {
                assert(longer[i] == tokens[i]);
            } else {
                assert(longer[i + 1] == tokens[i]);
            }
        }
    }
}

} // verus!
