use taocket::taocket_hotkey::{
    find_key_code, parse_hotkey, parse_key_code, read_part, split_key_str, HotkeyError, KeyCode,
    KeyCombination, Modifiers, Partial,
};

fn parts(text: &str) -> Vec<String> {
    split_key_str(text)
}

fn plain(code: KeyCode) -> KeyCombination {
    KeyCombination {
        modifiers: Modifiers { control: false, shift: false, alt: false, meta: false },
        code,
    }
}

#[test]
fn split_on_single_plus() {
    assert_eq!(parts("ctrl+shift+k"), vec!["ctrl", "shift", "k"]);
    assert_eq!(parts("k"), vec!["k"]);
    assert_eq!(parts("ctrl+"), vec!["ctrl"]);
    assert_eq!(parts("+k"), vec!["k"]);
    assert_eq!(parts("a b+c"), vec!["a b", "c"]);
}

#[test]
fn split_double_plus_is_the_plus_key() {
    assert_eq!(parts("ctrl++"), vec!["ctrl", "+"]);
    assert_eq!(parts("++"), vec!["+"]);
    assert_eq!(parts("a++b"), vec!["a", "+", "b"]);
    assert_eq!(parts("a+++b"), vec!["a", "+", "b"]);
    assert_eq!(parts("++++"), vec!["+", "+"]);
    assert_eq!(parts("+++"), vec!["+"]);
}

#[test]
fn split_edge_cases() {
    assert!(parts("").is_empty());
    assert!(parts("+").is_empty());
    assert_eq!(parts("\u{e9}+\u{4e2d}\u{6587}"), vec!["\u{e9}", "\u{4e2d}\u{6587}"]);
}

#[test]
fn key_codes_by_full_and_short_name() {
    assert_eq!(parse_key_code("KeyA").ok(), Some(KeyCode::KeyA));
    assert_eq!(parse_key_code("a").ok(), Some(KeyCode::KeyA));
    assert_eq!(parse_key_code("Z").ok(), Some(KeyCode::KeyZ));
    assert_eq!(parse_key_code("digit7").ok(), Some(KeyCode::Digit7));
    assert_eq!(parse_key_code("7").ok(), Some(KeyCode::Digit7));
    assert_eq!(parse_key_code("`").ok(), Some(KeyCode::Backquote));
    assert_eq!(parse_key_code("\\").ok(), Some(KeyCode::Backslash));
    assert_eq!(parse_key_code("[").ok(), Some(KeyCode::BracketLeft));
    assert_eq!(parse_key_code("]").ok(), Some(KeyCode::BracketRight));
    assert_eq!(parse_key_code("pausebreak").ok(), Some(KeyCode::Pause));
    assert_eq!(parse_key_code(",").ok(), Some(KeyCode::Comma));
    assert_eq!(parse_key_code("=").ok(), Some(KeyCode::Equal));
    assert_eq!(parse_key_code("-").ok(), Some(KeyCode::Minus));
    assert_eq!(parse_key_code(".").ok(), Some(KeyCode::Period));
    assert_eq!(parse_key_code("'").ok(), Some(KeyCode::Quote));
    assert_eq!(parse_key_code(";").ok(), Some(KeyCode::Semicolon));
    assert_eq!(parse_key_code("/").ok(), Some(KeyCode::Slash));
    assert_eq!(parse_key_code("+").ok(), Some(KeyCode::NumpadAdd));
    assert_eq!(parse_key_code("numplus").ok(), Some(KeyCode::NumpadAdd));
    assert_eq!(parse_key_code("Enter").ok(), Some(KeyCode::Enter));
    assert_eq!(parse_key_code("space").ok(), Some(KeyCode::Space));
    assert_eq!(parse_key_code("esc").ok(), Some(KeyCode::Escape));
    assert_eq!(parse_key_code("up").ok(), Some(KeyCode::ArrowUp));
    assert_eq!(parse_key_code("ArrowLeft").ok(), Some(KeyCode::ArrowLeft));
    assert_eq!(parse_key_code("num0").ok(), Some(KeyCode::Numpad0));
    assert_eq!(parse_key_code("f1").ok(), Some(KeyCode::F1));
    assert_eq!(parse_key_code("F12").ok(), Some(KeyCode::F12));
    assert_eq!(parse_key_code("f24").ok(), Some(KeyCode::F24));
    assert_eq!(parse_key_code("volumeup").ok(), Some(KeyCode::AudioVolumeUp));
    assert_eq!(parse_key_code("MediaTrackPrev").ok(), Some(KeyCode::MediaTrackPrevious));
}

#[test]
fn unknown_key_is_reported_as_written() {
    match parse_key_code("hyper") {
        Err(HotkeyError::UnknownKey(key)) => assert_eq!(key, "hyper"),
        other => panic!("unexpected result {:?}", other),
    }
    assert!(matches!(parse_key_code(""), Err(HotkeyError::UnknownKey(key)) if key.is_empty()));
    assert!(matches!(parse_key_code("f25"), Err(HotkeyError::UnknownKey(_))));
}

#[test]
fn hotkey_with_every_modifier() {
    let all = parse_hotkey("Ctrl+Shift+Alt+Super+F5").expect("a key combination");
    assert_eq!(
        all,
        KeyCombination {
            modifiers: Modifiers { control: true, shift: true, alt: true, meta: true },
            code: KeyCode::F5,
        }
    );
    for name in ["control", "CTRL"] {
        let hotkey = parse_hotkey(&format!("{}+a", name)).expect("a key combination");
        assert!(hotkey.modifiers.control && !hotkey.modifiers.shift);
    }
    for name in ["super", "win", "cmd", "meta", "WIN"] {
        let hotkey = parse_hotkey(&format!("{}+a", name)).expect("a key combination");
        assert!(hotkey.modifiers.meta && !hotkey.modifiers.control);
        assert_eq!(hotkey.code, KeyCode::KeyA);
    }
    let alt = parse_hotkey("a+alt+alt").expect("a key combination");
    assert!(alt.modifiers.alt);
    assert_eq!(alt.code, KeyCode::KeyA);
}

#[test]
fn hotkey_without_modifiers_and_the_plus_key() {
    assert_eq!(parse_hotkey("k").ok(), Some(plain(KeyCode::KeyK)));
    assert_eq!(parse_hotkey("++").ok(), Some(plain(KeyCode::NumpadAdd)));
    let plus = parse_hotkey("ctrl++").expect("a key combination");
    assert!(plus.modifiers.control);
    assert_eq!(plus.code, KeyCode::NumpadAdd);
}

#[test]
fn hotkey_errors() {
    assert!(matches!(parse_hotkey(""), Err(HotkeyError::InvalidKeyFormat(text)) if text.is_empty()));
    assert!(matches!(parse_hotkey("+"), Err(HotkeyError::InvalidKeyFormat(text)) if text == "+"));
    assert!(matches!(
        parse_hotkey("ctrl+shift"),
        Err(HotkeyError::InvalidKeyFormat(text)) if text == "No key code specified"
    ));
    assert!(matches!(
        parse_hotkey("a+b"),
        Err(HotkeyError::InvalidKeyFormat(text)) if text == "Multiple non-modifier keys specified"
    ));
    assert!(matches!(
        parse_hotkey("ctrl+Hyper"),
        Err(HotkeyError::UnknownKey(key)) if key == "hyper"
    ));
    assert!(matches!(
        parse_hotkey("nokey+a"),
        Err(HotkeyError::UnknownKey(key)) if key == "nokey"
    ));
    assert!(matches!(
        parse_hotkey("a+nokey"),
        Err(HotkeyError::InvalidKeyFormat(text)) if text == "Multiple non-modifier keys specified"
    ));
}

#[test]
fn error_messages() {
    assert_eq!(
        HotkeyError::InitializationFailed("no display".to_string()).message(),
        "Failed to initialize hotkey manager: no display"
    );
    assert_eq!(
        HotkeyError::InvalidKeyFormat("x".to_string()).message(),
        "Invalid key format: x"
    );
    assert_eq!(HotkeyError::UnknownKey("hyper".to_string()).message(), "Unknown key: hyper");
}

#[test]
fn key_table_takes_uppercase_names_only() {
    assert_eq!(find_key_code("KEYA"), Some(KeyCode::KeyA));
    assert_eq!(find_key_code("A"), Some(KeyCode::KeyA));
    assert_eq!(find_key_code("BACKQUOTE"), Some(KeyCode::Backquote));
    assert_eq!(find_key_code("`"), Some(KeyCode::Backquote));
    assert_eq!(find_key_code("+"), Some(KeyCode::NumpadAdd));
    assert_eq!(find_key_code("F24"), Some(KeyCode::F24));
    assert_eq!(find_key_code("MEDIATRACKPREVIOUS"), Some(KeyCode::MediaTrackPrevious));
    assert_eq!(find_key_code("a"), None);
    assert_eq!(find_key_code("KeyA"), None);
    assert_eq!(find_key_code("f1"), None);
    assert_eq!(find_key_code(""), None);
    assert_eq!(find_key_code("CTRL"), None);
}

fn read(control: bool, shift: bool, alt: bool, meta: bool, code: Option<KeyCode>) -> Partial {
    Partial { modifiers: Modifiers { control, shift, alt, meta }, code }
}

#[test]
fn a_part_switches_a_modifier_on_or_names_the_key() {
    let nothing = read(false, false, false, false, None);
    assert_eq!(read_part(nothing, "ctrl").ok(), Some(read(true, false, false, false, None)));
    assert_eq!(read_part(nothing, "control").ok(), Some(read(true, false, false, false, None)));
    assert_eq!(read_part(nothing, "shift").ok(), Some(read(false, true, false, false, None)));
    assert_eq!(read_part(nothing, "alt").ok(), Some(read(false, false, true, false, None)));
    for name in ["super", "win", "cmd", "meta"] {
        assert_eq!(read_part(nothing, name).ok(), Some(read(false, false, false, true, None)));
    }
    assert_eq!(
        read_part(nothing, "k").ok(),
        Some(read(false, false, false, false, Some(KeyCode::KeyK)))
    );

    let held = read(true, false, true, false, Some(KeyCode::F5));
    assert_eq!(read_part(held, "ctrl").ok(), Some(held));
    assert_eq!(
        read_part(held, "shift").ok(),
        Some(read(true, true, true, false, Some(KeyCode::F5)))
    );
}

#[test]
fn a_part_takes_its_name_in_lower_case() {
    let nothing = read(false, false, false, false, None);
    assert!(matches!(
        read_part(nothing, "CTRL"),
        Err(HotkeyError::UnknownKey(key)) if key == "CTRL"
    ));
    assert!(matches!(
        read_part(nothing, "hyper"),
        Err(HotkeyError::UnknownKey(key)) if key == "hyper"
    ));
}

#[test]
fn a_second_key_is_refused_before_it_is_looked_up() {
    let held = read(false, true, false, false, Some(KeyCode::KeyA));
    for name in ["b", "hyper", ""] {
        assert!(matches!(
            read_part(held, name),
            Err(HotkeyError::InvalidKeyFormat(text)) if text == "Multiple non-modifier keys specified"
        ));
    }
}
