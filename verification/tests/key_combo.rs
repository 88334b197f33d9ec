use ajam::key_combo::{Key, KeyCombo, KeyDirection, Modifier, Modifiers};

fn parse(input: &str) -> Result<KeyCombo, String> {
    KeyCombo::parse(input).map_err(|e| e.message())
}

#[test]
fn test_single_modifier() {
    let kc = parse("ctrl").unwrap();
    assert!(kc.modifiers.contains(Modifier::Ctrl));
    assert!(kc.keys.is_empty());
}

#[test]
fn test_multiple_modifiers() {
    let kc = parse("ctrl+alt+shift").unwrap();
    assert!(kc.modifiers.contains(Modifier::Ctrl));
    assert!(kc.modifiers.contains(Modifier::Alt));
    assert!(kc.modifiers.contains(Modifier::Shift));
    assert!(kc.keys.is_empty());
}

#[test]
fn test_synonyms() {
    let kc = parse("cmd+option").unwrap();
    assert!(kc.modifiers.contains(Modifier::Meta));
    assert!(kc.modifiers.contains(Modifier::Alt));
    assert!(kc.keys.is_empty());
}

#[test]
fn test_invalid_modifier() {
    let err = parse("ctrl+foo").unwrap_err();
    assert!(err.contains("Invalid key: foo"));
}

#[test]
fn test_empty_string() {
    let Err(_) = parse("") else {
        panic!("Expected error");
    };
}

#[test]
fn test_key_combo() {
    let kc = parse("ctrl+alt+shift+a").unwrap();
    assert!(kc.modifiers.contains(Modifier::Ctrl));
    assert!(kc.modifiers.contains(Modifier::Alt));
    assert!(kc.modifiers.contains(Modifier::Shift));
    assert_eq!(kc.keys.len(), 1);
    assert_eq!(kc.keys[0], Key::Unicode('a'));
}

#[test]
fn test_special_keys() {
    let kc = parse("illumination_up").unwrap();
    assert_eq!(kc.keys, vec![Key::IlluminationUp]);
    assert!(kc.is_illumination());
    let kc = parse("illumination_down").unwrap();
    assert!(kc.is_illumination());
    let kc = parse("volume_up").unwrap();
    assert_eq!(kc.keys, vec![Key::VolumeUp]);
    assert!(!kc.is_illumination());
    let kc = parse("f13").unwrap();
    assert_eq!(kc.keys, vec![Key::F13]);
}

#[test]
fn test_parts_are_trimmed() {
    let kc = parse("ctrl + a").unwrap();
    assert!(kc.modifiers.contains(Modifier::Ctrl));
    assert_eq!(kc.keys, vec![Key::Unicode('a')]);
}

#[test]
fn test_unicode_whitespace_is_trimmed() {
    let kc = parse("ctrl+\u{00A0}a\u{2003}").unwrap();
    assert!(kc.modifiers.contains(Modifier::Ctrl));
    assert_eq!(kc.keys, vec![Key::Unicode('a')]);
}

#[test]
fn test_single_multibyte_character_is_rejected() {
    let err = parse("\u{00E9}").unwrap_err();
    assert!(err.contains("Invalid key"));
    let err = parse("ctrl+\u{00E9}").unwrap_err();
    assert!(err.contains("Invalid key"));
}

#[test]
fn test_key_order_is_kept() {
    let kc = parse("a+b+ctrl+c").unwrap();
    assert!(kc.modifiers.contains(Modifier::Ctrl));
    assert_eq!(
        kc.keys,
        vec![Key::Unicode('a'), Key::Unicode('b'), Key::Unicode('c')]
    );
}

#[test]
fn test_press_sequence_order() {
    let kc = parse("ctrl+shift+a").unwrap();
    let presses = kc.press();
    assert_eq!(
        presses,
        vec![
            (Key::Control, KeyDirection::Press),
            (Key::Shift, KeyDirection::Press),
            (Key::Unicode('a'), KeyDirection::Press),
        ]
    );
}

#[test]
fn test_release_matches_press() {
    let kc = parse("cmd+alt+x").unwrap();
    let presses = kc.press();
    let releases = kc.release();
    assert_eq!(presses.len(), releases.len());
    for (p, r) in presses.iter().zip(releases.iter()) {
        assert_eq!(p.0, r.0);
        assert_eq!(p.1, KeyDirection::Press);
        assert_eq!(r.1, KeyDirection::Release);
    }
}

#[test]
fn test_perform_sequence() {
    let kc = parse("ctrl+a").unwrap();
    let strokes = kc.perform();
    assert_eq!(
        strokes,
        vec![
            (Key::Control, KeyDirection::Press),
            (Key::Unicode('a'), KeyDirection::Click),
            (Key::Control, KeyDirection::Release),
        ]
    );
}

#[test]
fn test_modifiers_empty() {
    let m = Modifiers::empty();
    assert!(!m.contains(Modifier::Ctrl));
    assert!(!m.contains(Modifier::Meta));
    assert!(!m.contains(Modifier::Shift));
    assert!(!m.contains(Modifier::Alt));
}
