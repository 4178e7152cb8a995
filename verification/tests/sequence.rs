use key_translator::{keycodes_to_keys, Key, KeyError, KeyModifiers, KeyState, Modifier};

fn none() -> KeyModifiers {
    KeyModifiers::empty()
}

fn shift() -> KeyModifiers {
    KeyModifiers::only(Modifier::Shift)
}

#[test]
fn lowercase_a_is_pressed_and_released() {
    assert_eq!(
        keycodes_to_keys("a"),
        Ok(vec![(Key::A, none(), KeyState::Pressed), (Key::A, none(), KeyState::Released)])
    );
}

#[test]
fn uppercase_a_holds_shift() {
    assert_eq!(
        keycodes_to_keys("A"),
        Ok(vec![(Key::A, shift(), KeyState::Pressed), (Key::A, shift(), KeyState::Released)])
    );
}

#[test]
fn one_then_exclamation_mark() {
    assert_eq!(
        keycodes_to_keys("1!"),
        Ok(vec![
            (Key::Num1, none(), KeyState::Pressed),
            (Key::Num1, none(), KeyState::Released),
            (Key::Num1, shift(), KeyState::Pressed),
            (Key::Num1, shift(), KeyState::Released),
        ])
    );
}

#[test]
fn reserved_backspace() {
    assert_eq!(
        keycodes_to_keys("\u{E003}"),
        Ok(vec![
            (Key::Backspace, none(), KeyState::Pressed),
            (Key::Backspace, none(), KeyState::Released),
        ])
    );
}

#[test]
fn unmapped_reserved_code_point_fails() {
    assert_eq!(keycodes_to_keys("\u{E000}"), Err(KeyError::UnsupportedCharacter('\u{E000}')));
    assert_eq!(keycodes_to_keys("\u{E005}"), Err(KeyError::UnsupportedCharacter('\u{E005}')));
    assert_eq!(keycodes_to_keys("\u{E040}"), Err(KeyError::UnsupportedCharacter('\u{E040}')));
}

#[test]
fn empty_string_gives_no_events() {
    assert_eq!(keycodes_to_keys(""), Ok(vec![]));
}

#[test]
fn quotes_share_the_apostrophe_key() {
    assert_eq!(
        keycodes_to_keys("'\""),
        Ok(vec![
            (Key::Apostrophe, none(), KeyState::Pressed),
            (Key::Apostrophe, none(), KeyState::Released),
            (Key::Apostrophe, shift(), KeyState::Pressed),
            (Key::Apostrophe, shift(), KeyState::Released),
        ])
    );
}

#[test]
fn hello_with_exclamation_mark() {
    assert_eq!(
        keycodes_to_keys("Hi!"),
        Ok(vec![
            (Key::H, shift(), KeyState::Pressed),
            (Key::H, shift(), KeyState::Released),
            (Key::I, none(), KeyState::Pressed),
            (Key::I, none(), KeyState::Released),
            (Key::Num1, shift(), KeyState::Pressed),
            (Key::Num1, shift(), KeyState::Released),
        ])
    );
}

#[test]
fn text_then_enter() {
    assert_eq!(
        keycodes_to_keys("ok\u{E007}"),
        Ok(vec![
            (Key::O, none(), KeyState::Pressed),
            (Key::O, none(), KeyState::Released),
            (Key::K, none(), KeyState::Pressed),
            (Key::K, none(), KeyState::Released),
            (Key::Enter, none(), KeyState::Pressed),
            (Key::Enter, none(), KeyState::Released),
        ])
    );
}

#[test]
fn supported_string_gives_two_events_per_character() {
    let input = "The quick brown fox jumps over the lazy dog, 42 times? {[(<~>)]}\u{E004}\u{E031}";
    let count = input.chars().count();
    let events = keycodes_to_keys(input).unwrap();
    assert_eq!(events.len(), 2 * count);
    for (i, c) in input.chars().enumerate() {
        let (key, with_shift) = key_translator::key_from_char(&c).unwrap();
        let modifiers = if with_shift { shift() } else { none() };
        assert_eq!(events[2 * i], (key, modifiers, KeyState::Pressed));
        assert_eq!(events[2 * i + 1], (key, modifiers, KeyState::Released));
    }
}

#[test]
fn events_alternate_press_and_release() {
    let events = keycodes_to_keys("aB3$ \u{E012}").unwrap();
    assert_eq!(events.len(), 12);
    for pair in events.chunks(2) {
        assert_eq!(pair[0].2, KeyState::Pressed);
        assert_eq!(pair[1].2, KeyState::Released);
        assert_eq!(pair[0].0, pair[1].0);
        assert_eq!(pair[0].1, pair[1].1);
    }
}

#[test]
fn only_shift_is_ever_held() {
    let mut all = String::new();
    for code in 0x20u32..=0x7e {
        all.push(char::from_u32(code).unwrap());
    }
    let events = keycodes_to_keys(&all).unwrap();
    assert_eq!(events.len(), 190);
    for (_, modifiers, _) in events {
        assert!(modifiers == none() || modifiers == shift());
        assert!(!modifiers.contains(Modifier::Control));
        assert!(!modifiers.contains(Modifier::Alt));
        assert!(!modifiers.contains(Modifier::Meta));
    }
}

#[test]
fn unsupported_character_at_the_start() {
    assert_eq!(keycodes_to_keys("\u{E9}abc"), Err(KeyError::UnsupportedCharacter('\u{E9}')));
}

#[test]
fn unsupported_character_in_the_middle() {
    assert_eq!(keycodes_to_keys("ab\u{E001}cd"), Err(KeyError::UnsupportedCharacter('\u{E001}')));
}

#[test]
fn unsupported_character_at_the_end() {
    assert_eq!(keycodes_to_keys("abc\n"), Err(KeyError::UnsupportedCharacter('\n')));
}

#[test]
fn first_of_several_unsupported_characters_is_reported() {
    assert_eq!(
        keycodes_to_keys("a\u{E002}b\u{E03D}\t"),
        Err(KeyError::UnsupportedCharacter('\u{E002}'))
    );
}

#[test]
fn failure_returns_no_events() {
    let result = keycodes_to_keys("supported text, then\u{7F}");
    assert!(matches!(result, Err(KeyError::UnsupportedCharacter('\u{7F}'))));
    assert!(result.ok().is_none());
}

#[test]
fn translation_is_repeatable() {
    assert_eq!(keycodes_to_keys("Abc!"), keycodes_to_keys("Abc!"));
    assert_eq!(keycodes_to_keys("x\u{0}"), keycodes_to_keys("x\u{0}"));
}
