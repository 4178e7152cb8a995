//! Translation of a string into the key events that type it.

use vstd::prelude::*;
use crate::classify::{classify, is_supported, key_from_char};
use crate::key::{Key, KeyState};
use crate::modifiers::{KeyModifiers, Modifier};

verus! {

/// A key, the modifiers held with it, and which half of the keystroke it is.
pub type KeyEvent = (Key, KeyModifiers, KeyState);

/// Why a string could not be translated.
#[derive(Clone, Copy, Debug, PartialEq, Eq, Structural)]
pub enum KeyError {
    /// No key types this character.
    UnsupportedCharacter(char),
}

/// The modifiers held for a keystroke: Shift alone, or none.
pub open spec fn shift_modifiers(shift: bool) -> KeyModifiers {
    if shift {
        KeyModifiers::only(Modifier::Shift)
    } else {
        KeyModifiers::empty()
    }
}

/// One half of the keystroke that types `c`.
pub open spec fn stroke_event(c: char, state: KeyState) -> KeyEvent
    recommends
        is_supported(c),
{
    (classify(c).unwrap().0, shift_modifiers(classify(c).unwrap().1), state)
}

/// The events that type `s`: for each character in turn, the press and then
/// the release of its key, both with the same modifiers.
pub open spec fn events_of(s: Seq<char>) -> Seq<KeyEvent> {
    Seq::new(
        2 * s.len(),
        |j: int|
            stroke_event(
                s[j / 2],
                if j % 2 == 0 {
                    KeyState::Pressed
                } else {
                    KeyState::Released
                },
            ),
    )
}

/// Whether some key types each character of `s`.
pub open spec fn all_supported(s: Seq<char>) -> bool {
    forall|i: int| 0 <= i < s.len() ==> is_supported(#[trigger] s[i])
}

/// The position of the first character of `s` that no key types.
pub open spec fn first_unsupported(s: Seq<char>) -> Option<int>
    decreases s.len(),
{
    if s.len() == 0 {
        None
    } else if !is_supported(s.first()) {
        Some(0)
    } else {
        match first_unsupported(s.drop_first()) {
            Some(k) => Some(k + 1),
            None => None,
        }
    }
}

/// What translating `s` gives: all of its events, or its first unsupported
/// character and no event at all.
pub open spec fn translate(s: Seq<char>) -> Result<Seq<KeyEvent>, KeyError> {
    match first_unsupported(s) {
        Some(k) => Err(KeyError::UnsupportedCharacter(s[k])),
        None => Ok(events_of(s)),
    }
}

/// Translates a string into the key events that type it: for each character
/// in turn, the press and then the release of its key. Fails on the first
/// character that no key types, and then returns no event at all.
pub fn keycodes_to_keys(key_codes: &str) -> (r: Result<Vec<KeyEvent>, KeyError>)
    ensures
        r is Ok <==> all_supported(key_codes@),
        match r {
            Ok(events) => translate(key_codes@) == Ok::<Seq<KeyEvent>, KeyError>(events@),
            Err(e) => translate(key_codes@) == Err::<Seq<KeyEvent>, KeyError>(e),
        },
{
    let mut rv: Vec<KeyEvent> = Vec::new();
    for char_code in it: key_codes.chars()
        invariant
            it.seq() == key_codes@,
            forall|i: int| 0 <= i < it.index() ==> is_supported(#[trigger] key_codes@[i]),
            rv@ == events_of(key_codes@.take(it.index())),
    {
        match key_from_char(&char_code) {
            None => {
                proof {
                    lemma_unsupported_character_reported(key_codes@, it.index());
                }
                return Err(KeyError::UnsupportedCharacter(char_code));
            },
            Some((key, with_shift)) => {
                let modifiers = if with_shift {
                    KeyModifiers::only(Modifier::Shift)
                } else {
                    KeyModifiers::empty()
                };
                rv.push((key, modifiers, KeyState::Pressed));
                rv.push((key, modifiers, KeyState::Released));
                assert(rv@ == events_of(key_codes@.take(it.index() + 1)));
            },
        }
    }
    proof {
        lemma_supported_string_events(key_codes@);
        assert(key_codes@.take(key_codes@.len() as int) == key_codes@);
    }
    Ok(rv)
}

/// The first unsupported position is a position of an unsupported character
/// with none before it; where there is none, all of the string is supported.
pub proof fn lemma_first_unsupported(s: Seq<char>)
    ensures
        match first_unsupported(s) {
            Some(k) => {
                &&& 0 <= k < s.len()
                &&& !is_supported(s[k])
                &&& forall|i: int| 0 <= i < k ==> is_supported(#[trigger] s[i])
            },
            None => all_supported(s),
        },
    decreases s.len(),
{
    if s.len() > 0 && is_supported(s.first()) {
        let rest = s.drop_first();
        lemma_first_unsupported(rest);
        match first_unsupported(rest) {
            Some(k) => {
                assert(s[k + 1] == rest[k]);
                assert forall|i: int| 0 <= i < k + 1 implies is_supported(#[trigger] s[i]) by {
                    if i > 0 {
                        assert(s[i] == rest[i - 1]);
                    }
                }
            },
            None => {
                assert forall|i: int| 0 <= i < s.len() implies is_supported(#[trigger] s[i]) by {
                    if i > 0 {
                        assert(s[i] == rest[i - 1]);
                    }
                }
            },
        }
    }
}

/// A string of `n` supported characters translates into `2 * n` events: for
/// the character at position `i`, a press at `2 * i` and a release at
/// `2 * i + 1`, both of the key that types it and with the same modifiers.
/// For the empty string these are no events.
pub proof fn lemma_supported_string_events(s: Seq<char>)
    requires
        all_supported(s),
    ensures
        translate(s) == Ok::<Seq<KeyEvent>, KeyError>(events_of(s)),
        events_of(s).len() == 2 * s.len(),
        forall|i: int|
            0 <= i < s.len() ==> {
                let (key, shift) = classify(#[trigger] s[i]).unwrap();
                &&& events_of(s)[2 * i] == (key, shift_modifiers(shift), KeyState::Pressed)
                &&& events_of(s)[2 * i + 1] == (key, shift_modifiers(shift), KeyState::Released)
            },
{
    lemma_first_unsupported(s);
}

/// A string whose first unsupported character stands at position `k` fails
/// to translate, and the failure names that character. Whatever the
/// characters before `k` would have produced is not part of the result.
pub proof fn lemma_unsupported_character_reported(s: Seq<char>, k: int)
    requires
        0 <= k < s.len(),
        !is_supported(s[k]),
        forall|i: int| 0 <= i < k ==> is_supported(#[trigger] s[i]),
    ensures
        !all_supported(s),
        first_unsupported(s) == Some(k),
        translate(s) == Err::<Seq<KeyEvent>, KeyError>(KeyError::UnsupportedCharacter(s[k])),
{
    lemma_first_unsupported(s);
}

/// The modifiers of a keystroke hold Shift exactly when the character asks
/// for it, and never anything else.
pub proof fn lemma_shift_modifiers(shift: bool)
    ensures
        shift_modifiers(shift).wf(),
        shift_modifiers(shift)@ == if shift {
            Set::<Modifier>::empty().insert(Modifier::Shift)
        } else {
            Set::<Modifier>::empty()
        },
{
    KeyModifiers::lemma_empty();
    KeyModifiers::lemma_only(Modifier::Shift);
}

} // verus!
