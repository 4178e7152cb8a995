//! Classification of a single character: the key that types it, and whether
//! Shift must be held.

use vstd::prelude::*;
use crate::key::Key;

verus! {

/// The printable characters of ASCII, the space among them.
pub open spec fn is_printable_ascii(c: char) -> bool {
    ' ' <= c <= '~'
}

/// The block of private-use code points that stand for keys without a glyph.
pub open spec fn is_reserved(c: char) -> bool {
    '\u{E000}' <= c <= '\u{E040}'
}

/// The code points of the reserved block that are deliberately given no key.
pub open spec fn is_unmapped_reserved(c: char) -> bool {
    c == '\u{E000}' || c == '\u{E001}' || c == '\u{E002}' || c == '\u{E005}' || c == '\u{E03D}'
        || c == '\u{E040}'
}

/// The key that types `c` when struck with no modifier held.
pub open spec fn plain_key(c: char) -> Option<Key> {
    match c {
        ' ' => Some(Key::Space),
        '\'' => Some(Key::Apostrophe),
        ',' => Some(Key::Comma),
        '-' => Some(Key::Minus),
        '.' => Some(Key::Period),
        '/' => Some(Key::Slash),
        '`' => Some(Key::GraveAccent),
        '0' => Some(Key::Num0),
        '1' => Some(Key::Num1),
        '2' => Some(Key::Num2),
        '3' => Some(Key::Num3),
        '4' => Some(Key::Num4),
        '5' => Some(Key::Num5),
        '6' => Some(Key::Num6),
        '7' => Some(Key::Num7),
        '8' => Some(Key::Num8),
        '9' => Some(Key::Num9),
        ';' => Some(Key::Semicolon),
        '=' => Some(Key::Equal),
        'a' => Some(Key::A),
        'b' => Some(Key::B),
        'c' => Some(Key::C),
        'd' => Some(Key::D),
        'e' => Some(Key::E),
        'f' => Some(Key::F),
        'g' => Some(Key::G),
        'h' => Some(Key::H),
        'i' => Some(Key::I),
        'j' => Some(Key::J),
        'k' => Some(Key::K),
        'l' => Some(Key::L),
        'm' => Some(Key::M),
        'n' => Some(Key::N),
        'o' => Some(Key::O),
        'p' => Some(Key::P),
        'q' => Some(Key::Q),
        'r' => Some(Key::R),
        's' => Some(Key::S),
        't' => Some(Key::T),
        'u' => Some(Key::U),
        'v' => Some(Key::V),
        'w' => Some(Key::W),
        'x' => Some(Key::X),
        'y' => Some(Key::Y),
        'z' => Some(Key::Z),
        '[' => Some(Key::LeftBracket),
        '\\' => Some(Key::Backslash),
        ']' => Some(Key::RightBracket),
        _ => None,
    }
}

/// For a character typed with Shift held, the character that the same key
/// types without it.
pub open spec fn unshifted(c: char) -> Option<char> {
    if 'A' <= c <= 'Z' {
        Some((c as u32 + 0x20) as char)
    } else {
        match c {
            '"' => Some('\''),
            '<' => Some(','),
            '_' => Some('-'),
            '>' => Some('.'),
            '?' => Some('/'),
            '~' => Some('`'),
            ')' => Some('0'),
            '!' => Some('1'),
            '@' => Some('2'),
            '#' => Some('3'),
            '$' => Some('4'),
            '%' => Some('5'),
            '^' => Some('6'),
            '&' => Some('7'),
            '*' => Some('8'),
            '(' => Some('9'),
            ':' => Some(';'),
            '+' => Some('='),
            '{' => Some('['),
            '|' => Some('\\'),
            '}' => Some(']'),
            _ => None,
        }
    }
}

/// The key that a code point of the reserved block stands for.
pub open spec fn reserved_key(c: char) -> Option<Key> {
    match c {
        '\u{E003}' => Some(Key::Backspace),
        '\u{E004}' => Some(Key::Tab),
        '\u{E006}' => Some(Key::Enter),
        '\u{E007}' => Some(Key::Enter),
        '\u{E008}' => Some(Key::LeftShift),
        '\u{E009}' => Some(Key::LeftShift),
        '\u{E00A}' => Some(Key::LeftAlt),
        '\u{E00B}' => Some(Key::Pause),
        '\u{E00C}' => Some(Key::Escape),
        '\u{E00D}' => Some(Key::Space),
        '\u{E00E}' => Some(Key::PageUp),
        '\u{E00F}' => Some(Key::PageDown),
        '\u{E010}' => Some(Key::End),
        '\u{E011}' => Some(Key::Home),
        '\u{E012}' => Some(Key::Right),
        '\u{E013}' => Some(Key::Left),
        '\u{E014}' => Some(Key::Down),
        '\u{E015}' => Some(Key::Up),
        '\u{E016}' => Some(Key::Insert),
        '\u{E017}' => Some(Key::Delete),
        '\u{E018}' => Some(Key::Semicolon),
        '\u{E019}' => Some(Key::Equal),
        '\u{E01A}' => Some(Key::Kp0),
        '\u{E01B}' => Some(Key::Kp1),
        '\u{E01C}' => Some(Key::Kp2),
        '\u{E01D}' => Some(Key::Kp3),
        '\u{E01E}' => Some(Key::Kp4),
        '\u{E01F}' => Some(Key::Kp5),
        '\u{E020}' => Some(Key::Kp6),
        '\u{E021}' => Some(Key::Kp7),
        '\u{E022}' => Some(Key::Kp8),
        '\u{E023}' => Some(Key::Kp9),
        '\u{E024}' => Some(Key::KpMultiply),
        '\u{E025}' => Some(Key::KpAdd),
        '\u{E026}' => Some(Key::KpEnter),
        '\u{E027}' => Some(Key::KpSubtract),
        '\u{E028}' => Some(Key::KpDecimal),
        '\u{E029}' => Some(Key::KpDivide),
        '\u{E031}' => Some(Key::F1),
        '\u{E032}' => Some(Key::F2),
        '\u{E033}' => Some(Key::F3),
        '\u{E034}' => Some(Key::F4),
        '\u{E035}' => Some(Key::F5),
        '\u{E036}' => Some(Key::F6),
        '\u{E037}' => Some(Key::F7),
        '\u{E038}' => Some(Key::F8),
        '\u{E039}' => Some(Key::F9),
        '\u{E03A}' => Some(Key::F10),
        '\u{E03B}' => Some(Key::F11),
        '\u{E03C}' => Some(Key::F12),
        _ => None,
    }
}

/// The key that types `c` and whether Shift must be held with it, or `None`
/// where no key types `c`.
///
/// A character typed with Shift held has the key of its unshifted
/// counterpart. A code point of the reserved block never asks for Shift, and
/// the deliberately unmapped ones have no key whatever the table says.
pub open spec fn classify(c: char) -> Option<(Key, bool)> {
    if let Some(key) = plain_key(c) {
        Some((key, false))
    } else if let Some(plain) = unshifted(c) {
        match plain_key(plain) {
            Some(key) => Some((key, true)),
            None => None,
        }
    } else if is_unmapped_reserved(c) {
        None
    } else if let Some(key) = reserved_key(c) {
        Some((key, false))
    } else {
        None
    }
}

/// Whether some key types `c`.
pub open spec fn is_supported(c: char) -> bool {
    classify(c) is Some
}

/// Looks up the key that types `key_string` and whether Shift is required.
/// Returns `None` if no key corresponds to the character.
pub fn key_from_char(key_string: &char) -> (r: Option<(Key, bool)>)
    ensures
        r == classify(*key_string),
{
    match *key_string {
        ' ' => Some((Key::Space, false)),
        '\'' => Some((Key::Apostrophe, false)),
        '"' => Some((Key::Apostrophe, true)),
        ',' => Some((Key::Comma, false)),
        '<' => Some((Key::Comma, true)),
        '-' => Some((Key::Minus, false)),
        '_' => Some((Key::Minus, true)),
        '.' => Some((Key::Period, false)),
        '>' => Some((Key::Period, true)),
        '/' => Some((Key::Slash, false)),
        '?' => Some((Key::Slash, true)),
        '`' => Some((Key::GraveAccent, false)),
        '~' => Some((Key::GraveAccent, true)),
        '0' => Some((Key::Num0, false)),
        ')' => Some((Key::Num0, true)),
        '1' => Some((Key::Num1, false)),
        '!' => Some((Key::Num1, true)),
        '2' => Some((Key::Num2, false)),
        '@' => Some((Key::Num2, true)),
        '3' => Some((Key::Num3, false)),
        '#' => Some((Key::Num3, true)),
        '4' => Some((Key::Num4, false)),
        '$' => Some((Key::Num4, true)),
        '5' => Some((Key::Num5, false)),
        '%' => Some((Key::Num5, true)),
        '6' => Some((Key::Num6, false)),
        '^' => Some((Key::Num6, true)),
        '7' => Some((Key::Num7, false)),
        '&' => Some((Key::Num7, true)),
        '8' => Some((Key::Num8, false)),
        '*' => Some((Key::Num8, true)),
        '9' => Some((Key::Num9, false)),
        '(' => Some((Key::Num9, true)),
        ';' => Some((Key::Semicolon, false)),
        ':' => Some((Key::Semicolon, true)),
        '=' => Some((Key::Equal, false)),
        '+' => Some((Key::Equal, true)),
        'a' => Some((Key::A, false)),
        'A' => Some((Key::A, true)),
        'b' => Some((Key::B, false)),
        'B' => Some((Key::B, true)),
        'c' => Some((Key::C, false)),
        'C' => Some((Key::C, true)),
        'd' => Some((Key::D, false)),
        'D' => Some((Key::D, true)),
        'e' => Some((Key::E, false)),
        'E' => Some((Key::E, true)),
        'f' => Some((Key::F, false)),
        'F' => Some((Key::F, true)),
        'g' => Some((Key::G, false)),
        'G' => Some((Key::G, true)),
        'h' => Some((Key::H, false)),
        'H' => Some((Key::H, true)),
        'i' => Some((Key::I, false)),
        'I' => Some((Key::I, true)),
        'j' => Some((Key::J, false)),
        'J' => Some((Key::J, true)),
        'k' => Some((Key::K, false)),
        'K' => Some((Key::K, true)),
        'l' => Some((Key::L, false)),
        'L' => Some((Key::L, true)),
        'm' => Some((Key::M, false)),
        'M' => Some((Key::M, true)),
        'n' => Some((Key::N, false)),
        'N' => Some((Key::N, true)),
        'o' => Some((Key::O, false)),
        'O' => Some((Key::O, true)),
        'p' => Some((Key::P, false)),
        'P' => Some((Key::P, true)),
        'q' => Some((Key::Q, false)),
        'Q' => Some((Key::Q, true)),
        'r' => Some((Key::R, false)),
        'R' => Some((Key::R, true)),
        's' => Some((Key::S, false)),
        'S' => Some((Key::S, true)),
        't' => Some((Key::T, false)),
        'T' => Some((Key::T, true)),
        'u' => Some((Key::U, false)),
        'U' => Some((Key::U, true)),
        'v' => Some((Key::V, false)),
        'V' => Some((Key::V, true)),
        'w' => Some((Key::W, false)),
        'W' => Some((Key::W, true)),
        'x' => Some((Key::X, false)),
        'X' => Some((Key::X, true)),
        'y' => Some((Key::Y, false)),
        'Y' => Some((Key::Y, true)),
        'z' => Some((Key::Z, false)),
        'Z' => Some((Key::Z, true)),
        '[' => Some((Key::LeftBracket, false)),
        '{' => Some((Key::LeftBracket, true)),
        '\\' => Some((Key::Backslash, false)),
        '|' => Some((Key::Backslash, true)),
        ']' => Some((Key::RightBracket, false)),
        '}' => Some((Key::RightBracket, true)),
        '\u{E000}' => None,
        '\u{E001}' => None,
        '\u{E002}' => None,
        '\u{E003}' => Some((Key::Backspace, false)),
        '\u{E004}' => Some((Key::Tab, false)),
        '\u{E005}' => None,
        '\u{E006}' => Some((Key::Enter, false)),
        '\u{E007}' => Some((Key::Enter, false)),
        '\u{E008}' => Some((Key::LeftShift, false)),
        '\u{E009}' => Some((Key::LeftShift, false)),
        '\u{E00A}' => Some((Key::LeftAlt, false)),
        '\u{E00B}' => Some((Key::Pause, false)),
        '\u{E00C}' => Some((Key::Escape, false)),
        '\u{E00D}' => Some((Key::Space, false)),
        '\u{E00E}' => Some((Key::PageUp, false)),
        '\u{E00F}' => Some((Key::PageDown, false)),
        '\u{E010}' => Some((Key::End, false)),
        '\u{E011}' => Some((Key::Home, false)),
        '\u{E012}' => Some((Key::Right, false)),
        '\u{E013}' => Some((Key::Left, false)),
        '\u{E014}' => Some((Key::Down, false)),
        '\u{E015}' => Some((Key::Up, false)),
        '\u{E016}' => Some((Key::Insert, false)),
        '\u{E017}' => Some((Key::Delete, false)),
        '\u{E018}' => Some((Key::Semicolon, false)),
        '\u{E019}' => Some((Key::Equal, false)),
        '\u{E01A}' => Some((Key::Kp0, false)),
        '\u{E01B}' => Some((Key::Kp1, false)),
        '\u{E01C}' => Some((Key::Kp2, false)),
        '\u{E01D}' => Some((Key::Kp3, false)),
        '\u{E01E}' => Some((Key::Kp4, false)),
        '\u{E01F}' => Some((Key::Kp5, false)),
        '\u{E020}' => Some((Key::Kp6, false)),
        '\u{E021}' => Some((Key::Kp7, false)),
        '\u{E022}' => Some((Key::Kp8, false)),
        '\u{E023}' => Some((Key::Kp9, false)),
        '\u{E024}' => Some((Key::KpMultiply, false)),
        '\u{E025}' => Some((Key::KpAdd, false)),
        '\u{E026}' => Some((Key::KpEnter, false)),
        '\u{E027}' => Some((Key::KpSubtract, false)),
        '\u{E028}' => Some((Key::KpDecimal, false)),
        '\u{E029}' => Some((Key::KpDivide, false)),
        '\u{E031}' => Some((Key::F1, false)),
        '\u{E032}' => Some((Key::F2, false)),
        '\u{E033}' => Some((Key::F3, false)),
        '\u{E034}' => Some((Key::F4, false)),
        '\u{E035}' => Some((Key::F5, false)),
        '\u{E036}' => Some((Key::F6, false)),
        '\u{E037}' => Some((Key::F7, false)),
        '\u{E038}' => Some((Key::F8, false)),
        '\u{E039}' => Some((Key::F9, false)),
        '\u{E03A}' => Some((Key::F10, false)),
        '\u{E03B}' => Some((Key::F11, false)),
        '\u{E03C}' => Some((Key::F12, false)),
        '\u{E03D}' => None,
        '\u{E040}' => None,
        _ => None,
    }
}

/// Every printable character of ASCII is typed by some key.
pub proof fn lemma_printable_ascii_supported(c: char)
    requires
        is_printable_ascii(c),
    ensures
        is_supported(c),
{
}

/// Only printable ASCII and code points of the reserved block are typed by
/// a key.
pub proof fn lemma_supported_range(c: char)
    requires
        is_supported(c),
    ensures
        is_printable_ascii(c) || is_reserved(c),
{
}

/// No two printable characters of ASCII are typed by the same key with the
/// same shift state.
pub proof fn lemma_printable_keystrokes_distinct(a: char, b: char)
    requires
        is_printable_ascii(a),
        is_printable_ascii(b),
        classify(a) == classify(b),
    ensures
        a == b,
{
}

/// The two characters that one key types, without Shift and with it, have
/// that key in common and differ in the shift flag alone.
pub proof fn lemma_shift_pair_shares_key(plain: char, shifted: char)
    requires
        unshifted(shifted) == Some(plain),
    ensures
        plain_key(plain) matches Some(key) && classify(plain) == Some((key, false)) && classify(
            shifted,
        ) == Some((key, true)),
{
}

/// Shift is asked for only with the shifted character of such a pair.
pub proof fn lemma_shift_only_in_pairs(c: char, key: Key)
    requires
        classify(c) == Some((key, true)),
    ensures
        unshifted(c) matches Some(plain) && classify(plain) == Some((key, false)),
{
}

/// A code point of the reserved block never asks for Shift.
pub proof fn lemma_reserved_without_shift(c: char, key: Key, shift: bool)
    requires
        is_reserved(c),
        classify(c) == Some((key, shift)),
    ensures
        !shift,
        reserved_key(c) == Some(key),
{
}

/// The deliberately unmapped code points lie in the reserved block and no
/// key types them.
pub proof fn lemma_unmapped_reserved_unsupported(c: char)
    requires
        is_unmapped_reserved(c),
    ensures
        is_reserved(c),
        !is_supported(c),
{
}

} // verus!
