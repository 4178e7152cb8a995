//! Translation of typed characters into the key press and release events
//! that reproduce them on a keyboard.

pub mod classify;
pub mod key;
pub mod modifiers;
pub mod sequence;

pub use classify::key_from_char;
pub use key::{Key, KeyState};
pub use modifiers::{KeyModifiers, Modifier};
pub use sequence::{keycodes_to_keys, KeyError, KeyEvent};
