//! Synthetic keyboard input: a catalog of the platform's virtual keys, and the
//! translation of key presses, releases and literal characters into the
//! fixed-layout record that the platform's input-injection call consumes.

pub mod keyboard;
pub mod virtual_key;

pub use keyboard::{get_keyboard_input, Input, KeyboardEvent, KeyboardInput};
pub use virtual_key::VirtualKey;
