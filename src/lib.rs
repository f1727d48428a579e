//! A Vietnamese input method engine: it turns ASCII keystrokes typed under
//! the Telex or VNI conventions into precomposed Vietnamese text, one edit
//! instruction per keypress.
//!
//! - `charset`: the attribute and tone tables of Vietnamese letters.
//! - `buffer`: the rolling buffer that holds the current word.
//! - `engine`: the state machine, `UnikeyEngine`, and the `step` function
//!   that its `process` is proved to follow.
//! - `laws`: properties of `step` over every keypress.
//! - `config`, `input_method`: the user's settings and the engine they set up.
//! - `processors`: whole-string converters.
pub mod charset;
pub mod buffer;
pub mod engine;
pub mod laws;
pub mod config;
pub mod input_method;
pub mod processors;
