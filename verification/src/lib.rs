//! Compiles a compact plaintext description of a keyboard layout into
//! source configuration for one of two firmware backends.
//!
//! The pipeline: a position-significant layout DSL is parsed into an
//! immutable [`keymap::KeyMap`], layer-name references are cross-checked
//! by a validator, and the model is rendered deterministically by one of
//! two code emitters.

pub mod errors;
pub mod keys;
pub mod text;
pub mod vocab;
pub mod modexpr;
pub mod config;
pub mod keymap;
pub mod parse;
pub mod format;
pub mod qmk;
pub mod zmk;
pub mod laws;
