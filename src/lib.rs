//! Engine of a word-recall typing game: a dictionary of words, prompts that
//! enough words contain, the round clock, lives, and the screens and menus
//! that route each key press.
use vstd::prelude::*;

pub mod text;
pub mod dictionary;
pub mod prompt;
pub mod menu;
pub mod app;
pub mod laws;
