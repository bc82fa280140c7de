//! Deterministic nickname resolution and the message-intent rules of a
//! chat bot that hands out nicknames.

pub mod classifier;
pub mod console;
pub mod identity;
pub mod letters;
pub mod phrase;
pub mod resolver;
pub mod table;
pub mod text;
