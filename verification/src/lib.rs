//! Core logic of a stick-figure posing tool that turns a pose and a set of
//! attribute selections into a prompt text.

pub mod assets;
pub mod clock;
pub mod dict;
pub mod json;
pub mod library;
pub mod options;
pub mod paths;
pub mod presets;
pub mod prompt;
pub mod reading;
pub mod search;
pub mod semantics;
pub mod session;
pub mod skeleton;
pub mod state;
pub mod text;
