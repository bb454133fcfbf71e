//! Converts a clock time written in one timezone into the matching times in a
//! list of other timezones, and renders the answer as a list of display items.

mod text;
pub mod pattern;
pub mod zones;
pub mod render;
pub mod project;
pub mod reply;
