//! Turns a list of "from key → to key" pairs into a rule document for a
//! keyboard remapping engine: symbols are classified into key codes, hiragana
//! becomes romaji keystrokes, chords are parsed, and each eligible rule gets a
//! shifted twin.

pub mod json_structures;
pub mod karabiner_config_generator;
pub mod keycode_mapping;
pub mod laws;
pub mod rust_mappings_parser;
pub mod tables;
pub mod text;
