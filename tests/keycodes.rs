use karabiner_layout::keycode_mapping::{
    convert_jis_symbol_to_keycode_str, parse_from_input_string, transform_string_for_to_event,
    FromEventType, ParsedFromEvent, TransformedToKey,
};

fn key(code: &str, mods: &[&str]) -> TransformedToKey {
    TransformedToKey {
        key_code: code.to_string(),
        mandatory_modifiers: mods.iter().map(|m| m.to_string()).collect(),
    }
}

#[test]
fn jis_table_entries_transform_to_their_key_codes() {
    let table = [
        ("-", "hyphen"),
        (",", "comma"),
        (".", "period"),
        ("/", "slash"),
        ("@", "open_bracket"),
        ("[", "close_bracket"),
        ("]", "backslash"),
        (";", "semicolon"),
        (":", "quote"),
        ("_", "international1"),
    ];
    for (symbol, code) in table {
        assert_eq!(convert_jis_symbol_to_keycode_str(symbol), Some(code));
        assert_eq!(transform_string_for_to_event(symbol), key(code, &[]));
    }
    assert_eq!(convert_jis_symbol_to_keycode_str("="), Some("equal_sign"));
}

#[test]
fn jis_lookup_misses_other_symbols() {
    assert_eq!(convert_jis_symbol_to_keycode_str("a"), None);
    assert_eq!(convert_jis_symbol_to_keycode_str("7"), None);
    assert_eq!(convert_jis_symbol_to_keycode_str("--"), None);
    assert_eq!(convert_jis_symbol_to_keycode_str(""), None);
}

#[test]
fn equal_sign_is_shifted_hyphen() {
    assert_eq!(transform_string_for_to_event("="), key("hyphen", &["left_shift"]));
}

#[test]
fn apostrophe_is_shifted_seven() {
    assert_eq!(transform_string_for_to_event("'"), key("7", &["left_shift"]));
}

#[test]
fn single_letters_become_lower_case() {
    assert_eq!(transform_string_for_to_event("a"), key("a", &[]));
    assert_eq!(transform_string_for_to_event("A"), key("a", &[]));
    assert_eq!(transform_string_for_to_event("Z"), key("z", &[]));
    assert_eq!(transform_string_for_to_event("q"), key("q", &[]));
}

#[test]
fn single_non_ascii_letters_become_lower_case() {
    assert_eq!(transform_string_for_to_event("É"), key("é", &[]));
    assert_eq!(transform_string_for_to_event("Σ"), key("σ", &[]));
    assert_eq!(transform_string_for_to_event("Ж"), key("ж", &[]));
}

#[test]
fn single_non_alphabetic_characters_pass_unchanged() {
    assert_eq!(transform_string_for_to_event("→"), key("→", &[]));
    assert_eq!(transform_string_for_to_event("「"), key("「", &[]));
    assert_eq!(transform_string_for_to_event("」"), key("」", &[]));
    assert_eq!(transform_string_for_to_event("1"), key("1", &[]));
}

#[test]
fn chord_parts_lower_case_non_ascii_letters() {
    assert_eq!(parse_from_input_string("simul(É,Σ)"), chord(&["é", "σ"]));
}

#[test]
fn hiragana_becomes_romaji() {
    assert_eq!(transform_string_for_to_event("か"), key("ka", &[]));
    assert_eq!(transform_string_for_to_event("し"), key("shi", &[]));
    assert_eq!(transform_string_for_to_event("きゃ"), key("kya", &[]));
    assert_eq!(transform_string_for_to_event("う゛"), key("vu", &[]));
    assert_eq!(transform_string_for_to_event("っ"), key("xtsu", &[]));
    assert_eq!(transform_string_for_to_event("あ"), key("a", &[]));
}

#[test]
fn romaji_punctuation_goes_through_the_jis_table() {
    assert_eq!(transform_string_for_to_event("ー"), key("hyphen", &[]));
    assert_eq!(transform_string_for_to_event("、"), key("comma", &[]));
    assert_eq!(transform_string_for_to_event("。"), key("period", &[]));
}

#[test]
fn other_symbols_pass_unchanged() {
    assert_eq!(transform_string_for_to_event("escape"), key("escape", &[]));
    assert_eq!(transform_string_for_to_event("f1"), key("f1", &[]));
    assert_eq!(transform_string_for_to_event("7"), key("7", &[]));
    assert_eq!(transform_string_for_to_event(""), key("", &[]));
    assert_eq!(transform_string_for_to_event("AB"), key("AB", &[]));
    assert_eq!(transform_string_for_to_event("é"), key("é", &[]));
}

fn single(code: &str, mods: &[&str]) -> ParsedFromEvent {
    ParsedFromEvent {
        event_type: FromEventType::SingleKey,
        key_code: Some(code.to_string()),
        modifiers: mods.iter().map(|m| m.to_string()).collect(),
        simultaneous_keys: None,
    }
}

fn chord(keys: &[&str]) -> ParsedFromEvent {
    ParsedFromEvent {
        event_type: FromEventType::Simultaneous,
        key_code: None,
        modifiers: Vec::new(),
        simultaneous_keys: Some(keys.iter().map(|k| k.to_string()).collect()),
    }
}

#[test]
fn chord_of_two_keys() {
    assert_eq!(parse_from_input_string("simul(a,b)"), chord(&["a", "b"]));
}

#[test]
fn empty_chord_falls_back_to_single_key() {
    assert_eq!(parse_from_input_string("simul()"), single("simul()", &[]));
    assert_eq!(parse_from_input_string("simul( , ,)"), single("simul( , ,)", &[]));
}

#[test]
fn plain_token_is_single_key() {
    assert_eq!(parse_from_input_string("a"), single("a", &[]));
    assert_eq!(parse_from_input_string("="), single("hyphen", &["left_shift"]));
    assert_eq!(parse_from_input_string("simul(a,b"), single("simul(a,b", &[]));
}

#[test]
fn chord_parts_are_trimmed_and_converted() {
    assert_eq!(parse_from_input_string("simul( A , , ; ,escape)"), chord(&["a", "semicolon", "escape"]));
    assert_eq!(parse_from_input_string("simul(\u{3000}j\t,k )"), chord(&["j", "k"]));
}

#[test]
fn chord_parts_skip_the_shifted_punctuation_rules() {
    assert_eq!(parse_from_input_string("simul(=,')"), chord(&["equal_sign", "'"]));
}
