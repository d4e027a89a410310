use karabiner_layout::json_structures::{
    ConditionVariant, File, From, InputSourceDetail, Manipulator, Modifiers, SimultaneousKey,
    ToEvent,
};
use karabiner_layout::karabiner_config_generator::{
    add_left_shift, expand_to, expand_to_shifted, generate_karabiner_config,
    input_source_conditions,
};

fn strings(v: &[&str]) -> Vec<String> {
    v.iter().map(|s| s.to_string()).collect()
}

fn event(code: &str, mods: Option<&[&str]>) -> ToEvent {
    ToEvent { key_code: Some(code.to_string()), modifiers: mods.map(strings) }
}

fn pairs(v: &[(&str, &str)]) -> Vec<(String, String)> {
    v.iter().map(|(a, b)| (a.to_string(), b.to_string())).collect()
}

fn single_from(code: &str, mandatory: &[&str], optional: &[&str]) -> From {
    let modifiers = if mandatory.is_empty() && optional.is_empty() {
        None
    } else {
        Some(Modifiers { mandatory: strings(mandatory), optional: strings(optional) })
    };
    From { key_code: Some(code.to_string()), modifiers, simultaneous: None }
}

fn manipulators(file: &File) -> &Vec<Manipulator> {
    assert_eq!(file.rules.len(), 1);
    &file.rules[0].manipulators
}

#[test]
fn romaji_spelling_expands_letter_by_letter() {
    assert_eq!(expand_to("ka"), vec![event("k", None), event("a", None)]);
    assert_eq!(expand_to("か"), vec![event("k", None), event("a", None)]);
    assert_eq!(expand_to("きゃ"), vec![event("k", None), event("y", None), event("a", None)]);
}

#[test]
fn known_key_names_stay_whole() {
    assert_eq!(expand_to("escape"), vec![event("escape", None)]);
    assert_eq!(expand_to("left_arrow"), vec![event("left_arrow", None)]);
    assert_eq!(expand_to("keypad_1"), vec![event("keypad_1", None)]);
    assert_eq!(expand_to("vk_none"), vec![event("vk_none", None)]);
    assert_eq!(expand_to("spacebar"), vec![event("spacebar", None)]);
    assert_eq!(expand_to("tab"), vec![event("tab", None)]);
}

#[test]
fn single_keys_and_mixed_names_stay_whole() {
    assert_eq!(expand_to("b"), vec![event("b", None)]);
    assert_eq!(expand_to("f21"), vec![event("f21", None)]);
    assert_eq!(expand_to("ー"), vec![event("hyphen", None)]);
    assert_eq!(expand_to("="), vec![event("hyphen", Some(&["left_shift"]))]);
}

#[test]
fn shifted_expansion_adds_left_shift_to_each_event() {
    let shift: &[&str] = &["left_shift"];
    assert_eq!(expand_to_shifted("ka"), vec![event("k", Some(shift)), event("a", Some(shift))]);
    assert_eq!(expand_to_shifted("="), vec![event("hyphen", Some(shift))]);
    assert_eq!(expand_to_shifted("b"), vec![event("b", Some(shift))]);
}

#[test]
fn left_shift_is_added_once() {
    assert_eq!(add_left_shift(&[]), strings(&["left_shift"]));
    assert_eq!(add_left_shift(&strings(&["left_shift"])), strings(&["left_shift"]));
    assert_eq!(
        add_left_shift(&strings(&["left_command"])),
        strings(&["left_command", "left_shift"])
    );
    assert_eq!(
        add_left_shift(&strings(&["left_shift", "left_option"])),
        strings(&["left_shift", "left_option"])
    );
}

#[test]
fn end_to_end_single_letter() {
    let file = generate_karabiner_config("test".to_string(), &pairs(&[("a", "b")]), false, None);
    assert_eq!(file.rules[0].description, "test");
    let ms = manipulators(&file);
    assert_eq!(ms.len(), 2);
    assert_eq!(ms[0].from, single_from("a", &[], &[]));
    assert_eq!(ms[0].to, vec![event("b", None)]);
    assert_eq!(ms[0].manipulator_type, "basic");
    assert_eq!(ms[0].conditions, None);
    assert_eq!(ms[1].from, single_from("a", &["left_shift"], &[]));
    assert_eq!(ms[1].to, vec![event("b", Some(&["left_shift"]))]);
    assert_eq!(ms[1].manipulator_type, "basic");
    assert_eq!(ms[1].conditions, None);
}

#[test]
fn long_from_token_gets_no_shifted_variant() {
    let file = generate_karabiner_config("d".to_string(), &pairs(&[("ab", "c")]), false, None);
    let ms = manipulators(&file);
    assert_eq!(ms.len(), 1);
    assert_eq!(ms[0].from, single_from("ab", &[], &[]));
}

#[test]
fn upper_case_and_symbol_from_tokens_get_no_shifted_variant() {
    let file = generate_karabiner_config(
        "d".to_string(),
        &pairs(&[("A", "c"), ("-", "c"), ("=", "c")]),
        false,
        None,
    );
    let ms = manipulators(&file);
    assert_eq!(ms.len(), 3);
    assert_eq!(ms[0].from, single_from("a", &[], &[]));
    assert_eq!(ms[1].from, single_from("hyphen", &[], &[]));
    assert_eq!(ms[2].from, single_from("hyphen", &["left_shift"], &[]));
}

#[test]
fn chord_always_gets_shifted_variant() {
    let file = generate_karabiner_config("d".to_string(), &pairs(&[("simul(j,k)", "か")]), false, None);
    let ms = manipulators(&file);
    assert_eq!(ms.len(), 2);
    let keys = vec![
        SimultaneousKey { key_code: "j".to_string() },
        SimultaneousKey { key_code: "k".to_string() },
    ];
    assert_eq!(ms[0].from, From { key_code: None, modifiers: None, simultaneous: Some(keys) });
    assert_eq!(ms[0].to, vec![event("k", None), event("a", None)]);
    let shifted_keys = vec![
        SimultaneousKey { key_code: "j".to_string() },
        SimultaneousKey { key_code: "k".to_string() },
    ];
    assert_eq!(
        ms[1].from,
        From {
            key_code: None,
            modifiers: Some(Modifiers { mandatory: strings(&["left_shift"]), optional: vec![] }),
            simultaneous: Some(shifted_keys),
        }
    );
    let shift: &[&str] = &["left_shift"];
    assert_eq!(ms[1].to, vec![event("k", Some(shift)), event("a", Some(shift))]);
}

#[test]
fn optional_any_widens_the_from_side() {
    let file = generate_karabiner_config("d".to_string(), &pairs(&[("a", "b"), ("ab", "c")]), true, None);
    let ms = manipulators(&file);
    assert_eq!(ms.len(), 3);
    assert_eq!(ms[0].from, single_from("a", &[], &["any"]));
    assert_eq!(ms[1].from, single_from("a", &["left_shift"], &["any"]));
    assert_eq!(ms[2].from, single_from("ab", &[], &["any"]));
}

#[test]
fn shifted_from_side_keeps_a_required_shift_once() {
    let file = generate_karabiner_config("d".to_string(), &pairs(&[("simul(a,b)", "=")]), false, None);
    let ms = manipulators(&file);
    assert_eq!(ms[0].to, vec![event("hyphen", Some(&["left_shift"]))]);
    assert_eq!(ms[1].to, vec![event("hyphen", Some(&["left_shift"]))]);
}

#[test]
fn shifted_variant_is_independent_of_the_base() {
    let file = generate_karabiner_config("d".to_string(), &pairs(&[("a", "b")]), false, None);
    let mut ms = file.rules.into_iter().next().unwrap().manipulators;
    let mut shifted = ms.pop().unwrap();
    if let Some(m) = shifted.from.modifiers.as_mut() {
        m.mandatory.push("left_command".to_string());
    }
    shifted.to.clear();
    assert_eq!(ms[0].from, single_from("a", &[], &[]));
    assert_eq!(ms[0].to, vec![event("b", None)]);
}

#[test]
fn generation_is_deterministic() {
    let input = pairs(&[("a", "か"), ("simul(s,d)", "escape"), ("=", "'"), ("ab", "ka")]);
    let first = generate_karabiner_config("x".to_string(), &input, true, input_source_conditions(Some("id".to_string())));
    let second = generate_karabiner_config("x".to_string(), &input, true, input_source_conditions(Some("id".to_string())));
    assert_eq!(first, second);
    assert_eq!(format!("{:?}", first), format!("{:?}", second));
}

#[test]
fn input_source_condition_on_every_manipulator() {
    let conditions = input_source_conditions(Some("com.apple.foo".to_string()));
    let expected = vec![ConditionVariant::InputSourceIf {
        input_sources: vec![InputSourceDetail { input_source_id: Some("com.apple.foo".to_string()) }],
    }];
    assert_eq!(conditions, Some(expected));
    let file = generate_karabiner_config("d".to_string(), &pairs(&[("a", "b"), ("ab", "c")]), false, conditions);
    let ms = manipulators(&file);
    assert_eq!(ms.len(), 3);
    for m in ms {
        let expected = vec![ConditionVariant::InputSourceIf {
            input_sources: vec![InputSourceDetail { input_source_id: Some("com.apple.foo".to_string()) }],
        }];
        assert_eq!(m.conditions, Some(expected));
    }
}

#[test]
fn no_input_source_means_no_conditions() {
    assert_eq!(input_source_conditions(None), None);
    let file = generate_karabiner_config("d".to_string(), &pairs(&[("a", "b")]), false, input_source_conditions(None));
    for m in manipulators(&file) {
        assert_eq!(m.conditions, None);
    }
}

#[test]
fn empty_mapping_list_gives_one_empty_rule() {
    let file = generate_karabiner_config("empty".to_string(), &[], false, None);
    assert_eq!(file.rules.len(), 1);
    assert_eq!(file.rules[0].description, "empty");
    assert!(file.rules[0].manipulators.is_empty());
}
