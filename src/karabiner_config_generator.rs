use vstd::prelude::*;
use vstd::string::StrSliceExecFns;

use crate::json_structures::{
    conditions_view, events_view, input_sources_view, manipulators_view, opt_conditions_view,
    opt_string_view, opt_strings_view, simultaneous_view, ConditionVariant, ConditionView, File,
    FileView, From, FromView, InputSourceDetail, Manipulator, ManipulatorView, Modifiers,
    ModifiersView, Rule, RuleView, SimultaneousKey, ToEvent, ToEventView,
};
use crate::keycode_mapping::{
    left_shift, parse_from, parse_from_input_string, strings_view, transform,
    transform_string_for_to_event, FromEventType, ParsedFromEvent, ParsedFromView,
};
use crate::text::{
    chars_of, equals_str, has_prefix, is_ascii_lower, is_ascii_lower_char, starts_with_str,
    string_of,
};

verus! {

/// Multi-character key codes that name one physical key, and so are never
/// typed out letter by letter.
pub open spec fn known_multichar_keycodes() -> Seq<Seq<char>> {
    seq![
        "left_control"@,
        "right_control"@,
        "left_shift"@,
        "right_shift"@,
        "left_option"@,
        "right_option"@,
        "left_command"@,
        "right_command"@,
        "delete_or_backspace"@,
        "delete_forward"@,
        "escape"@,
        "return_or_enter"@,
        "spacebar"@,
        "tab"@,
        "page_up"@,
        "page_down"@,
        "home"@,
        "end"@,
        "up_arrow"@,
        "down_arrow"@,
        "left_arrow"@,
        "right_arrow"@,
        "f1"@,
        "f2"@,
        "f3"@,
        "f4"@,
        "f5"@,
        "f6"@,
        "f7"@,
        "f8"@,
        "f9"@,
        "f10"@,
        "f11"@,
        "f12"@,
        "f13"@,
        "f14"@,
        "f15"@,
        "f16"@,
        "f17"@,
        "f18"@,
        "f19"@,
        "f20"@,
        "semicolon"@,
        "hyphen"@,
        "equal_sign"@,
        "open_bracket"@,
        "close_bracket"@,
        "backslash"@,
        "quote"@,
        "comma"@,
        "period"@,
        "slash"@,
        "international1"@,
        "japanese_eisuu"@,
        "japanese_kana"@,
        "caps_lock"@,
    ]
}

fn known_multichar_keycode_table() -> (r: Vec<&'static str>)
    ensures
        r@.map_values(|n: &str| n@) == known_multichar_keycodes(),
{
    let r = vec![
        "left_control",
        "right_control",
        "left_shift",
        "right_shift",
        "left_option",
        "right_option",
        "left_command",
        "right_command",
        "delete_or_backspace",
        "delete_forward",
        "escape",
        "return_or_enter",
        "spacebar",
        "tab",
        "page_up",
        "page_down",
        "home",
        "end",
        "up_arrow",
        "down_arrow",
        "left_arrow",
        "right_arrow",
        "f1",
        "f2",
        "f3",
        "f4",
        "f5",
        "f6",
        "f7",
        "f8",
        "f9",
        "f10",
        "f11",
        "f12",
        "f13",
        "f14",
        "f15",
        "f16",
        "f17",
        "f18",
        "f19",
        "f20",
        "semicolon",
        "hyphen",
        "equal_sign",
        "open_bracket",
        "close_bracket",
        "backslash",
        "quote",
        "comma",
        "period",
        "slash",
        "international1",
        "japanese_eisuu",
        "japanese_kana",
        "caps_lock",
    ];
    assert(r@.map_values(|n: &str| n@) =~= known_multichar_keycodes());
    r
}

/// Whether a key code names one physical key though it has several characters.
pub open spec fn is_known_multichar_keycode(s: Seq<char>) -> bool {
    ||| known_multichar_keycodes().contains(s)
    ||| has_prefix(s, "keypad_"@)
    ||| has_prefix(s, "vk_"@)
}

fn is_known_single_multichar_keycode(s: &Vec<char>) -> (r: bool)
    ensures
        r == is_known_multichar_keycode(s@),
{
    let table = known_multichar_keycode_table();
    let ghost names = known_multichar_keycodes();
    let mut i: usize = 0;
    while i < table.len()
        invariant
            i <= table.len(),
            table@.map_values(|n: &str| n@) == names,
            names == known_multichar_keycodes(),
            forall|j: int| 0 <= j < i ==> names[j] != s@,
        decreases table.len() - i,
    {
        assert(names[i as int] == table@[i as int]@);
        if equals_str(s, table[i]) {
            assert(names.contains(s@));
            return true;
        }
        i = i + 1;
    }
    assert(!names.contains(s@));
    starts_with_str(s, "keypad_") || starts_with_str(s, "vk_")
}


/// A modifier list with `left_shift` added at the end, unless it is there already.
pub open spec fn with_left_shift(m: Seq<Seq<char>>) -> Seq<Seq<char>> {
    if m.contains(left_shift()) {
        m
    } else {
        m.push(left_shift())
    }
}

/// The modifiers with `left_shift` added at the end, unless they hold it already.
pub fn add_left_shift(current_modifiers: &[String]) -> (r: Vec<String>)
    ensures
        strings_view(r@) == with_left_shift(strings_view(current_modifiers@)),
{
    let shift = "left_shift".to_owned();
    let ghost mods = strings_view(current_modifiers@);
    let mut r: Vec<String> = Vec::new();
    let mut found = false;
    let mut i: usize = 0;
    while i < current_modifiers.len()
        invariant
            i <= current_modifiers.len(),
            shift@ == left_shift(),
            mods == strings_view(current_modifiers@),
            r@ == current_modifiers@.subrange(0, i as int),
            found <==> exists|j: int| 0 <= j < i && mods[j] == left_shift(),
        decreases current_modifiers.len() - i,
    {
        let m = current_modifiers[i].clone();
        if m == shift {
            assert(mods[i as int] == left_shift());
            found = true;
        }
        r.push(m);
        i = i + 1;
        assert(r@ =~= current_modifiers@.subrange(0, i as int));
    }
    assert(r@ =~= current_modifiers@);
    assert(found == mods.contains(left_shift()));
    if !found {
        let ghost before = r@;
        r.push(shift);
        assert(strings_view(r@) =~= strings_view(before).push(left_shift()));
    }
    r
}

pub open spec fn all_ascii_lower(k: Seq<char>) -> bool {
    forall|i: int| 0 <= i < k.len() ==> is_ascii_lower(#[trigger] k[i])
}

/// Whether a key code is a romaji spelling to be typed one letter at a time.
pub open spec fn is_romaji_sequence(k: Seq<char>) -> bool {
    &&& k.len() > 1
    &&& all_ascii_lower(k)
    &&& !is_known_multichar_keycode(k)
}

/// The keystrokes that type a key code: one per letter for a romaji spelling,
/// else the key code itself; each with the same modifiers.
pub open spec fn key_events(k: Seq<char>, mods: Option<Seq<Seq<char>>>) -> Seq<ToEventView> {
    if is_romaji_sequence(k) {
        Seq::new(k.len(), |i: int| ToEventView { key_code: Some(seq![k[i]]), modifiers: mods })
    } else {
        seq![ToEventView { key_code: Some(k), modifiers: mods }]
    }
}

/// The to-events of a to-token; its modifiers are left out where it needs none.
pub open spec fn to_sequence(s: Seq<char>) -> Seq<ToEventView> {
    let t = transform(s);
    key_events(
        t.key_code,
        if t.mandatory_modifiers.len() == 0 {
            None
        } else {
            Some(t.mandatory_modifiers)
        },
    )
}

/// The to-events of a to-token with the shift key held.
pub open spec fn shifted_to_sequence(s: Seq<char>) -> Seq<ToEventView> {
    let t = transform(s);
    key_events(t.key_code, Some(with_left_shift(t.mandatory_modifiers)))
}

fn is_romaji_sequence_of(k: &Vec<char>) -> (r: bool)
    ensures
        r == is_romaji_sequence(k@),
{
    if k.len() <= 1 {
        return false;
    }
    let mut i: usize = 0;
    while i < k.len()
        invariant
            i <= k.len(),
            forall|j: int| 0 <= j < i ==> is_ascii_lower(#[trigger] k@[j]),
        decreases k.len() - i,
    {
        if !is_ascii_lower_char(k[i]) {
            return false;
        }
        i = i + 1;
    }
    !is_known_single_multichar_keycode(k)
}

fn clone_strings(v: &Vec<String>) -> (r: Vec<String>)
    ensures
        r@ == v@,
{
    let mut r: Vec<String> = Vec::new();
    let mut i: usize = 0;
    while i < v.len()
        invariant
            i <= v.len(),
            r@ == v@.subrange(0, i as int),
        decreases v.len() - i,
    {
        r.push(v[i].clone());
        i = i + 1;
        assert(r@ =~= v@.subrange(0, i as int));
    }
    assert(r@ =~= v@);
    r
}

fn clone_opt_strings(o: &Option<Vec<String>>) -> (r: Option<Vec<String>>)
    ensures
        opt_strings_view(r) == opt_strings_view(*o),
{
    match o {
        Some(v) => Some(clone_strings(v)),
        None => None,
    }
}

fn key_events_of(k: &Vec<char>, mods: &Option<Vec<String>>) -> (r: Vec<ToEvent>)
    ensures
        events_view(r@) == key_events(k@, opt_strings_view(*mods)),
{
    let mut r: Vec<ToEvent> = Vec::new();
    if is_romaji_sequence_of(k) {
        let mut i: usize = 0;
        while i < k.len()
            invariant
                i <= k.len(),
                events_view(r@) == key_events(k@, opt_strings_view(*mods)).subrange(0, i as int),
                is_romaji_sequence(k@),
            decreases k.len() - i,
        {
            let key = vec![k[i]];
            assert(key@ =~= seq![k@[i as int]]);
            let e = ToEvent { key_code: Some(string_of(&key)), modifiers: clone_opt_strings(mods) };
            let ghost prev = r@;
            r.push(e);
            assert(events_view(r@) =~= events_view(prev).push(e@));
            assert(e@ == key_events(k@, opt_strings_view(*mods))[i as int]);
            i = i + 1;
            assert(events_view(r@) =~= key_events(k@, opt_strings_view(*mods)).subrange(
                0,
                i as int,
            ));
        }
        assert(events_view(r@) =~= key_events(k@, opt_strings_view(*mods)));
    } else {
        r.push(ToEvent { key_code: Some(string_of(k)), modifiers: clone_opt_strings(mods) });
        assert(events_view(r@) =~= key_events(k@, opt_strings_view(*mods)));
    }
    r
}

/// The keystrokes that a to-token stands for.
pub fn expand_to(token: &str) -> (r: Vec<ToEvent>)
    ensures
        events_view(r@) == to_sequence(token@),
{
    let t = transform_string_for_to_event(token);
    let k = chars_of(t.key_code.as_str());
    let mods = if t.mandatory_modifiers.len() == 0 {
        None
    } else {
        Some(t.mandatory_modifiers)
    };
    key_events_of(&k, &mods)
}

/// The keystrokes that a to-token stands for, with the shift key held.
pub fn expand_to_shifted(token: &str) -> (r: Vec<ToEvent>)
    ensures
        events_view(r@) == shifted_to_sequence(token@),
{
    let t = transform_string_for_to_event(token);
    let k = chars_of(t.key_code.as_str());
    let mods = Some(add_left_shift(t.mandatory_modifiers.as_slice()));
    key_events_of(&k, &mods)
}


/// The from-side of a manipulator, with `any` among its optional modifiers
/// where asked for; an empty modifier object is left out.
pub open spec fn from_side(p: ParsedFromView, any: bool) -> FromView {
    let optional: Seq<Seq<char>> = if any {
        seq!["any"@]
    } else {
        seq![]
    };
    match p {
        ParsedFromView::SingleKey { key_code, modifiers } => FromView {
            key_code: Some(key_code),
            modifiers: if modifiers.len() > 0 || any {
                Some(ModifiersView { mandatory: modifiers, optional })
            } else {
                None
            },
            simultaneous: None,
        },
        ParsedFromView::Simultaneous { keys } => FromView {
            key_code: None,
            modifiers: if any {
                Some(ModifiersView { mandatory: seq![], optional })
            } else {
                None
            },
            simultaneous: Some(keys),
        },
    }
}

/// The from-side with `left_shift` added to its mandatory modifiers.
pub open spec fn shifted_from(f: FromView) -> FromView {
    let m = match f.modifiers {
        Some(m) => m,
        None => ModifiersView { mandatory: seq![], optional: seq![] },
    };
    FromView {
        key_code: f.key_code,
        modifiers: Some(
            ModifiersView { mandatory: with_left_shift(m.mandatory), optional: m.optional },
        ),
        simultaneous: f.simultaneous,
    }
}

fn optional_modifiers(any: bool) -> (r: Vec<String>)
    ensures
        strings_view(r@) == (if any {
            seq!["any"@]
        } else {
            Seq::<Seq<char>>::empty()
        }),
{
    let mut r: Vec<String> = Vec::new();
    if any {
        r.push("any".to_owned());
    }
    assert(strings_view(r@) =~= (if any {
        seq!["any"@]
    } else {
        Seq::<Seq<char>>::empty()
    }));
    r
}

fn build_from(parsed: &ParsedFromEvent, any: bool) -> (r: From)
    requires
        parsed.wf(),
    ensures
        r@ == from_side(parsed@, any),
{
    match parsed.event_type {
        FromEventType::SingleKey => {
            let key_code = match &parsed.key_code {
                Some(k) => Some(k.clone()),
                None => None,
            };
            let mandatory = clone_strings(&parsed.modifiers);
            let modifiers = if mandatory.len() > 0 || any {
                Some(Modifiers { mandatory, optional: optional_modifiers(any) })
            } else {
                None
            };
            From { key_code, modifiers, simultaneous: None }
        },
        FromEventType::Simultaneous => {
            let mut keys: Vec<SimultaneousKey> = Vec::new();
            if let Some(v) = &parsed.simultaneous_keys {
                let mut i: usize = 0;
                while i < v.len()
                    invariant
                        i <= v.len(),
                        simultaneous_view(keys@) == strings_view(v@.subrange(0, i as int)),
                    decreases v.len() - i,
                {
                    let k = SimultaneousKey { key_code: v[i].clone() };
                    let ghost prev = keys@;
                    keys.push(k);
                    assert(simultaneous_view(keys@) =~= simultaneous_view(prev).push(k.key_code@));
                    assert(strings_view(v@.subrange(0, i + 1)) =~= strings_view(
                        v@.subrange(0, i as int),
                    ).push(v@[i as int]@));
                    i = i + 1;
                    assert(simultaneous_view(keys@) =~= strings_view(v@.subrange(0, i as int)));
                }
                assert(v@.subrange(0, v.len() as int) =~= v@);
            }
            let modifiers = if any {
                let m = Modifiers { mandatory: Vec::new(), optional: optional_modifiers(any) };
                assert(strings_view(m.mandatory@) =~= seq![]);
                Some(m)
            } else {
                None
            };
            From { key_code: None, modifiers, simultaneous: Some(keys) }
        },
    }
}

fn shift_from(f: From) -> (r: From)
    ensures
        r@ == shifted_from(f@),
{
    let From { key_code, modifiers, simultaneous } = f;
    let (mandatory, optional) = match modifiers {
        Some(m) => (m.mandatory, m.optional),
        None => {
            let (a, b) = (Vec::<String>::new(), Vec::<String>::new());
            assert(strings_view(a@) =~= seq![]);
            (a, b)
        },
    };
    From {
        key_code,
        modifiers: Some(
            Modifiers { mandatory: add_left_shift(mandatory.as_slice()), optional },
        ),
        simultaneous,
    }
}

/// Whether a pair also gets a variant with the shift key held: a chord always
/// does, a single key only where its token is one lower-case ASCII letter.
pub open spec fn shift_eligible(from_token: Seq<char>) -> bool {
    match parse_from(from_token) {
        ParsedFromView::SingleKey { .. } => from_token.len() == 1 && is_ascii_lower(
            from_token[0],
        ),
        ParsedFromView::Simultaneous { .. } => true,
    }
}

fn shift_eligible_of(from_token: &str, parsed: &ParsedFromEvent) -> (r: bool)
    requires
        parsed@ == parse_from(from_token@),
    ensures
        r == shift_eligible(from_token@),
{
    match parsed.event_type {
        FromEventType::SingleKey => from_token.unicode_len() == 1 && is_ascii_lower_char(
            from_token.get_char(0),
        ),
        FromEventType::Simultaneous => true,
    }
}

/// The manipulators of one pair: the base one, then its shifted variant
/// where the pair has one.
pub open spec fn pair_manipulators(
    from_token: Seq<char>,
    to_token: Seq<char>,
    any: bool,
    conditions: Option<Seq<ConditionView>>,
) -> Seq<ManipulatorView> {
    let f = from_side(parse_from(from_token), any);
    let base = ManipulatorView {
        from: f,
        to: to_sequence(to_token),
        manipulator_type: "basic"@,
        conditions,
    };
    if shift_eligible(from_token) {
        seq![
            base,
            ManipulatorView {
                from: shifted_from(f),
                to: shifted_to_sequence(to_token),
                manipulator_type: "basic"@,
                conditions,
            },
        ]
    } else {
        seq![base]
    }
}

/// The manipulators of all pairs, pair after pair.
pub open spec fn all_manipulators(
    pairs: Seq<(Seq<char>, Seq<char>)>,
    any: bool,
    conditions: Option<Seq<ConditionView>>,
) -> Seq<ManipulatorView>
    decreases pairs.len(),
{
    if pairs.len() == 0 {
        seq![]
    } else {
        all_manipulators(pairs.drop_last(), any, conditions) + pair_manipulators(
            pairs.last().0,
            pairs.last().1,
            any,
            conditions,
        )
    }
}

pub open spec fn pairs_view(pairs: Seq<(String, String)>) -> Seq<(Seq<char>, Seq<char>)> {
    pairs.map_values(|p: (String, String)| (p.0@, p.1@))
}

/// The document: one rule with the given description holding every manipulator.
pub open spec fn generated_file(
    description: Seq<char>,
    pairs: Seq<(Seq<char>, Seq<char>)>,
    any: bool,
    conditions: Option<Seq<ConditionView>>,
) -> FileView {
    FileView {
        rules: seq![
            RuleView { description, manipulators: all_manipulators(pairs, any, conditions) },
        ],
    }
}

fn clone_opt_string(o: &Option<String>) -> (r: Option<String>)
    ensures
        opt_string_view(r) == opt_string_view(*o),
{
    match o {
        Some(s) => Some(s.clone()),
        None => None,
    }
}

fn clone_condition(c: &ConditionVariant) -> (r: ConditionVariant)
    ensures
        r@ == c@,
{
    match c {
        ConditionVariant::InputSourceIf { input_sources } => {
            let mut r: Vec<InputSourceDetail> = Vec::new();
            let mut i: usize = 0;
            while i < input_sources.len()
                invariant
                    i <= input_sources.len(),
                    input_sources_view(r@) == input_sources_view(
                        input_sources@.subrange(0, i as int),
                    ),
                decreases input_sources.len() - i,
            {
                let d = InputSourceDetail {
                    input_source_id: clone_opt_string(&input_sources[i].input_source_id),
                };
                let ghost prev = r@;
                r.push(d);
                assert(input_sources_view(r@) =~= input_sources_view(prev).push(
                    opt_string_view(d.input_source_id),
                ));
                assert(input_sources_view(input_sources@.subrange(0, i + 1)) =~= input_sources_view(
                    input_sources@.subrange(0, i as int),
                ).push(opt_string_view(input_sources@[i as int].input_source_id)));
                i = i + 1;
                assert(input_sources_view(r@) =~= input_sources_view(
                    input_sources@.subrange(0, i as int),
                ));
            }
            assert(input_sources@.subrange(0, input_sources.len() as int) =~= input_sources@);
            ConditionVariant::InputSourceIf { input_sources: r }
        },
    }
}

fn clone_conditions(o: &Option<Vec<ConditionVariant>>) -> (r: Option<Vec<ConditionVariant>>)
    ensures
        opt_conditions_view(r) == opt_conditions_view(*o),
{
    match o {
        Some(v) => {
            let mut r: Vec<ConditionVariant> = Vec::new();
            let mut i: usize = 0;
            while i < v.len()
                invariant
                    i <= v.len(),
                    conditions_view(r@) == conditions_view(v@.subrange(0, i as int)),
                decreases v.len() - i,
            {
                let c = clone_condition(&v[i]);
                let ghost prev = r@;
                r.push(c);
                assert(conditions_view(r@) =~= conditions_view(prev).push(c@));
                assert(conditions_view(v@.subrange(0, i + 1)) =~= conditions_view(
                    v@.subrange(0, i as int),
                ).push(v@[i as int]@));
                i = i + 1;
                assert(conditions_view(r@) =~= conditions_view(v@.subrange(0, i as int)));
            }
            assert(v@.subrange(0, v.len() as int) =~= v@);
            Some(r)
        },
        None => None,
    }
}

/// Builds the rule document for the mapping pairs, in their order: for each
/// pair its base manipulator, then its shifted variant where it has one; each
/// manipulator carries the given conditions.
pub fn generate_karabiner_config(
    description: String,
    mappings_to_process: &[(String, String)],
    set_from_optional_any: bool,
    global_manipulator_conditions: Option<Vec<ConditionVariant>>,
) -> (r: File)
    ensures
        r@ == generated_file(
            description@,
            pairs_view(mappings_to_process@),
            set_from_optional_any,
            opt_conditions_view(global_manipulator_conditions),
        ),
{
    let ghost pairs = pairs_view(mappings_to_process@);
    let ghost conds = opt_conditions_view(global_manipulator_conditions);
    let any = set_from_optional_any;
    let mut manipulators: Vec<Manipulator> = Vec::new();
    let mut i: usize = 0;
    while i < mappings_to_process.len()
        invariant
            i <= mappings_to_process.len(),
            pairs == pairs_view(mappings_to_process@),
            conds == opt_conditions_view(global_manipulator_conditions),
            manipulators_view(manipulators@) == all_manipulators(
                pairs.subrange(0, i as int),
                any,
                conds,
            ),
        decreases mappings_to_process.len() - i,
    {
        let pair = &mappings_to_process[i];
        let from_token = pair.0.as_str();
        let to_token = pair.1.as_str();
        assert(pairs.subrange(0, i + 1).drop_last() =~= pairs.subrange(0, i as int));
        assert(pairs.subrange(0, i + 1).last() == (from_token@, to_token@));
        let ghost before = manipulators_view(manipulators@);
        let parsed = parse_from_input_string(from_token);
        let base = Manipulator {
            from: build_from(&parsed, any),
            to: expand_to(to_token),
            manipulator_type: "basic".to_owned(),
            conditions: clone_conditions(&global_manipulator_conditions),
        };
        manipulators.push(base);
        if shift_eligible_of(from_token, &parsed) {
            let shifted = Manipulator {
                from: shift_from(build_from(&parsed, any)),
                to: expand_to_shifted(to_token),
                manipulator_type: "basic".to_owned(),
                conditions: clone_conditions(&global_manipulator_conditions),
            };
            manipulators.push(shifted);
        }
        assert(manipulators_view(manipulators@) =~= before + pair_manipulators(
            from_token@,
            to_token@,
            any,
            conds,
        ));
        i = i + 1;
    }
    assert(pairs.subrange(0, mappings_to_process.len() as int) =~= pairs);
    let rule = Rule { description, manipulators };
    let rules = vec![rule];
    let r = File { rules };
    assert(r@.rules =~= generated_file(
        rule.description@,
        pairs,
        any,
        conds,
    ).rules);
    r
}

/// The view of the conditions that an input-source id gives.
pub open spec fn input_source_conditions_view(id: Option<Seq<char>>) -> Option<
    Seq<ConditionView>,
> {
    match id {
        Some(s) => Some(seq![ConditionView::InputSourceIf { input_sources: seq![Some(s)] }]),
        None => None,
    }
}

/// The conditions for an optional input-source id: none without one, else a
/// single `input_source_if` condition naming that id.
pub fn input_source_conditions(input_source_id: Option<String>) -> (r: Option<
    Vec<ConditionVariant>,
>)
    ensures
        opt_conditions_view(r) == input_source_conditions_view(opt_string_view(input_source_id)),
{
    match input_source_id {
        Some(id) => {
            let detail = InputSourceDetail { input_source_id: Some(id) };
            let c = ConditionVariant::InputSourceIf { input_sources: vec![detail] };
            assert(c@ == ConditionView::InputSourceIf { input_sources: seq![Some(id@)] }) by {
                if let ConditionVariant::InputSourceIf { input_sources } = c {
                    assert(input_sources_view(input_sources@) =~= seq![Some(id@)]);
                }
            }
            let r = vec![c];
            assert(conditions_view(r@) =~= seq![c@]);
            Some(r)
        },
        None => None,
    }
}

} // verus!
