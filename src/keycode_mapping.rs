use vstd::prelude::*;

use crate::tables::{jis_keycode, jis_keycode_lookup, romaji_lookup, romaji_of};
use crate::text::{
    ascii_lower, char_seqs, chars_of, copy_range, is_alphabetic_char, is_ascii_alpha,
    is_ascii_alpha_char, split_commas, split_on_commas, string_of, to_ascii_lower,
    to_lowercase_str, trim, trimmed, unicode_alphabetic, unicode_lower,
};

verus! {

/// The views of a sequence of strings.
pub open spec fn strings_view(v: Seq<String>) -> Seq<Seq<char>> {
    v.map_values(|s: String| s@)
}

/// The modifier that the shifted punctuation keys and the shifted variants hold down.
pub open spec fn left_shift() -> Seq<char> {
    "left_shift"@
}

/// A key code with the modifiers that typing it requires.
#[derive(Debug, PartialEq, Eq)]
pub struct TransformedToKey {
    pub key_code: String,
    pub mandatory_modifiers: Vec<String>,
}

pub struct TransformedKeyView {
    pub key_code: Seq<char>,
    pub mandatory_modifiers: Seq<Seq<char>>,
}

impl View for TransformedToKey {
    type V = TransformedKeyView;

    open spec fn view(&self) -> TransformedKeyView {
        TransformedKeyView {
            key_code: self.key_code@,
            mandatory_modifiers: strings_view(self.mandatory_modifiers@),
        }
    }
}

/// A symbol with its romaji spelling put in, where it is a hiragana syllable.
pub open spec fn romaji_replaced(s: Seq<char>) -> Seq<char> {
    match romaji_of(s) {
        Some(r) => r,
        None => s,
    }
}

/// The key code of a symbol taken as it stands: its JIS table entry, else the
/// lower-case form of a single alphabetic character, else the symbol itself.
/// An ASCII letter is lower-cased by its code; another alphabetic character by
/// Unicode's lower-case mapping.
pub open spec fn plain_keycode(t: Seq<char>) -> Seq<char> {
    match jis_keycode(t) {
        Some(k) => k,
        None => if t.len() == 1 && is_ascii_alpha(t[0]) {
            seq![ascii_lower(t[0])]
        } else if t.len() == 1 && t[0] as u32 >= 128 && unicode_alphabetic(t[0]) {
            unicode_lower(t)
        } else {
            t
        },
    }
}

/// The key code and modifiers that a symbol stands for.
pub open spec fn transform(s: Seq<char>) -> TransformedKeyView {
    let t = romaji_replaced(s);
    if t == seq!['='] {
        TransformedKeyView {
            key_code: plain_keycode(seq!['-']),
            mandatory_modifiers: seq![left_shift()],
        }
    } else if t == seq!['\''] {
        TransformedKeyView {
            key_code: plain_keycode(seq!['7']),
            mandatory_modifiers: seq![left_shift()],
        }
    } else {
        TransformedKeyView { key_code: plain_keycode(t), mandatory_modifiers: seq![] }
    }
}

/// Looks a punctuation symbol up in the JIS symbol table.
pub fn convert_jis_symbol_to_keycode_str(jis_symbol: &str) -> (r: Option<&'static str>)
    ensures
        match r {
            Some(v) => jis_keycode(jis_symbol@) == Some(v@),
            None => jis_keycode(jis_symbol@) is None,
        },
{
    jis_keycode_lookup(&chars_of(jis_symbol))
}

fn plain_keycode_of(t: Vec<char>) -> (r: Vec<char>)
    ensures
        r@ == plain_keycode(t@),
{
    match jis_keycode_lookup(&t) {
        Some(k) => chars_of(k),
        None => {
            if t.len() == 1 && is_ascii_alpha_char(t[0]) {
                let lower = to_ascii_lower(t[0]);
                let r = vec![lower];
                assert(r@ =~= seq![ascii_lower(t@[0])]);
                r
            } else if t.len() == 1 && t[0] as u32 >= 128 && is_alphabetic_char(t[0]) {
                let lower = to_lowercase_str(string_of(&t).as_str());
                chars_of(lower.as_str())
            } else {
                t
            }
        },
    }
}

fn left_shift_only() -> (r: Vec<String>)
    ensures
        strings_view(r@) == seq![left_shift()],
{
    let r = vec!["left_shift".to_owned()];
    assert(strings_view(r@) =~= seq![left_shift()]);
    r
}

/// The key code and modifiers that a symbol stands for, on either side of a rule.
pub fn transform_string_for_to_event(symbol_str: &str) -> (r: TransformedToKey)
    ensures
        r@ == transform(symbol_str@),
{
    let s = chars_of(symbol_str);
    let t = match romaji_lookup(&s) {
        Some(romaji) => chars_of(romaji),
        None => s,
    };
    if t.len() == 1 && t[0] == '=' {
        assert(t@ =~= seq!['=']);
        let dash = vec!['-'];
        assert(dash@ =~= seq!['-']);
        let k = plain_keycode_of(dash);
        TransformedToKey { key_code: string_of(&k), mandatory_modifiers: left_shift_only() }
    } else if t.len() == 1 && t[0] == '\'' {
        assert(t@ =~= seq!['\'']);
        let seven = vec!['7'];
        assert(seven@ =~= seq!['7']);
        let k = plain_keycode_of(seven);
        TransformedToKey { key_code: string_of(&k), mandatory_modifiers: left_shift_only() }
    } else {
        assert(t@ != seq!['='] && t@ != seq!['\'']) by {
            if t@.len() == 1 {
                assert(seq!['='][0] == '=');
                assert(seq!['\''][0] == '\'');
            }
        }
        let k = plain_keycode_of(t);
        let r = TransformedToKey { key_code: string_of(&k), mandatory_modifiers: Vec::new() };
        assert(strings_view(r.mandatory_modifiers@) =~= seq![]);
        r
    }
}


/// The two shapes that the from-side of a rule can take.
#[derive(Debug, Clone, Copy, PartialEq, Eq)]
pub enum FromEventType {
    SingleKey,
    Simultaneous,
}

/// The from-side of a rule as parsed from its token.
#[derive(Debug, PartialEq, Eq)]
pub struct ParsedFromEvent {
    pub event_type: FromEventType,
    pub key_code: Option<String>,
    pub modifiers: Vec<String>,
    pub simultaneous_keys: Option<Vec<String>>,
}

pub enum ParsedFromView {
    SingleKey { key_code: Seq<char>, modifiers: Seq<Seq<char>> },
    Simultaneous { keys: Seq<Seq<char>> },
}

impl View for ParsedFromEvent {
    type V = ParsedFromView;

    open spec fn view(&self) -> ParsedFromView {
        match self.event_type {
            FromEventType::SingleKey => ParsedFromView::SingleKey {
                key_code: match self.key_code {
                    Some(k) => k@,
                    None => seq![],
                },
                modifiers: strings_view(self.modifiers@),
            },
            FromEventType::Simultaneous => ParsedFromView::Simultaneous {
                keys: match self.simultaneous_keys {
                    Some(v) => strings_view(v@),
                    None => seq![],
                },
            },
        }
    }
}

impl ParsedFromEvent {
    /// The fields agree with the event type: a single key has a key code and
    /// no chord keys; a chord has at least one key, and no key code or modifiers.
    pub open spec fn wf(&self) -> bool {
        match self.event_type {
            FromEventType::SingleKey => self.key_code is Some && self.simultaneous_keys is None,
            FromEventType::Simultaneous => {
                &&& self.key_code is None
                &&& self.modifiers@.len() == 0
                &&& self.simultaneous_keys matches Some(v) && v@.len() > 0
            },
        }
    }
}

pub open spec fn chord_prefix() -> Seq<char> {
    seq!['s', 'i', 'm', 'u', 'l', '(']
}

/// The text between `simul(` and the closing `)`, where the token has that form.
pub open spec fn chord_body(s: Seq<char>) -> Option<Seq<char>> {
    if s.len() >= 7 && s.subrange(0, 6) == chord_prefix() && s.last() == ')' {
        Some(s.subrange(6, s.len() - 1))
    } else {
        None
    }
}

/// The key codes of the comma-separated parts of a chord, trimmed, with the
/// empty ones left out.
pub open spec fn chord_keys(parts: Seq<Seq<char>>) -> Seq<Seq<char>>
    decreases parts.len(),
{
    if parts.len() == 0 {
        seq![]
    } else {
        let rest = chord_keys(parts.drop_last());
        let t = trim(parts.last());
        if t.len() == 0 {
            rest
        } else {
            rest.push(plain_keycode(t))
        }
    }
}

/// How a from-token is read: a chord where it is `simul(...)` with at least one
/// key in it, else a single key with the modifiers that the key requires.
pub open spec fn parse_from(s: Seq<char>) -> ParsedFromView {
    let single = ParsedFromView::SingleKey {
        key_code: transform(s).key_code,
        modifiers: transform(s).mandatory_modifiers,
    };
    match chord_body(s) {
        Some(body) => {
            let keys = chord_keys(split_commas(body));
            if keys.len() > 0 {
                ParsedFromView::Simultaneous { keys }
            } else {
                single
            }
        },
        None => single,
    }
}

fn chord_body_of(s: &Vec<char>) -> (r: Option<Vec<char>>)
    ensures
        match r {
            Some(b) => chord_body(s@) == Some(b@),
            None => chord_body(s@) is None,
        },
{
    let n = s.len();
    if n >= 7 && s[0] == 's' && s[1] == 'i' && s[2] == 'm' && s[3] == 'u' && s[4] == 'l' && s[5]
        == '(' && s[n - 1] == ')' {
        assert(s@.subrange(0, 6) =~= chord_prefix());
        Some(copy_range(s, 6, n - 1))
    } else {
        assert(n >= 7 && s@.subrange(0, 6) == chord_prefix() ==> s[0] == 's' && s[1] == 'i'
            && s[2] == 'm' && s[3] == 'u' && s[4] == 'l' && s[5] == '(') by {
            if n >= 7 && s@.subrange(0, 6) == chord_prefix() {
                assert(s@.subrange(0, 6)[0] == 's');
                assert(s@.subrange(0, 6)[1] == 'i');
                assert(s@.subrange(0, 6)[2] == 'm');
                assert(s@.subrange(0, 6)[3] == 'u');
                assert(s@.subrange(0, 6)[4] == 'l');
                assert(s@.subrange(0, 6)[5] == '(');
            }
        }
        None
    }
}

fn chord_keys_of(parts: &Vec<Vec<char>>) -> (r: Vec<String>)
    ensures
        strings_view(r@) == chord_keys(char_seqs(parts@)),
{
    let mut keys: Vec<String> = Vec::new();
    let mut i: usize = 0;
    while i < parts.len()
        invariant
            i <= parts.len(),
            strings_view(keys@) == chord_keys(char_seqs(parts@.subrange(0, i as int))),
        decreases parts.len() - i,
    {
        let ghost before = keys@;
        assert(char_seqs(parts@.subrange(0, i + 1)).drop_last() =~= char_seqs(
            parts@.subrange(0, i as int),
        ));
        let t = trimmed(&parts[i]);
        if t.len() > 0 {
            let k = plain_keycode_of(t);
            keys.push(string_of(&k));
            assert(strings_view(keys@) =~= strings_view(before).push(k@));
        }
        i = i + 1;
    }
    assert(parts@.subrange(0, parts.len() as int) =~= parts@);
    keys
}

/// Reads a from-token: a chord written `simul(a,b,...)`, or a single key.
pub fn parse_from_input_string(input_str: &str) -> (r: ParsedFromEvent)
    ensures
        r.wf(),
        r@ == parse_from(input_str@),
{
    let s = chars_of(input_str);
    if let Some(body) = chord_body_of(&s) {
        let keys = chord_keys_of(&split_on_commas(&body));
        if keys.len() > 0 {
            return ParsedFromEvent {
                event_type: FromEventType::Simultaneous,
                key_code: None,
                modifiers: Vec::new(),
                simultaneous_keys: Some(keys),
            };
        }
    }
    let single = transform_string_for_to_event(input_str);
    ParsedFromEvent {
        event_type: FromEventType::SingleKey,
        key_code: Some(single.key_code),
        modifiers: single.mandatory_modifiers,
        simultaneous_keys: None,
    }
}

} // verus!
