use vstd::prelude::*;

use crate::json_structures::{ConditionView, File};
use crate::karabiner_config_generator::{
    all_manipulators, from_side, generated_file, input_source_conditions_view, pair_manipulators,
    shift_eligible, shifted_to_sequence, to_sequence, with_left_shift,
};
use crate::keycode_mapping::{left_shift, parse_from, transform, TransformedKeyView};
use crate::tables::jis_keycode;
use crate::text::{ascii_lower, is_ascii_alpha, is_ascii_lower};

verus! {

/// Building a document is deterministic: two documents built from equal
/// inputs are equal in every field.
pub proof fn lemma_generate_deterministic(
    description: Seq<char>,
    pairs: Seq<(Seq<char>, Seq<char>)>,
    any: bool,
    conditions: Option<Seq<ConditionView>>,
    a: File,
    b: File,
)
    requires
        a@ == generated_file(description, pairs, any, conditions),
        b@ == generated_file(description, pairs, any, conditions),
    ensures
        a@ == b@,
{
}

/// Every JIS symbol table entry but `=` transforms to its table key code, with
/// no modifiers (`=` is typed as a shifted `-`).
pub proof fn lemma_jis_table_round_trip(k: Seq<char>)
    requires
        jis_keycode(k) is Some,
        k != seq!['='],
    ensures
        transform(k) == (TransformedKeyView {
            key_code: jis_keycode(k)->0,
            mandatory_modifiers: seq![],
        }),
{
    if k == seq!['\''] {
        assert(k[0] == '\'');
    }
}

/// A single ASCII letter, of either case, transforms to its lower-case form,
/// with no modifiers.
pub proof fn lemma_single_letter(c: char)
    requires
        is_ascii_alpha(c),
    ensures
        transform(seq![c]) == (TransformedKeyView {
            key_code: seq![ascii_lower(c)],
            mandatory_modifiers: seq![],
        }),
        is_ascii_lower(ascii_lower(c)),
{
    let s = seq![c];
    assert(s.len() == 1 && s[0] == c);
    if s == seq!['='] {
        assert(seq!['='][0] == '=');
    }
    if s == seq!['\''] {
        assert(seq!['\''][0] == '\'');
    }
}

/// Adding `left_shift` gives exactly the modifiers that were there plus
/// `left_shift`: it keeps their order, brings no duplicate in, and adding it a
/// second time changes nothing.
pub proof fn lemma_with_left_shift(m: Seq<Seq<char>>)
    ensures
        with_left_shift(m).to_set() == m.to_set().insert(left_shift()),
        with_left_shift(m).subrange(0, m.len() as int) == m,
        m.no_duplicates() ==> with_left_shift(m).no_duplicates(),
        with_left_shift(with_left_shift(m)) == with_left_shift(m),
{
    let r = with_left_shift(m);
    if m.contains(left_shift()) {
        assert(r.to_set() =~= m.to_set().insert(left_shift()));
        assert(r.subrange(0, m.len() as int) =~= m);
    } else {
        assert(r.to_set() =~= m.to_set().insert(left_shift())) by {
            assert forall|x: Seq<char>| r.to_set().contains(x) <==> m.to_set().insert(
                left_shift(),
            ).contains(x) by {
                if r.contains(x) {
                    let i = choose|i: int| 0 <= i < r.len() && r[i] == x;
                    if i < m.len() {
                        assert(m.contains(x));
                    }
                }
                if m.contains(x) {
                    let i = choose|i: int| 0 <= i < m.len() && m[i] == x;
                    assert(r[i] == x);
                }
                if x == left_shift() {
                    assert(r[m.len() as int] == x);
                }
            }
        }
        assert(r.subrange(0, m.len() as int) =~= m);
        assert(r.contains(left_shift())) by {
            assert(r[m.len() as int] == left_shift());
        }
    }
}

/// The shifted variant of an eligible pair holds `left_shift` among its
/// from-side's mandatory modifiers, beside those of the base manipulator and in
/// their order, and on every to-event; everything else is the base's.
pub proof fn lemma_shift_variant(
    from_token: Seq<char>,
    to_token: Seq<char>,
    any: bool,
    conditions: Option<Seq<ConditionView>>,
)
    requires
        shift_eligible(from_token),
    ensures
        ({
            let ms = pair_manipulators(from_token, to_token, any, conditions);
            let base = ms[0];
            let shifted = ms[1];
            let mandatory = match base.from.modifiers {
                Some(m) => m.mandatory,
                None => seq![],
            };
            &&& ms.len() == 2
            &&& base.from == from_side(parse_from(from_token), any)
            &&& base.to == to_sequence(to_token)
            &&& shifted.from.key_code == base.from.key_code
            &&& shifted.from.simultaneous == base.from.simultaneous
            &&& shifted.from.modifiers matches Some(sm) && sm.mandatory == with_left_shift(
                mandatory,
            ) && sm.mandatory.to_set() == mandatory.to_set().insert(left_shift()) && (
            mandatory.no_duplicates() ==> sm.mandatory.no_duplicates())
            &&& shifted.to == shifted_to_sequence(to_token)
            &&& forall|i: int|
                0 <= i < shifted.to.len() ==> ((#[trigger] shifted.to[i]).modifiers matches Some(
                    tm,
                ) && tm.contains(left_shift()))
            &&& shifted.to.len() == base.to.len()
            &&& shifted.manipulator_type == base.manipulator_type
            &&& shifted.conditions == base.conditions
        }),
{
    let ms = pair_manipulators(from_token, to_token, any, conditions);
    let base = ms[0];
    let mandatory = match base.from.modifiers {
        Some(m) => m.mandatory,
        None => seq![],
    };
    lemma_with_left_shift(mandatory);
    let t = transform(to_token);
    lemma_with_left_shift(t.mandatory_modifiers);
    assert(with_left_shift(t.mandatory_modifiers).contains(left_shift())) by {
        assert(with_left_shift(t.mandatory_modifiers).to_set().contains(left_shift()));
    }
}

/// A single key whose token has two or more characters gets no shifted
/// variant; a chord always gets one.
pub proof fn lemma_eligibility_boundary(
    from_token: Seq<char>,
    to_token: Seq<char>,
    any: bool,
    conditions: Option<Seq<ConditionView>>,
)
    ensures
        parse_from(from_token) is SingleKey && from_token.len() >= 2 ==> pair_manipulators(
            from_token,
            to_token,
            any,
            conditions,
        ).len() == 1,
        parse_from(from_token) is Simultaneous ==> pair_manipulators(
            from_token,
            to_token,
            any,
            conditions,
        ).len() == 2,
{
}

/// Every manipulator carries the conditions that an input-source id gives:
/// one `input_source_if` naming that id, or none at all without an id.
pub proof fn lemma_condition_attachment(
    pairs: Seq<(Seq<char>, Seq<char>)>,
    any: bool,
    id: Option<Seq<char>>,
)
    ensures
        forall|i: int|
            0 <= i < all_manipulators(pairs, any, input_source_conditions_view(id)).len() ==> (
            #[trigger] all_manipulators(pairs, any, input_source_conditions_view(id))[i]).conditions
                == match id {
                Some(s) => Some(
                    seq![ConditionView::InputSourceIf { input_sources: seq![Some(s)] }],
                ),
                None => None::<Seq<ConditionView>>,
            },
    decreases pairs.len(),
{
    let conditions = input_source_conditions_view(id);
    if pairs.len() > 0 {
        lemma_condition_attachment(pairs.drop_last(), any, id);
        let prefix = all_manipulators(pairs.drop_last(), any, conditions);
        let last = pair_manipulators(pairs.last().0, pairs.last().1, any, conditions);
        assert forall|i: int|
            0 <= i < all_manipulators(pairs, any, conditions).len() implies (
            #[trigger] all_manipulators(pairs, any, conditions)[i]).conditions == conditions by {
            if i >= prefix.len() {
                assert(all_manipulators(pairs, any, conditions)[i] == last[i - prefix.len()]);
            } else {
                assert(all_manipulators(pairs, any, conditions)[i] == prefix[i]);
            }
        }
    }
}

} // verus!
