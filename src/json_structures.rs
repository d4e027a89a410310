use vstd::prelude::*;

use crate::keycode_mapping::strings_view;

verus! {

/// A rule document: the top level of the remapping engine's configuration.
#[derive(Debug, PartialEq, Eq)]
pub struct File {
    pub rules: Vec<Rule>,
}

#[derive(Debug, PartialEq, Eq)]
pub struct Rule {
    pub description: String,
    pub manipulators: Vec<Manipulator>,
}

/// One remapping: a from-event matched against a sequence of to-events.
#[derive(Debug, PartialEq, Eq)]
pub struct Manipulator {
    pub from: From,
    pub to: Vec<ToEvent>,
    /// Always `basic`.
    pub manipulator_type: String,
    pub conditions: Option<Vec<ConditionVariant>>,
}

#[derive(Debug, PartialEq, Eq)]
pub struct SimultaneousKey {
    pub key_code: String,
}

/// The from-side of a manipulator: a single key, or a chord of keys.
#[derive(Debug, PartialEq, Eq)]
pub struct From {
    pub key_code: Option<String>,
    pub modifiers: Option<Modifiers>,
    pub simultaneous: Option<Vec<SimultaneousKey>>,
}

#[derive(Debug, PartialEq, Eq)]
pub struct ToEvent {
    pub key_code: Option<String>,
    pub modifiers: Option<Vec<String>>,
}

#[derive(Debug, PartialEq, Eq)]
pub struct Modifiers {
    pub mandatory: Vec<String>,
    pub optional: Vec<String>,
}

#[derive(Debug, PartialEq, Eq)]
pub struct InputSourceDetail {
    pub input_source_id: Option<String>,
}

/// A predicate that gates when a manipulator applies.
#[derive(Debug, PartialEq, Eq)]
pub enum ConditionVariant {
    InputSourceIf { input_sources: Vec<InputSourceDetail> },
}

pub open spec fn opt_string_view(o: Option<String>) -> Option<Seq<char>> {
    match o {
        Some(s) => Some(s@),
        None => None,
    }
}

pub open spec fn opt_strings_view(o: Option<Vec<String>>) -> Option<Seq<Seq<char>>> {
    match o {
        Some(v) => Some(strings_view(v@)),
        None => None,
    }
}

pub struct ModifiersView {
    pub mandatory: Seq<Seq<char>>,
    pub optional: Seq<Seq<char>>,
}

impl View for Modifiers {
    type V = ModifiersView;

    open spec fn view(&self) -> ModifiersView {
        ModifiersView {
            mandatory: strings_view(self.mandatory@),
            optional: strings_view(self.optional@),
        }
    }
}

pub struct FromView {
    pub key_code: Option<Seq<char>>,
    pub modifiers: Option<ModifiersView>,
    pub simultaneous: Option<Seq<Seq<char>>>,
}

pub open spec fn simultaneous_view(v: Seq<SimultaneousKey>) -> Seq<Seq<char>> {
    v.map_values(|k: SimultaneousKey| k.key_code@)
}

impl View for From {
    type V = FromView;

    open spec fn view(&self) -> FromView {
        FromView {
            key_code: opt_string_view(self.key_code),
            modifiers: match self.modifiers {
                Some(m) => Some(m@),
                None => None,
            },
            simultaneous: match self.simultaneous {
                Some(v) => Some(simultaneous_view(v@)),
                None => None,
            },
        }
    }
}

pub struct ToEventView {
    pub key_code: Option<Seq<char>>,
    pub modifiers: Option<Seq<Seq<char>>>,
}

impl View for ToEvent {
    type V = ToEventView;

    open spec fn view(&self) -> ToEventView {
        ToEventView {
            key_code: opt_string_view(self.key_code),
            modifiers: opt_strings_view(self.modifiers),
        }
    }
}

pub open spec fn events_view(v: Seq<ToEvent>) -> Seq<ToEventView> {
    v.map_values(|e: ToEvent| e@)
}

pub enum ConditionView {
    InputSourceIf { input_sources: Seq<Option<Seq<char>>> },
}

pub open spec fn input_sources_view(v: Seq<InputSourceDetail>) -> Seq<Option<Seq<char>>> {
    v.map_values(|d: InputSourceDetail| opt_string_view(d.input_source_id))
}

impl View for ConditionVariant {
    type V = ConditionView;

    open spec fn view(&self) -> ConditionView {
        match self {
            ConditionVariant::InputSourceIf { input_sources } => ConditionView::InputSourceIf {
                input_sources: input_sources_view(input_sources@),
            },
        }
    }
}

pub open spec fn conditions_view(v: Seq<ConditionVariant>) -> Seq<ConditionView> {
    v.map_values(|c: ConditionVariant| c@)
}

pub open spec fn opt_conditions_view(o: Option<Vec<ConditionVariant>>) -> Option<Seq<ConditionView>> {
    match o {
        Some(v) => Some(conditions_view(v@)),
        None => None,
    }
}

pub struct ManipulatorView {
    pub from: FromView,
    pub to: Seq<ToEventView>,
    pub manipulator_type: Seq<char>,
    pub conditions: Option<Seq<ConditionView>>,
}

impl View for Manipulator {
    type V = ManipulatorView;

    open spec fn view(&self) -> ManipulatorView {
        ManipulatorView {
            from: self.from@,
            to: events_view(self.to@),
            manipulator_type: self.manipulator_type@,
            conditions: opt_conditions_view(self.conditions),
        }
    }
}

pub open spec fn manipulators_view(v: Seq<Manipulator>) -> Seq<ManipulatorView> {
    v.map_values(|m: Manipulator| m@)
}

pub struct RuleView {
    pub description: Seq<char>,
    pub manipulators: Seq<ManipulatorView>,
}

impl View for Rule {
    type V = RuleView;

    open spec fn view(&self) -> RuleView {
        RuleView {
            description: self.description@,
            manipulators: manipulators_view(self.manipulators@),
        }
    }
}

pub struct FileView {
    pub rules: Seq<RuleView>,
}

impl View for File {
    type V = FileView;

    open spec fn view(&self) -> FileView {
        FileView { rules: self.rules@.map_values(|r: Rule| r@) }
    }
}

} // verus!
