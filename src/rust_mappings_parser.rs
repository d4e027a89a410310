use vstd::prelude::*;
use vstd::string::StringExecFns;

use crate::karabiner_config_generator::pairs_view;
use crate::text::{chars_of, equals_str};

verus! {

/// Why a mapping list could not be had.
#[derive(Debug, PartialEq, Eq)]
pub enum ParseError {
    FileReadError(String),
    SynParseError(String),
    MappingsNotFound,
    InvalidMappingsFormat(String),
}

pub enum ParseErrorView {
    FileReadError(Seq<char>),
    SynParseError(Seq<char>),
    MappingsNotFound,
    InvalidMappingsFormat(Seq<char>),
}

impl View for ParseError {
    type V = ParseErrorView;

    open spec fn view(&self) -> ParseErrorView {
        match self {
            ParseError::FileReadError(s) => ParseErrorView::FileReadError(s@),
            ParseError::SynParseError(s) => ParseErrorView::SynParseError(s@),
            ParseError::MappingsNotFound => ParseErrorView::MappingsNotFound,
            ParseError::InvalidMappingsFormat(s) => ParseErrorView::InvalidMappingsFormat(s@),
        }
    }
}

/// The text that reports an error.
pub open spec fn error_message(e: ParseErrorView) -> Seq<char> {
    match e {
        ParseErrorView::FileReadError(s) => "File read error: "@ + s,
        ParseErrorView::SynParseError(s) => "Rust code parse error: "@ + s,
        ParseErrorView::MappingsNotFound => "'MAPPINGS' constant not found"@,
        ParseErrorView::InvalidMappingsFormat(s) => "Invalid 'MAPPINGS' format: "@ + s,
    }
}

impl ParseError {
    /// The text that reports this error.
    pub fn message(&self) -> (r: String)
        ensures
            r@ == error_message(self@),
    {
        match self {
            ParseError::FileReadError(s) => "File read error: ".to_owned().concat(s.as_str()),
            ParseError::SynParseError(s) => "Rust code parse error: ".to_owned().concat(s.as_str()),
            ParseError::MappingsNotFound => "'MAPPINGS' constant not found".to_owned(),
            ParseError::InvalidMappingsFormat(s) => "Invalid 'MAPPINGS' format: ".to_owned().concat(
                s.as_str(),
            ),
        }
    }
}

/// An element of a mapping tuple, as far as the mapping list reads it.
#[derive(Debug, PartialEq, Eq)]
pub enum TupleElement {
    /// A string literal, with its value.
    StrLit(String),
    /// A literal of another kind.
    OtherLit,
    /// Anything but a literal.
    NotLit,
}

/// An element of the `MAPPINGS` array.
#[derive(Debug, PartialEq, Eq)]
pub enum ArrayElement {
    Tuple(Vec<TupleElement>),
    NotTuple,
}

/// The value that a constant is given.
#[derive(Debug, PartialEq, Eq)]
pub enum ConstValue {
    /// A reference to an array literal, `&[...]`.
    RefArray(Vec<ArrayElement>),
    Other,
}

/// A top-level item of the source file that holds the mapping list.
#[derive(Debug, PartialEq, Eq)]
pub enum SourceItem {
    Const { name: String, value: ConstValue },
    Other,
}

pub open spec fn invalid(s: &str) -> ParseErrorView {
    ParseErrorView::InvalidMappingsFormat(s@)
}

/// The text of a tuple element, which must be a string literal.
pub open spec fn element_text(e: TupleElement) -> Result<Seq<char>, ParseErrorView> {
    match e {
        TupleElement::StrLit(s) => Ok(s@),
        TupleElement::OtherLit => Err(invalid("Tuple element not a string literal")),
        TupleElement::NotLit => Err(invalid("Tuple element not a literal")),
    }
}

/// The pair that an array element gives: it must be a tuple of two strings.
pub open spec fn entry_pair(e: ArrayElement) -> Result<(Seq<char>, Seq<char>), ParseErrorView> {
    match e {
        ArrayElement::NotTuple => Err(invalid("Array element is not a tuple")),
        ArrayElement::Tuple(v) => if v@.len() != 2 {
            Err(invalid("Tuple does not have 2 elements"))
        } else {
            match element_text(v@[0]) {
                Err(x) => Err(x),
                Ok(a) => match element_text(v@[1]) {
                    Err(x) => Err(x),
                    Ok(b) => Ok((a, b)),
                },
            }
        },
    }
}

/// The pairs of the array elements, in order; the first element in error decides.
pub open spec fn entry_pairs(elems: Seq<ArrayElement>) -> Result<
    Seq<(Seq<char>, Seq<char>)>,
    ParseErrorView,
>
    decreases elems.len(),
{
    if elems.len() == 0 {
        Ok(seq![])
    } else {
        match entry_pairs(elems.drop_last()) {
            Err(x) => Err(x),
            Ok(ps) => match entry_pair(elems.last()) {
                Err(x) => Err(x),
                Ok(p) => Ok(ps.push(p)),
            },
        }
    }
}

pub open spec fn const_pairs(value: ConstValue) -> Result<Seq<(Seq<char>, Seq<char>)>, ParseErrorView> {
    match value {
        ConstValue::RefArray(elems) => entry_pairs(elems@),
        ConstValue::Other => Err(
            invalid("MAPPINGS constant expression is not an array reference `&[...]`"),
        ),
    }
}

pub open spec fn is_mappings_const(item: SourceItem) -> bool {
    item matches SourceItem::Const { name, .. } && name@ == "MAPPINGS"@
}

/// The mapping list of a source file: the value of its first constant named
/// `MAPPINGS`.
pub open spec fn mappings_of_items(items: Seq<SourceItem>) -> Result<
    Seq<(Seq<char>, Seq<char>)>,
    ParseErrorView,
>
    decreases items.len(),
{
    if items.len() == 0 {
        Err(ParseErrorView::MappingsNotFound)
    } else if is_mappings_const(items[0]) {
        const_pairs(items[0]->value)
    } else {
        mappings_of_items(items.drop_first())
    }
}

/// An error among the first `k` elements is the error of the whole array.
proof fn lemma_entry_pairs_error_stays(elems: Seq<ArrayElement>, k: int)
    requires
        0 <= k <= elems.len(),
        entry_pairs(elems.subrange(0, k)) is Err,
    ensures
        entry_pairs(elems) == entry_pairs(elems.subrange(0, k)),
    decreases elems.len() - k,
{
    if k == elems.len() {
        assert(elems.subrange(0, k) =~= elems);
    } else {
        assert(elems.subrange(0, k + 1).drop_last() =~= elems.subrange(0, k));
        lemma_entry_pairs_error_stays(elems, k + 1);
    }
}

fn invalid_format(s: &str) -> (r: ParseError)
    ensures
        r@ == invalid(s),
{
    ParseError::InvalidMappingsFormat(s.to_owned())
}

fn element_text_of(e: &TupleElement) -> (r: Result<String, ParseError>)
    ensures
        match r {
            Ok(s) => element_text(*e) == Ok::<Seq<char>, ParseErrorView>(s@),
            Err(x) => element_text(*e) == Err::<Seq<char>, ParseErrorView>(x@),
        },
{
    match e {
        TupleElement::StrLit(s) => Ok(s.clone()),
        TupleElement::OtherLit => Err(invalid_format("Tuple element not a string literal")),
        TupleElement::NotLit => Err(invalid_format("Tuple element not a literal")),
    }
}

fn entry_pair_of(e: &ArrayElement) -> (r: Result<(String, String), ParseError>)
    ensures
        match r {
            Ok(p) => entry_pair(*e) == Ok::<(Seq<char>, Seq<char>), ParseErrorView>((p.0@, p.1@)),
            Err(x) => entry_pair(*e) == Err::<(Seq<char>, Seq<char>), ParseErrorView>(x@),
        },
{
    match e {
        ArrayElement::NotTuple => Err(invalid_format("Array element is not a tuple")),
        ArrayElement::Tuple(v) => {
            if v.len() != 2 {
                return Err(invalid_format("Tuple does not have 2 elements"));
            }
            let a = match element_text_of(&v[0]) {
                Ok(a) => a,
                Err(x) => return Err(x),
            };
            let b = match element_text_of(&v[1]) {
                Ok(b) => b,
                Err(x) => return Err(x),
            };
            Ok((a, b))
        },
    }
}

fn const_pairs_of(value: &ConstValue) -> (r: Result<Vec<(String, String)>, ParseError>)
    ensures
        match r {
            Ok(v) => const_pairs(*value) == Ok::<Seq<(Seq<char>, Seq<char>)>, ParseErrorView>(
                pairs_view(v@),
            ),
            Err(x) => const_pairs(*value) == Err::<Seq<(Seq<char>, Seq<char>)>, ParseErrorView>(
                x@,
            ),
        },
{
    match value {
        ConstValue::Other => Err(
            invalid_format("MAPPINGS constant expression is not an array reference `&[...]`"),
        ),
        ConstValue::RefArray(elems) => {
            let mut pairs: Vec<(String, String)> = Vec::new();
            let mut i: usize = 0;
            assert(elems@.subrange(0, 0) =~= Seq::<ArrayElement>::empty());
            assert(pairs_view(pairs@) =~= seq![]);
            let ghost whole = const_pairs(*value);
            assert(whole == entry_pairs(elems@));
            while i < elems.len()
                invariant
                    i <= elems.len(),
                    entry_pairs(elems@.subrange(0, i as int)) == Ok::<
                        Seq<(Seq<char>, Seq<char>)>,
                        ParseErrorView,
                    >(pairs_view(pairs@)),
                    whole == entry_pairs(elems@),
                    whole == const_pairs(*value),
                decreases elems.len() - i,
            {
                assert(elems@.subrange(0, i + 1).drop_last() =~= elems@.subrange(0, i as int));
                let p = match entry_pair_of(&elems[i]) {
                    Ok(p) => p,
                    Err(x) => {
                        proof {
                            assert(elems@.subrange(0, i + 1).last() == elems@[i as int]);
                            lemma_entry_pairs_error_stays(elems@, i + 1);

                        }
                        return Err(x);
                    },
                };
                let ghost prev = pairs@;
                pairs.push(p);
                assert(pairs_view(pairs@) =~= pairs_view(prev).push((p.0@, p.1@)));
                i = i + 1;
            }
            assert(elems@.subrange(0, elems.len() as int) =~= elems@);
            Ok(pairs)
        },
    }
}

/// The mapping list of a source file: the pairs of its first constant named
/// `MAPPINGS`, which must be a reference to an array of two-string tuples.
pub fn extract_mappings(items: &Vec<SourceItem>) -> (r: Result<Vec<(String, String)>, ParseError>)
    ensures
        match r {
            Ok(v) => mappings_of_items(items@) == Ok::<
                Seq<(Seq<char>, Seq<char>)>,
                ParseErrorView,
            >(pairs_view(v@)),
            Err(x) => mappings_of_items(items@) == Err::<
                Seq<(Seq<char>, Seq<char>)>,
                ParseErrorView,
            >(x@),
        },
{
    let mut i: usize = 0;
    assert(items@.subrange(0, items@.len() as int) =~= items@);
    while i < items.len()
        invariant
            i <= items.len(),
            mappings_of_items(items@) == mappings_of_items(items@.subrange(i as int, items@.len() as int)),
        decreases items.len() - i,
    {
        let ghost rest = items@.subrange(i as int, items@.len() as int);
        assert(rest[0] == items@[i as int]);
        if let SourceItem::Const { name, value } = &items[i] {
            if equals_str(&chars_of(name.as_str()), "MAPPINGS") {
                return const_pairs_of(value);
            }
        }
        assert(rest.drop_first() =~= items@.subrange(i + 1, items@.len() as int));
        i = i + 1;
    }
    Err(ParseError::MappingsNotFound)
}

} // verus!
