use karabiner_layout::rust_mappings_parser::{
    extract_mappings, ArrayElement, ConstValue, ParseError, SourceItem, TupleElement,
};

fn lit(s: &str) -> TupleElement {
    TupleElement::StrLit(s.to_string())
}

fn item(name: &str, value: ConstValue) -> SourceItem {
    SourceItem::Const { name: name.to_string(), value }
}

fn invalid(s: &str) -> ParseError {
    ParseError::InvalidMappingsFormat(s.to_string())
}

#[test]
fn mappings_are_read_in_order() {
    let items = vec![
        SourceItem::Other,
        item("OTHER", ConstValue::Other),
        item(
            "MAPPINGS",
            ConstValue::RefArray(vec![
                ArrayElement::Tuple(vec![lit("a"), lit("か")]),
                ArrayElement::Tuple(vec![lit("simul(j,k)"), lit("escape")]),
            ]),
        ),
        item("MAPPINGS", ConstValue::Other),
    ];
    let expected = vec![
        ("a".to_string(), "か".to_string()),
        ("simul(j,k)".to_string(), "escape".to_string()),
    ];
    assert_eq!(extract_mappings(&items), Ok(expected));
}

#[test]
fn empty_array_gives_no_mappings() {
    let items = vec![item("MAPPINGS", ConstValue::RefArray(vec![]))];
    assert_eq!(extract_mappings(&items), Ok(vec![]));
}

#[test]
fn missing_mappings_constant() {
    let items = vec![SourceItem::Other, item("MAPPING", ConstValue::Other)];
    assert_eq!(extract_mappings(&items), Err(ParseError::MappingsNotFound));
    assert_eq!(extract_mappings(&vec![]), Err(ParseError::MappingsNotFound));
}

#[test]
fn mappings_must_be_an_array_reference() {
    let items = vec![item("MAPPINGS", ConstValue::Other)];
    assert_eq!(
        extract_mappings(&items),
        Err(invalid("MAPPINGS constant expression is not an array reference `&[...]`"))
    );
}

#[test]
fn array_elements_must_be_pairs_of_strings() {
    let not_tuple = vec![item("MAPPINGS", ConstValue::RefArray(vec![ArrayElement::NotTuple]))];
    assert_eq!(extract_mappings(&not_tuple), Err(invalid("Array element is not a tuple")));
    let triple = vec![item(
        "MAPPINGS",
        ConstValue::RefArray(vec![ArrayElement::Tuple(vec![lit("a"), lit("b"), lit("c")])]),
    )];
    assert_eq!(extract_mappings(&triple), Err(invalid("Tuple does not have 2 elements")));
    let number = vec![item(
        "MAPPINGS",
        ConstValue::RefArray(vec![ArrayElement::Tuple(vec![lit("a"), TupleElement::OtherLit])]),
    )];
    assert_eq!(extract_mappings(&number), Err(invalid("Tuple element not a string literal")));
    let path = vec![item(
        "MAPPINGS",
        ConstValue::RefArray(vec![
            ArrayElement::Tuple(vec![lit("a"), lit("b")]),
            ArrayElement::Tuple(vec![TupleElement::NotLit, TupleElement::OtherLit]),
        ]),
    )];
    assert_eq!(extract_mappings(&path), Err(invalid("Tuple element not a literal")));
}

#[test]
fn error_messages() {
    assert_eq!(ParseError::FileReadError("x".to_string()).message(), "File read error: x");
    assert_eq!(ParseError::SynParseError("y".to_string()).message(), "Rust code parse error: y");
    assert_eq!(ParseError::MappingsNotFound.message(), "'MAPPINGS' constant not found");
    assert_eq!(invalid("z").message(), "Invalid 'MAPPINGS' format: z");
}
