use rdf_literal::{DataType, Literal, RDFStoreError};

fn parse_some(data_type: DataType, text: &str) -> Literal {
    Literal::parse(data_type, text).unwrap().unwrap()
}

#[test]
fn any_uri_renders_in_angle_brackets() {
    let literal = parse_some(DataType::AnyUri, "https://x/y");
    assert_eq!(literal.render_plain(), "<https://x/y>");
    assert_eq!(literal.render_turtle(), "<https://x/y>");
    assert_eq!(literal.render_json(), "\"https://x/y\"");
    assert_eq!(literal.as_iri(), Some("https://x/y"));
}

#[test]
fn invalid_iri_is_an_error() {
    match Literal::parse(DataType::AnyUri, "not an iri") {
        Err(RDFStoreError::InvalidIri { value }) => assert_eq!(value, "not an iri"),
        other => panic!("unexpected {:?}", other),
    }
    assert!(Literal::new_iri("https://x/y", DataType::IriReference).is_ok());
}

#[test]
fn booleans_parse_exactly() {
    assert_eq!(parse_some(DataType::Boolean, "true").as_boolean(), Some(true));
    assert_eq!(parse_some(DataType::Boolean, "false").as_boolean(), Some(false));
    match Literal::parse(DataType::Boolean, "yes") {
        Err(RDFStoreError::UnknownNTriplesValue { value }) => assert_eq!(value, "yes"),
        other => panic!("unexpected {:?}", other),
    }
    assert!(Literal::parse(DataType::Boolean, "True").is_err());
}

#[test]
fn equality_discriminates_datatypes() {
    let text = parse_some(DataType::String, "1");
    let integer = parse_some(DataType::Integer, "1");
    assert!(text != integer);
    assert!(text == text.clone());
    assert!(integer == Literal::new_signed_integer(1, DataType::Integer));
    assert!(integer != Literal::new_signed_integer(1, DataType::Long));
    assert!(parse_some(DataType::Decimal, "1.0") != parse_some(DataType::Decimal, "1"));
}

#[test]
fn local_names() {
    let hash = parse_some(DataType::AnyUri, "https://x/ns#Thing");
    assert_eq!(hash.as_local_name(), Some("Thing"));
    let slash = parse_some(DataType::AnyUri, "https://x/ns/Thing");
    assert_eq!(slash.as_local_name(), Some("Thing"));
    let boolean = parse_some(DataType::Boolean, "true");
    assert_eq!(boolean.as_local_name(), None);
    let none = parse_some(DataType::AnyUri, "urn:isbn:123");
    assert_eq!(none.as_local_name(), None);
}

#[test]
fn unbound_value_is_no_literal() {
    assert!(Literal::parse(DataType::UnboundValue, "").unwrap().is_none());
    assert!(Literal::parse(DataType::UnboundValue, "anything at all").unwrap().is_none());
}

#[test]
fn clones_own_their_text() {
    let sources = vec![
        parse_some(DataType::String, "some text"),
        parse_some(DataType::PlainLiteral, "plain"),
        parse_some(DataType::AnyUri, "https://x/y"),
        parse_some(DataType::BlankNode, "b0"),
        parse_some(DataType::Decimal, "3.140"),
        parse_some(DataType::Duration, "P1D"),
        parse_some(DataType::DateTime, "2024-01-01T00:00:00Z"),
    ];
    let expected: Vec<String> = sources.iter().map(|l| l.render_plain()).collect();
    let clones: Vec<Literal> = sources.iter().map(|l| l.clone()).collect();
    drop(sources);
    let rendered: Vec<String> = clones.iter().map(|l| l.render_plain()).collect();
    assert_eq!(rendered, expected);
}

#[test]
fn integer_scenario() {
    let literal = parse_some(DataType::Integer, "42");
    assert_eq!(literal.data_type(), DataType::Integer);
    assert_eq!(literal.as_signed(), Some(42));
    assert_eq!(literal.render_plain(), "42");
    assert_eq!(literal.render_turtle(), "42");
    assert_eq!(literal.render_json(), "42");
}

#[test]
fn decimal_text_is_kept_verbatim() {
    let literal = parse_some(DataType::Decimal, "3.140");
    assert_eq!(literal.as_decimal_text(), Some("3.140"));
    assert_eq!(literal.render_plain(), "3.140 (Decimal)");
    assert_eq!(literal.render_turtle(), "3.140");
    assert_eq!(literal.render_json(), "\"3.140\"");
}

#[test]
fn inferred_integer_datatypes() {
    let negative = Literal::new_signed_integer_inferred(-5);
    assert_eq!(negative.data_type(), DataType::NegativeInteger);
    assert_eq!(negative.as_signed(), Some(-5));
    let zero = Literal::new_signed_integer_inferred(0);
    assert_eq!(zero.data_type(), DataType::PositiveInteger);
    assert_eq!(zero.as_unsigned(), Some(0));
    assert_eq!(zero.as_signed(), None);
}

#[test]
fn parse_agrees_with_constructors() {
    assert!(parse_some(DataType::String, "abc") == Literal::new_text("abc", DataType::String));
    assert!(parse_some(DataType::BlankNode, "b1") == Literal::new_blank_node("b1", DataType::BlankNode));
    assert!(parse_some(DataType::Boolean, "true") == Literal::new_boolean(true, DataType::Boolean));
    assert!(parse_some(DataType::Short, "-7") == Literal::new_signed_integer(-7, DataType::Short));
    assert!(parse_some(DataType::UnsignedInt, "7") == Literal::new_unsigned_integer(7, DataType::UnsignedInt));
    assert!(parse_some(DataType::Decimal, "0.5") == Literal::new_decimal("0.5"));
    assert!(parse_some(DataType::Duration, "P2Y") == Literal::new_duration("P2Y"));
    assert!(parse_some(DataType::DateTime, "2020-02-02T10:00:00Z") == Literal::new_date_time("2020-02-02T10:00:00Z"));
    let iri = Literal::new_iri("https://x/z", DataType::AnyUri).unwrap();
    assert!(parse_some(DataType::AnyUri, "https://x/z") == iri);
}

#[test]
fn scalar_renderings_read_back() {
    for literal in [
        Literal::new_signed_integer(i64::MIN, DataType::Long),
        Literal::new_signed_integer(i64::MAX, DataType::Long),
        Literal::new_unsigned_integer(u64::MAX, DataType::UnsignedLong),
        Literal::new_boolean(false, DataType::Boolean),
    ] {
        let text = literal.render_plain();
        assert!(parse_some(literal.data_type(), &text) == literal);
    }
    assert_eq!(Literal::new_signed_integer(i64::MIN, DataType::Long).render_plain(), "-9223372036854775808");
}

#[test]
fn integer_text_edges() {
    assert_eq!(parse_some(DataType::Integer, "+5").as_signed(), Some(5));
    assert_eq!(parse_some(DataType::Integer, "-0").as_signed(), Some(0));
    assert_eq!(parse_some(DataType::Integer, "007").as_signed(), Some(7));
    assert_eq!(parse_some(DataType::Long, "-9223372036854775808").as_signed(), Some(i64::MIN));
    assert_eq!(parse_some(DataType::UnsignedLong, "18446744073709551615").as_unsigned(), Some(u64::MAX));
    for bad in ["", "+", "-", "1.5", " 1", "1a", "9223372036854775808", "١٢"] {
        match Literal::parse(DataType::Integer, bad) {
            Err(RDFStoreError::ParseIntError { value }) => assert_eq!(value, bad),
            other => panic!("unexpected {:?} for {:?}", other, bad),
        }
    }
    for bad in ["-1", "-0", "18446744073709551616", "x"] {
        assert!(matches!(
            Literal::parse(DataType::PositiveInteger, bad),
            Err(RDFStoreError::ParseIntError { .. })
        ));
    }
}

#[test]
fn unsupported_datatypes_are_errors() {
    match Literal::parse(DataType::Double, "1.5") {
        Err(RDFStoreError::UnknownValueForDataType { data_type, value }) => {
            assert_eq!(data_type, DataType::Double);
            assert_eq!(value, "1.5");
        },
        other => panic!("unexpected {:?}", other),
    }
    assert!(Literal::parse(DataType::Date, "2020-01-01").is_err());
}

#[test]
fn renderings_of_each_shape() {
    let blank = parse_some(DataType::BlankNode, "b0");
    assert_eq!(blank.render_plain(), "_:b0");
    assert_eq!(blank.render_turtle(), "_:b0");
    assert_eq!(blank.render_json(), "\"_:b0\"");
    let text = parse_some(DataType::String, "say \"hi\"");
    assert_eq!(text.render_plain(), "\"say \"hi\"\"");
    assert_eq!(text.render_turtle(), "\"say \"hi\"\"");
    assert_eq!(text.render_json(), "\"say \\\"hi\\\"\"");
    let date_time = parse_some(DataType::DateTime, "2024-01-01T00:00:00Z");
    assert_eq!(date_time.render_plain(), "2024-01-01T00:00:00Z (DateTime)");
    assert_eq!(date_time.render_turtle(), "\"2024-01-01T00:00:00Z\"^^xsd:dateTime");
    assert_eq!(date_time.render_json(), "\"2024-01-01T00:00:00Z\"");
    let duration = parse_some(DataType::Duration, "P1D");
    assert_eq!(duration.render_turtle(), "\"P1D\"^^xsd:duration");
    assert_eq!(duration.render_plain(), "P1D (Duration)");
    let boolean = parse_some(DataType::Boolean, "false");
    assert_eq!(boolean.render_plain(), "false");
    assert_eq!(boolean.render_json(), "false");
    let unsigned = parse_some(DataType::UnsignedByte, "200");
    assert_eq!(unsigned.render_turtle(), "200");
}

#[test]
fn accessors_probe_shapes() {
    let text = parse_some(DataType::String, "abc");
    assert_eq!(text.as_text(), Some("abc"));
    assert_eq!(text.as_iri(), None);
    assert_eq!(text.as_boolean(), None);
    assert_eq!(text.as_decimal_text(), None);
    let duration = parse_some(DataType::Duration, "P1D");
    assert_eq!(duration.as_duration_text(), Some("P1D"));
    assert_eq!(duration.as_text(), None);
    let date_time = parse_some(DataType::DateTime, "2024-01-01");
    assert_eq!(date_time.as_date_time_text(), Some("2024-01-01"));
    assert_eq!(date_time.as_unsigned(), None);
}

#[test]
fn url_display_encodes_strings() {
    let text = parse_some(DataType::String, "a b/c");
    assert_eq!(text.as_url_display().render(), "a%20b%2Fc");
    let boolean = parse_some(DataType::Boolean, "true");
    assert_eq!(boolean.as_url_display().render(), "true");
    let integer = parse_some(DataType::Integer, "-3");
    assert_eq!(integer.as_url_display().render(), "-3");
    let iri = parse_some(DataType::AnyUri, "https://x/y");
    assert_eq!(iri.as_url_display().render(), "<https://x/y>");
}
