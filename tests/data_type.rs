use rdf_literal::{DataType, LiteralValue, RDFStoreError, Shape};

#[test]
fn ids_are_stable() {
    assert_eq!(DataType::from_datatype_id(0).unwrap(), DataType::UnboundValue);
    assert_eq!(DataType::from_datatype_id(7).unwrap(), DataType::Boolean);
    assert_eq!(DataType::from_datatype_id(23).unwrap(), DataType::Integer);
    assert_eq!(DataType::from_datatype_id(35).unwrap(), DataType::UnsignedByte);
    for id in 0u8..36 {
        assert_eq!(DataType::from_datatype_id(id).unwrap().id(), id);
    }
    match DataType::from_datatype_id(36) {
        Err(RDFStoreError::UnknownDataType { data_type_id }) => assert_eq!(data_type_id, 36),
        other => panic!("unexpected {:?}", other),
    }
    assert!(DataType::from_datatype_id(255).is_err());
}

#[test]
fn xsd_iris_map_both_ways() {
    let iri = "http://www.w3.org/2001/XMLSchema#integer";
    assert_eq!(DataType::from_xsd_iri(iri).unwrap(), DataType::Integer);
    assert_eq!(DataType::Integer.as_xsd_iri_str(), iri);
    assert_eq!(DataType::Boolean.as_xsd_iri_str(), "http://www.w3.org/2001/XMLSchema#boolean");
    assert_eq!(DataType::from_xsd_iri("Blank Node").unwrap(), DataType::BlankNode);
    for id in 0u8..36 {
        let data_type = DataType::from_datatype_id(id).unwrap();
        if data_type != DataType::PlainLiteral && data_type != DataType::PositiveInteger {
            assert_eq!(DataType::from_xsd_iri(data_type.as_xsd_iri_str()).unwrap(), data_type);
        }
    }
    match DataType::from_xsd_iri("http://www.w3.org/2001/XMLSchema#nothing") {
        Err(RDFStoreError::UnknownXsdDataType { data_type_iri }) => {
            assert_eq!(data_type_iri, "http://www.w3.org/2001/XMLSchema#nothing")
        },
        other => panic!("unexpected {:?}", other),
    }
}

#[test]
fn classification_groups() {
    assert!(DataType::String.is_string() && DataType::PlainLiteral.is_string());
    assert!(!DataType::Literal.is_string());
    assert!(DataType::AnyUri.is_iri() && DataType::IriReference.is_iri());
    assert!(DataType::Boolean.is_boolean());
    assert!(DataType::Date.is_date() && !DataType::DateTime.is_date());
    assert!(DataType::DateTime.is_date_time());
    assert!(DataType::DateTimeStamp.is_date_time_stamp());
    assert!(DataType::Decimal.is_decimal());
    assert!(DataType::Duration.is_duration() && !DataType::DayTimeDuration.is_duration());
    assert!(DataType::Short.is_signed_integer() && !DataType::UnsignedShort.is_signed_integer());
    assert!(DataType::UnsignedShort.is_unsigned_integer() && DataType::PositiveInteger.is_unsigned_integer());
    assert!(DataType::BlankNode.is_blank_node());
    assert_eq!(DataType::Decimal.shape(), Shape::Text);
    assert_eq!(DataType::Double.shape(), Shape::Unsupported);
    assert_eq!(DataType::NonPositiveInteger.shape(), Shape::Signed);
    assert_eq!(DataType::Integer.name(), "Integer");
    assert_eq!(DataType::default(), DataType::Boolean);
}

#[test]
fn payload_constructors() {
    assert!(matches!(LiteralValue::default(), LiteralValue::Boolean(false)));
    assert!(matches!(LiteralValue::new_string("x"), LiteralValue::String(s) if s == "x"));
    assert!(matches!(LiteralValue::new_iri("https://x/"), LiteralValue::Iri(s) if s == "https://x/"));
    assert!(matches!(LiteralValue::new_boolean(true), LiteralValue::Boolean(true)));
    assert!(matches!(LiteralValue::new_unsigned_integer(3), LiteralValue::UnsignedInteger(3)));
    assert!(matches!(LiteralValue::new_signed_integer(-3), LiteralValue::SignedInteger(-3)));
    assert!(matches!(LiteralValue::new_blank_node("b"), LiteralValue::BlankNode(s) if s == "b"));
}
