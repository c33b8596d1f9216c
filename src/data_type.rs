use vstd::prelude::*;

use crate::error::RDFStoreError;

verus! {

/// The XSD or RDF datatype of a literal. Each variant has a stable numeric
/// identifier (see [`DataType::id`]) that is shared with external systems.
#[derive(Debug, Clone, Copy, PartialEq, Eq, Structural, Hash)]
pub enum DataType {
    /// INVALID_DATATYPE
    UnboundValue,
    /// BLANK_NODE
    BlankNode,
    /// IRI_REFERENCE
    IriReference,
    /// RDFS_LITERAL
    Literal,
    /// XSD_ANY_URI
    AnyUri,
    /// XSD_STRING
    String,
    /// RDF_PLAIN_LITERAL
    PlainLiteral,
    /// XSD_BOOLEAN
    Boolean,
    /// XSD_DATE_TIME
    DateTime,
    /// XSD_DATE_TIME_STAMP
    DateTimeStamp,
    /// XSD_TIME
    Time,
    /// XSD_DATE
    Date,
    /// XSD_G_YEAR_MONTH
    YearMonth,
    /// XSD_G_YEAR
    Year,
    /// XSD_G_MONTH_DAY
    MonthDay,
    /// XSD_G_DAY
    Day,
    /// XSD_G_MONTH
    Month,
    /// XSD_DURATION
    Duration,
    /// XSD_YEAR_MONTH_DURATION
    YearMonthDuration,
    /// XSD_DAY_TIME_DURATION
    DayTimeDuration,
    /// XSD_DOUBLE
    Double,
    /// XSD_FLOAT
    Float,
    /// XSD_DECIMAL
    Decimal,
    /// XSD_INTEGER
    Integer,
    /// XSD_NON_NEGATIVE_INTEGER
    NonNegativeInteger,
    /// XSD_NON_POSITIVE_INTEGER
    NonPositiveInteger,
    /// XSD_NEGATIVE_INTEGER
    NegativeInteger,
    /// XSD_POSITIVE_INTEGER
    PositiveInteger,
    /// XSD_LONG
    Long,
    /// XSD_INT
    Int,
    /// XSD_SHORT
    Short,
    /// XSD_BYTE
    Byte,
    /// XSD_UNSIGNED_LONG
    UnsignedLong,
    /// XSD_UNSIGNED_INT
    UnsignedInt,
    /// XSD_UNSIGNED_SHORT
    UnsignedShort,
    /// XSD_UNSIGNED_BYTE
    UnsignedByte,
}

/// The physical shape of the payload that a datatype's literals carry.
#[derive(Debug, Clone, Copy, PartialEq, Eq, Structural)]
pub enum Shape {
    /// An IRI, held as text.
    Iri,
    /// Verbatim text: strings, date-times, decimals and durations.
    Text,
    /// A boolean.
    Boolean,
    /// A signed 64-bit integer.
    Signed,
    /// An unsigned 64-bit integer.
    Unsigned,
    /// A blank node identifier.
    BlankNode,
    /// No literal of this datatype can be built.
    Unsupported,
}

/// The stable numeric identifier of a datatype.
pub open spec fn id_of(d: DataType) -> u8 {
    match d {
        DataType::UnboundValue => 0,
        DataType::BlankNode => 1,
        DataType::IriReference => 2,
        DataType::Literal => 3,
        DataType::AnyUri => 4,
        DataType::String => 5,
        DataType::PlainLiteral => 6,
        DataType::Boolean => 7,
        DataType::DateTime => 8,
        DataType::DateTimeStamp => 9,
        DataType::Time => 10,
        DataType::Date => 11,
        DataType::YearMonth => 12,
        DataType::Year => 13,
        DataType::MonthDay => 14,
        DataType::Day => 15,
        DataType::Month => 16,
        DataType::Duration => 17,
        DataType::YearMonthDuration => 18,
        DataType::DayTimeDuration => 19,
        DataType::Double => 20,
        DataType::Float => 21,
        DataType::Decimal => 22,
        DataType::Integer => 23,
        DataType::NonNegativeInteger => 24,
        DataType::NonPositiveInteger => 25,
        DataType::NegativeInteger => 26,
        DataType::PositiveInteger => 27,
        DataType::Long => 28,
        DataType::Int => 29,
        DataType::Short => 30,
        DataType::Byte => 31,
        DataType::UnsignedLong => 32,
        DataType::UnsignedInt => 33,
        DataType::UnsignedShort => 34,
        DataType::UnsignedByte => 35,
    }
}

/// The datatype with the given numeric identifier, if there is one.
pub open spec fn datatype_with_id(id: u8) -> Option<DataType> {
    match id {
        0 => Some(DataType::UnboundValue),
        1 => Some(DataType::BlankNode),
        2 => Some(DataType::IriReference),
        3 => Some(DataType::Literal),
        4 => Some(DataType::AnyUri),
        5 => Some(DataType::String),
        6 => Some(DataType::PlainLiteral),
        7 => Some(DataType::Boolean),
        8 => Some(DataType::DateTime),
        9 => Some(DataType::DateTimeStamp),
        10 => Some(DataType::Time),
        11 => Some(DataType::Date),
        12 => Some(DataType::YearMonth),
        13 => Some(DataType::Year),
        14 => Some(DataType::MonthDay),
        15 => Some(DataType::Day),
        16 => Some(DataType::Month),
        17 => Some(DataType::Duration),
        18 => Some(DataType::YearMonthDuration),
        19 => Some(DataType::DayTimeDuration),
        20 => Some(DataType::Double),
        21 => Some(DataType::Float),
        22 => Some(DataType::Decimal),
        23 => Some(DataType::Integer),
        24 => Some(DataType::NonNegativeInteger),
        25 => Some(DataType::NonPositiveInteger),
        26 => Some(DataType::NegativeInteger),
        27 => Some(DataType::PositiveInteger),
        28 => Some(DataType::Long),
        29 => Some(DataType::Int),
        30 => Some(DataType::Short),
        31 => Some(DataType::Byte),
        32 => Some(DataType::UnsignedLong),
        33 => Some(DataType::UnsignedInt),
        34 => Some(DataType::UnsignedShort),
        35 => Some(DataType::UnsignedByte),
        _ => None,
    }
}

/// The canonical IRI of a datatype, where it has one.
pub open spec fn xsd_iri_of(d: DataType) -> Option<Seq<char>> {
    match d {
        DataType::UnboundValue => Some("Unbound Value"@),
        DataType::BlankNode => Some("Blank Node"@),
        DataType::IriReference => Some("IRI Reference"@),
        DataType::Literal => Some("http://www.w3.org/2000/01/rdf-schema#Literal"@),
        DataType::AnyUri => Some("http://www.w3.org/2001/XMLSchema#anyURI"@),
        DataType::String => Some("http://www.w3.org/2001/XMLSchema#string"@),
        DataType::Boolean => Some("http://www.w3.org/2001/XMLSchema#boolean"@),
        DataType::DateTime => Some("http://www.w3.org/2001/XMLSchema#dateTime"@),
        DataType::DateTimeStamp => Some("http://www.w3.org/2001/XMLSchema#dateTimeStamp"@),
        DataType::Time => Some("http://www.w3.org/2001/XMLSchema#time"@),
        DataType::Date => Some("http://www.w3.org/2001/XMLSchema#date"@),
        DataType::YearMonth => Some("http://www.w3.org/2001/XMLSchema#gYearMonth"@),
        DataType::Year => Some("http://www.w3.org/2001/XMLSchema#gYear"@),
        DataType::MonthDay => Some("http://www.w3.org/2001/XMLSchema#gMonthDay"@),
        DataType::Day => Some("http://www.w3.org/2001/XMLSchema#gDay"@),
        DataType::Month => Some("http://www.w3.org/2001/XMLSchema#gMonth"@),
        DataType::Duration => Some("http://www.w3.org/2001/XMLSchema#duration"@),
        DataType::YearMonthDuration => Some("http://www.w3.org/2001/XMLSchema#yearMonthDuration"@),
        DataType::DayTimeDuration => Some("http://www.w3.org/2001/XMLSchema#dayTimeDuration"@),
        DataType::Double => Some("http://www.w3.org/2001/XMLSchema#double"@),
        DataType::Float => Some("http://www.w3.org/2001/XMLSchema#float"@),
        DataType::Decimal => Some("http://www.w3.org/2001/XMLSchema#decimal"@),
        DataType::Integer => Some("http://www.w3.org/2001/XMLSchema#integer"@),
        DataType::NonNegativeInteger => Some("http://www.w3.org/2001/XMLSchema#nonNegativeInteger"@),
        DataType::NonPositiveInteger => Some("http://www.w3.org/2001/XMLSchema#nonPositiveInteger"@),
        DataType::NegativeInteger => Some("http://www.w3.org/2001/XMLSchema#negativeInteger"@),
        DataType::Long => Some("http://www.w3.org/2001/XMLSchema#long"@),
        DataType::Int => Some("http://www.w3.org/2001/XMLSchema#int"@),
        DataType::Short => Some("http://www.w3.org/2001/XMLSchema#short"@),
        DataType::Byte => Some("http://www.w3.org/2001/XMLSchema#byte"@),
        DataType::UnsignedLong => Some("http://www.w3.org/2001/XMLSchema#unsignedLong"@),
        DataType::UnsignedInt => Some("http://www.w3.org/2001/XMLSchema#unsignedInt"@),
        DataType::UnsignedShort => Some("http://www.w3.org/2001/XMLSchema#unsignedShort"@),
        DataType::UnsignedByte => Some("http://www.w3.org/2001/XMLSchema#unsignedByte"@),
        _ => None,
    }
}

/// The datatype whose canonical IRI is `s`, if there is one.
pub open spec fn datatype_with_xsd_iri(s: Seq<char>) -> Option<DataType> {
    if s == "Unbound Value"@ {
        Some(DataType::UnboundValue)
    } else if s == "Blank Node"@ {
        Some(DataType::BlankNode)
    } else if s == "IRI Reference"@ {
        Some(DataType::IriReference)
    } else if s == "http://www.w3.org/2000/01/rdf-schema#Literal"@ {
        Some(DataType::Literal)
    } else if s == "http://www.w3.org/2001/XMLSchema#anyURI"@ {
        Some(DataType::AnyUri)
    } else if s == "http://www.w3.org/2001/XMLSchema#string"@ {
        Some(DataType::String)
    } else if s == "http://www.w3.org/2001/XMLSchema#boolean"@ {
        Some(DataType::Boolean)
    } else if s == "http://www.w3.org/2001/XMLSchema#dateTime"@ {
        Some(DataType::DateTime)
    } else if s == "http://www.w3.org/2001/XMLSchema#dateTimeStamp"@ {
        Some(DataType::DateTimeStamp)
    } else if s == "http://www.w3.org/2001/XMLSchema#time"@ {
        Some(DataType::Time)
    } else if s == "http://www.w3.org/2001/XMLSchema#date"@ {
        Some(DataType::Date)
    } else if s == "http://www.w3.org/2001/XMLSchema#gYearMonth"@ {
        Some(DataType::YearMonth)
    } else if s == "http://www.w3.org/2001/XMLSchema#gYear"@ {
        Some(DataType::Year)
    } else if s == "http://www.w3.org/2001/XMLSchema#gMonthDay"@ {
        Some(DataType::MonthDay)
    } else if s == "http://www.w3.org/2001/XMLSchema#gDay"@ {
        Some(DataType::Day)
    } else if s == "http://www.w3.org/2001/XMLSchema#gMonth"@ {
        Some(DataType::Month)
    } else if s == "http://www.w3.org/2001/XMLSchema#duration"@ {
        Some(DataType::Duration)
    } else if s == "http://www.w3.org/2001/XMLSchema#yearMonthDuration"@ {
        Some(DataType::YearMonthDuration)
    } else if s == "http://www.w3.org/2001/XMLSchema#dayTimeDuration"@ {
        Some(DataType::DayTimeDuration)
    } else if s == "http://www.w3.org/2001/XMLSchema#double"@ {
        Some(DataType::Double)
    } else if s == "http://www.w3.org/2001/XMLSchema#float"@ {
        Some(DataType::Float)
    } else if s == "http://www.w3.org/2001/XMLSchema#decimal"@ {
        Some(DataType::Decimal)
    } else if s == "http://www.w3.org/2001/XMLSchema#integer"@ {
        Some(DataType::Integer)
    } else if s == "http://www.w3.org/2001/XMLSchema#nonNegativeInteger"@ {
        Some(DataType::NonNegativeInteger)
    } else if s == "http://www.w3.org/2001/XMLSchema#nonPositiveInteger"@ {
        Some(DataType::NonPositiveInteger)
    } else if s == "http://www.w3.org/2001/XMLSchema#negativeInteger"@ {
        Some(DataType::NegativeInteger)
    } else if s == "http://www.w3.org/2001/XMLSchema#long"@ {
        Some(DataType::Long)
    } else if s == "http://www.w3.org/2001/XMLSchema#int"@ {
        Some(DataType::Int)
    } else if s == "http://www.w3.org/2001/XMLSchema#short"@ {
        Some(DataType::Short)
    } else if s == "http://www.w3.org/2001/XMLSchema#byte"@ {
        Some(DataType::Byte)
    } else if s == "http://www.w3.org/2001/XMLSchema#unsignedLong"@ {
        Some(DataType::UnsignedLong)
    } else if s == "http://www.w3.org/2001/XMLSchema#unsignedInt"@ {
        Some(DataType::UnsignedInt)
    } else if s == "http://www.w3.org/2001/XMLSchema#unsignedShort"@ {
        Some(DataType::UnsignedShort)
    } else if s == "http://www.w3.org/2001/XMLSchema#unsignedByte"@ {
        Some(DataType::UnsignedByte)
    } else {
        None
    }
}

/// The name of a datatype, as it is shown in a rendering.
pub open spec fn name_of(d: DataType) -> Seq<char> {
    match d {
        DataType::UnboundValue => "UnboundValue"@,
        DataType::BlankNode => "BlankNode"@,
        DataType::IriReference => "IriReference"@,
        DataType::Literal => "Literal"@,
        DataType::AnyUri => "AnyUri"@,
        DataType::String => "String"@,
        DataType::PlainLiteral => "PlainLiteral"@,
        DataType::Boolean => "Boolean"@,
        DataType::DateTime => "DateTime"@,
        DataType::DateTimeStamp => "DateTimeStamp"@,
        DataType::Time => "Time"@,
        DataType::Date => "Date"@,
        DataType::YearMonth => "YearMonth"@,
        DataType::Year => "Year"@,
        DataType::MonthDay => "MonthDay"@,
        DataType::Day => "Day"@,
        DataType::Month => "Month"@,
        DataType::Duration => "Duration"@,
        DataType::YearMonthDuration => "YearMonthDuration"@,
        DataType::DayTimeDuration => "DayTimeDuration"@,
        DataType::Double => "Double"@,
        DataType::Float => "Float"@,
        DataType::Decimal => "Decimal"@,
        DataType::Integer => "Integer"@,
        DataType::NonNegativeInteger => "NonNegativeInteger"@,
        DataType::NonPositiveInteger => "NonPositiveInteger"@,
        DataType::NegativeInteger => "NegativeInteger"@,
        DataType::PositiveInteger => "PositiveInteger"@,
        DataType::Long => "Long"@,
        DataType::Int => "Int"@,
        DataType::Short => "Short"@,
        DataType::Byte => "Byte"@,
        DataType::UnsignedLong => "UnsignedLong"@,
        DataType::UnsignedInt => "UnsignedInt"@,
        DataType::UnsignedShort => "UnsignedShort"@,
        DataType::UnsignedByte => "UnsignedByte"@,
    }
}

/// The payload shape that literals of a datatype carry. This one
/// classification is what construction, parsing, equality, accessors and every
/// rendering branch on.
pub open spec fn shape_of(d: DataType) -> Shape {
    match d {
        DataType::AnyUri | DataType::IriReference => Shape::Iri,
        DataType::String
        | DataType::PlainLiteral
        | DataType::DateTime
        | DataType::Decimal
        | DataType::Duration => Shape::Text,
        DataType::Boolean => Shape::Boolean,
        DataType::Int
        | DataType::Integer
        | DataType::NegativeInteger
        | DataType::NonPositiveInteger
        | DataType::Long
        | DataType::Short => Shape::Signed,
        DataType::PositiveInteger
        | DataType::NonNegativeInteger
        | DataType::UnsignedByte
        | DataType::UnsignedInt
        | DataType::UnsignedShort
        | DataType::UnsignedLong => Shape::Unsigned,
        DataType::BlankNode => Shape::BlankNode,
        _ => Shape::Unsupported,
    }
}

/// The numeric identifiers are a bijection between the datatypes and 0 to 35.
pub proof fn law_datatype_id_round_trip(d: DataType)
    ensures
        datatype_with_id(id_of(d)) == Some(d),
        id_of(d) < 36,
{
}

/// The canonical IRIs are a partial bijection: the datatype read from a
/// datatype's canonical IRI is that datatype.
pub proof fn law_xsd_iri_round_trip(d: DataType)
    requires
        xsd_iri_of(d) is Some,
    ensures
        datatype_with_xsd_iri(xsd_iri_of(d).unwrap()) == Some(d),
{
    reveal_strlit("Unbound Value");
    reveal_strlit("Blank Node");
    reveal_strlit("IRI Reference");
    reveal_strlit("http://www.w3.org/2000/01/rdf-schema#Literal");
    reveal_strlit("http://www.w3.org/2001/XMLSchema#anyURI");
    reveal_strlit("http://www.w3.org/2001/XMLSchema#string");
    reveal_strlit("http://www.w3.org/2001/XMLSchema#boolean");
    reveal_strlit("http://www.w3.org/2001/XMLSchema#dateTime");
    reveal_strlit("http://www.w3.org/2001/XMLSchema#dateTimeStamp");
    reveal_strlit("http://www.w3.org/2001/XMLSchema#time");
    reveal_strlit("http://www.w3.org/2001/XMLSchema#date");
    reveal_strlit("http://www.w3.org/2001/XMLSchema#gYearMonth");
    reveal_strlit("http://www.w3.org/2001/XMLSchema#gYear");
    reveal_strlit("http://www.w3.org/2001/XMLSchema#gMonthDay");
    reveal_strlit("http://www.w3.org/2001/XMLSchema#gDay");
    reveal_strlit("http://www.w3.org/2001/XMLSchema#gMonth");
    reveal_strlit("http://www.w3.org/2001/XMLSchema#duration");
    reveal_strlit("http://www.w3.org/2001/XMLSchema#yearMonthDuration");
    reveal_strlit("http://www.w3.org/2001/XMLSchema#dayTimeDuration");
    reveal_strlit("http://www.w3.org/2001/XMLSchema#double");
    reveal_strlit("http://www.w3.org/2001/XMLSchema#float");
    reveal_strlit("http://www.w3.org/2001/XMLSchema#decimal");
    reveal_strlit("http://www.w3.org/2001/XMLSchema#integer");
    reveal_strlit("http://www.w3.org/2001/XMLSchema#nonNegativeInteger");
    reveal_strlit("http://www.w3.org/2001/XMLSchema#nonPositiveInteger");
    reveal_strlit("http://www.w3.org/2001/XMLSchema#negativeInteger");
    reveal_strlit("http://www.w3.org/2001/XMLSchema#long");
    reveal_strlit("http://www.w3.org/2001/XMLSchema#int");
    reveal_strlit("http://www.w3.org/2001/XMLSchema#short");
    reveal_strlit("http://www.w3.org/2001/XMLSchema#byte");
    reveal_strlit("http://www.w3.org/2001/XMLSchema#unsignedLong");
    reveal_strlit("http://www.w3.org/2001/XMLSchema#unsignedInt");
    reveal_strlit("http://www.w3.org/2001/XMLSchema#unsignedShort");
    reveal_strlit("http://www.w3.org/2001/XMLSchema#unsignedByte");
    assert("Unbound Value"@.len() == 13);
    assert("Blank Node"@.len() == 10);
    assert("IRI Reference"@.len() == 13);
    assert("http://www.w3.org/2000/01/rdf-schema#Literal"@.len() == 44);
    assert("http://www.w3.org/2001/XMLSchema#anyURI"@.len() == 39);
    assert("http://www.w3.org/2001/XMLSchema#string"@.len() == 39);
    assert("http://www.w3.org/2001/XMLSchema#boolean"@.len() == 40);
    assert("http://www.w3.org/2001/XMLSchema#dateTime"@.len() == 41);
    assert("http://www.w3.org/2001/XMLSchema#dateTimeStamp"@.len() == 46);
    assert("http://www.w3.org/2001/XMLSchema#time"@.len() == 37);
    assert("http://www.w3.org/2001/XMLSchema#date"@.len() == 37);
    assert("http://www.w3.org/2001/XMLSchema#gYearMonth"@.len() == 43);
    assert("http://www.w3.org/2001/XMLSchema#gYear"@.len() == 38);
    assert("http://www.w3.org/2001/XMLSchema#gMonthDay"@.len() == 42);
    assert("http://www.w3.org/2001/XMLSchema#gDay"@.len() == 37);
    assert("http://www.w3.org/2001/XMLSchema#gMonth"@.len() == 39);
    assert("http://www.w3.org/2001/XMLSchema#duration"@.len() == 41);
    assert("http://www.w3.org/2001/XMLSchema#yearMonthDuration"@.len() == 50);
    assert("http://www.w3.org/2001/XMLSchema#dayTimeDuration"@.len() == 48);
    assert("http://www.w3.org/2001/XMLSchema#double"@.len() == 39);
    assert("http://www.w3.org/2001/XMLSchema#float"@.len() == 38);
    assert("http://www.w3.org/2001/XMLSchema#decimal"@.len() == 40);
    assert("http://www.w3.org/2001/XMLSchema#integer"@.len() == 40);
    assert("http://www.w3.org/2001/XMLSchema#nonNegativeInteger"@.len() == 51);
    assert("http://www.w3.org/2001/XMLSchema#nonPositiveInteger"@.len() == 51);
    assert("http://www.w3.org/2001/XMLSchema#negativeInteger"@.len() == 48);
    assert("http://www.w3.org/2001/XMLSchema#long"@.len() == 37);
    assert("http://www.w3.org/2001/XMLSchema#int"@.len() == 36);
    assert("http://www.w3.org/2001/XMLSchema#short"@.len() == 38);
    assert("http://www.w3.org/2001/XMLSchema#byte"@.len() == 37);
    assert("http://www.w3.org/2001/XMLSchema#unsignedLong"@.len() == 45);
    assert("http://www.w3.org/2001/XMLSchema#unsignedInt"@.len() == 44);
    assert("http://www.w3.org/2001/XMLSchema#unsignedShort"@.len() == 46);
    assert("http://www.w3.org/2001/XMLSchema#unsignedByte"@.len() == 45);
    assert("IRI Reference"@[0] == 'I');
    assert("Unbound Value"@[0] == 'U');
    assert("http://www.w3.org/2000/01/rdf-schema#Literal"@[21] == '0');
    assert("http://www.w3.org/2001/XMLSchema#anyURI"@[33] == 'a');
    assert("http://www.w3.org/2001/XMLSchema#boolean"@[33] == 'b');
    assert("http://www.w3.org/2001/XMLSchema#byte"@[33] == 'b');
    assert("http://www.w3.org/2001/XMLSchema#date"@[33] == 'd');
    assert("http://www.w3.org/2001/XMLSchema#dateTime"@[34] == 'a');
    assert("http://www.w3.org/2001/XMLSchema#dateTimeStamp"@[33] == 'd');
    assert("http://www.w3.org/2001/XMLSchema#dayTimeDuration"@[33] == 'd');
    assert("http://www.w3.org/2001/XMLSchema#decimal"@[33] == 'd');
    assert("http://www.w3.org/2001/XMLSchema#double"@[33] == 'd');
    assert("http://www.w3.org/2001/XMLSchema#duration"@[34] == 'u');
    assert("http://www.w3.org/2001/XMLSchema#float"@[33] == 'f');
    assert("http://www.w3.org/2001/XMLSchema#gDay"@[33] == 'g');
    assert("http://www.w3.org/2001/XMLSchema#gMonth"@[33] == 'g');
    assert("http://www.w3.org/2001/XMLSchema#gYear"@[33] == 'g');
    assert("http://www.w3.org/2001/XMLSchema#integer"@[33] == 'i');
    assert("http://www.w3.org/2001/XMLSchema#long"@[33] == 'l');
    assert("http://www.w3.org/2001/XMLSchema#negativeInteger"@[33] == 'n');
    assert("http://www.w3.org/2001/XMLSchema#nonNegativeInteger"@[36] == 'N');
    assert("http://www.w3.org/2001/XMLSchema#nonPositiveInteger"@[36] == 'P');
    assert("http://www.w3.org/2001/XMLSchema#short"@[33] == 's');
    assert("http://www.w3.org/2001/XMLSchema#string"@[33] == 's');
    assert("http://www.w3.org/2001/XMLSchema#time"@[33] == 't');
    assert("http://www.w3.org/2001/XMLSchema#unsignedByte"@[41] == 'B');
    assert("http://www.w3.org/2001/XMLSchema#unsignedInt"@[21] == '1');
    assert("http://www.w3.org/2001/XMLSchema#unsignedLong"@[41] == 'L');
    assert("http://www.w3.org/2001/XMLSchema#unsignedShort"@[33] == 'u');
}

/// Text that holds the characters of `a` exactly when `b` does.
pub(crate) fn same_text(a: &str, b: &str) -> (r: bool)
    ensures
        r == (a@ == b@),
{
    a.to_owned() == b.to_owned()
}

impl Default for DataType {
    /// Boolean, the datatype of a default payload (boolean false).
    fn default() -> (r: DataType)
        ensures
            r == DataType::Boolean,
    {
        DataType::Boolean
    }
}

impl DataType {
    /// The datatype with the numeric identifier `data_type_id`.
    pub fn from_datatype_id(data_type_id: u8) -> (r: Result<DataType, RDFStoreError>)
        ensures
            match datatype_with_id(data_type_id) {
                Some(d) => r == Ok::<DataType, RDFStoreError>(d),
                None => r == Err::<DataType, RDFStoreError>(
                    RDFStoreError::UnknownDataType { data_type_id },
                ),
            },
    {
        match data_type_id {
            0 => Ok(DataType::UnboundValue),
            1 => Ok(DataType::BlankNode),
            2 => Ok(DataType::IriReference),
            3 => Ok(DataType::Literal),
            4 => Ok(DataType::AnyUri),
            5 => Ok(DataType::String),
            6 => Ok(DataType::PlainLiteral),
            7 => Ok(DataType::Boolean),
            8 => Ok(DataType::DateTime),
            9 => Ok(DataType::DateTimeStamp),
            10 => Ok(DataType::Time),
            11 => Ok(DataType::Date),
            12 => Ok(DataType::YearMonth),
            13 => Ok(DataType::Year),
            14 => Ok(DataType::MonthDay),
            15 => Ok(DataType::Day),
            16 => Ok(DataType::Month),
            17 => Ok(DataType::Duration),
            18 => Ok(DataType::YearMonthDuration),
            19 => Ok(DataType::DayTimeDuration),
            20 => Ok(DataType::Double),
            21 => Ok(DataType::Float),
            22 => Ok(DataType::Decimal),
            23 => Ok(DataType::Integer),
            24 => Ok(DataType::NonNegativeInteger),
            25 => Ok(DataType::NonPositiveInteger),
            26 => Ok(DataType::NegativeInteger),
            27 => Ok(DataType::PositiveInteger),
            28 => Ok(DataType::Long),
            29 => Ok(DataType::Int),
            30 => Ok(DataType::Short),
            31 => Ok(DataType::Byte),
            32 => Ok(DataType::UnsignedLong),
            33 => Ok(DataType::UnsignedInt),
            34 => Ok(DataType::UnsignedShort),
            35 => Ok(DataType::UnsignedByte),
            _ => Err(RDFStoreError::UnknownDataType { data_type_id }),
        }
    }

    /// The stable numeric identifier of this datatype.
    pub fn id(&self) -> (r: u8)
        ensures
            r == id_of(*self),
    {
        match self {
            DataType::UnboundValue => 0,
            DataType::BlankNode => 1,
            DataType::IriReference => 2,
            DataType::Literal => 3,
            DataType::AnyUri => 4,
            DataType::String => 5,
            DataType::PlainLiteral => 6,
            DataType::Boolean => 7,
            DataType::DateTime => 8,
            DataType::DateTimeStamp => 9,
            DataType::Time => 10,
            DataType::Date => 11,
            DataType::YearMonth => 12,
            DataType::Year => 13,
            DataType::MonthDay => 14,
            DataType::Day => 15,
            DataType::Month => 16,
            DataType::Duration => 17,
            DataType::YearMonthDuration => 18,
            DataType::DayTimeDuration => 19,
            DataType::Double => 20,
            DataType::Float => 21,
            DataType::Decimal => 22,
            DataType::Integer => 23,
            DataType::NonNegativeInteger => 24,
            DataType::NonPositiveInteger => 25,
            DataType::NegativeInteger => 26,
            DataType::PositiveInteger => 27,
            DataType::Long => 28,
            DataType::Int => 29,
            DataType::Short => 30,
            DataType::Byte => 31,
            DataType::UnsignedLong => 32,
            DataType::UnsignedInt => 33,
            DataType::UnsignedShort => 34,
            DataType::UnsignedByte => 35,
        }
    }

    /// The datatype whose canonical IRI is `iri`.
    pub fn from_xsd_iri(iri: &str) -> (r: Result<DataType, RDFStoreError>)
        ensures
            match datatype_with_xsd_iri(iri@) {
                Some(d) => r == Ok::<DataType, RDFStoreError>(d),
                None => match r {
                    Err(RDFStoreError::UnknownXsdDataType { data_type_iri }) => data_type_iri@ == iri@,
                    _ => false,
                },
            },
    {
        if same_text(iri, "Unbound Value") {
            Ok(DataType::UnboundValue)
        } else if same_text(iri, "Blank Node") {
            Ok(DataType::BlankNode)
        } else if same_text(iri, "IRI Reference") {
            Ok(DataType::IriReference)
        } else if same_text(iri, "http://www.w3.org/2000/01/rdf-schema#Literal") {
            Ok(DataType::Literal)
        } else if same_text(iri, "http://www.w3.org/2001/XMLSchema#anyURI") {
            Ok(DataType::AnyUri)
        } else if same_text(iri, "http://www.w3.org/2001/XMLSchema#string") {
            Ok(DataType::String)
        } else if same_text(iri, "http://www.w3.org/2001/XMLSchema#boolean") {
            Ok(DataType::Boolean)
        } else if same_text(iri, "http://www.w3.org/2001/XMLSchema#dateTime") {
            Ok(DataType::DateTime)
        } else if same_text(iri, "http://www.w3.org/2001/XMLSchema#dateTimeStamp") {
            Ok(DataType::DateTimeStamp)
        } else if same_text(iri, "http://www.w3.org/2001/XMLSchema#time") {
            Ok(DataType::Time)
        } else if same_text(iri, "http://www.w3.org/2001/XMLSchema#date") {
            Ok(DataType::Date)
        } else if same_text(iri, "http://www.w3.org/2001/XMLSchema#gYearMonth") {
            Ok(DataType::YearMonth)
        } else if same_text(iri, "http://www.w3.org/2001/XMLSchema#gYear") {
            Ok(DataType::Year)
        } else if same_text(iri, "http://www.w3.org/2001/XMLSchema#gMonthDay") {
            Ok(DataType::MonthDay)
        } else if same_text(iri, "http://www.w3.org/2001/XMLSchema#gDay") {
            Ok(DataType::Day)
        } else if same_text(iri, "http://www.w3.org/2001/XMLSchema#gMonth") {
            Ok(DataType::Month)
        } else if same_text(iri, "http://www.w3.org/2001/XMLSchema#duration") {
            Ok(DataType::Duration)
        } else if same_text(iri, "http://www.w3.org/2001/XMLSchema#yearMonthDuration") {
            Ok(DataType::YearMonthDuration)
        } else if same_text(iri, "http://www.w3.org/2001/XMLSchema#dayTimeDuration") {
            Ok(DataType::DayTimeDuration)
        } else if same_text(iri, "http://www.w3.org/2001/XMLSchema#double") {
            Ok(DataType::Double)
        } else if same_text(iri, "http://www.w3.org/2001/XMLSchema#float") {
            Ok(DataType::Float)
        } else if same_text(iri, "http://www.w3.org/2001/XMLSchema#decimal") {
            Ok(DataType::Decimal)
        } else if same_text(iri, "http://www.w3.org/2001/XMLSchema#integer") {
            Ok(DataType::Integer)
        } else if same_text(iri, "http://www.w3.org/2001/XMLSchema#nonNegativeInteger") {
            Ok(DataType::NonNegativeInteger)
        } else if same_text(iri, "http://www.w3.org/2001/XMLSchema#nonPositiveInteger") {
            Ok(DataType::NonPositiveInteger)
        } else if same_text(iri, "http://www.w3.org/2001/XMLSchema#negativeInteger") {
            Ok(DataType::NegativeInteger)
        } else if same_text(iri, "http://www.w3.org/2001/XMLSchema#long") {
            Ok(DataType::Long)
        } else if same_text(iri, "http://www.w3.org/2001/XMLSchema#int") {
            Ok(DataType::Int)
        } else if same_text(iri, "http://www.w3.org/2001/XMLSchema#short") {
            Ok(DataType::Short)
        } else if same_text(iri, "http://www.w3.org/2001/XMLSchema#byte") {
            Ok(DataType::Byte)
        } else if same_text(iri, "http://www.w3.org/2001/XMLSchema#unsignedLong") {
            Ok(DataType::UnsignedLong)
        } else if same_text(iri, "http://www.w3.org/2001/XMLSchema#unsignedInt") {
            Ok(DataType::UnsignedInt)
        } else if same_text(iri, "http://www.w3.org/2001/XMLSchema#unsignedShort") {
            Ok(DataType::UnsignedShort)
        } else if same_text(iri, "http://www.w3.org/2001/XMLSchema#unsignedByte") {
            Ok(DataType::UnsignedByte)
        } else {
            Err(RDFStoreError::UnknownXsdDataType { data_type_iri: iri.to_owned() })
        }
    }

    /// The canonical IRI of this datatype. Only datatypes that have one may ask.
    pub fn as_xsd_iri_str(&self) -> (r: &'static str)
        requires
            xsd_iri_of(*self) is Some,
        ensures
            xsd_iri_of(*self) == Some(r@),
    {
        match self {
            DataType::UnboundValue => "Unbound Value",
            DataType::BlankNode => "Blank Node",
            DataType::IriReference => "IRI Reference",
            DataType::Literal => "http://www.w3.org/2000/01/rdf-schema#Literal",
            DataType::AnyUri => "http://www.w3.org/2001/XMLSchema#anyURI",
            DataType::String => "http://www.w3.org/2001/XMLSchema#string",
            DataType::Boolean => "http://www.w3.org/2001/XMLSchema#boolean",
            DataType::DateTime => "http://www.w3.org/2001/XMLSchema#dateTime",
            DataType::DateTimeStamp => "http://www.w3.org/2001/XMLSchema#dateTimeStamp",
            DataType::Time => "http://www.w3.org/2001/XMLSchema#time",
            DataType::Date => "http://www.w3.org/2001/XMLSchema#date",
            DataType::YearMonth => "http://www.w3.org/2001/XMLSchema#gYearMonth",
            DataType::Year => "http://www.w3.org/2001/XMLSchema#gYear",
            DataType::MonthDay => "http://www.w3.org/2001/XMLSchema#gMonthDay",
            DataType::Day => "http://www.w3.org/2001/XMLSchema#gDay",
            DataType::Month => "http://www.w3.org/2001/XMLSchema#gMonth",
            DataType::Duration => "http://www.w3.org/2001/XMLSchema#duration",
            DataType::YearMonthDuration => "http://www.w3.org/2001/XMLSchema#yearMonthDuration",
            DataType::DayTimeDuration => "http://www.w3.org/2001/XMLSchema#dayTimeDuration",
            DataType::Double => "http://www.w3.org/2001/XMLSchema#double",
            DataType::Float => "http://www.w3.org/2001/XMLSchema#float",
            DataType::Decimal => "http://www.w3.org/2001/XMLSchema#decimal",
            DataType::Integer => "http://www.w3.org/2001/XMLSchema#integer",
            DataType::NonNegativeInteger => "http://www.w3.org/2001/XMLSchema#nonNegativeInteger",
            DataType::NonPositiveInteger => "http://www.w3.org/2001/XMLSchema#nonPositiveInteger",
            DataType::NegativeInteger => "http://www.w3.org/2001/XMLSchema#negativeInteger",
            DataType::Long => "http://www.w3.org/2001/XMLSchema#long",
            DataType::Int => "http://www.w3.org/2001/XMLSchema#int",
            DataType::Short => "http://www.w3.org/2001/XMLSchema#short",
            DataType::Byte => "http://www.w3.org/2001/XMLSchema#byte",
            DataType::UnsignedLong => "http://www.w3.org/2001/XMLSchema#unsignedLong",
            DataType::UnsignedInt => "http://www.w3.org/2001/XMLSchema#unsignedInt",
            DataType::UnsignedShort => "http://www.w3.org/2001/XMLSchema#unsignedShort",
            DataType::UnsignedByte => "http://www.w3.org/2001/XMLSchema#unsignedByte",
            _ => "",
        }
    }

    /// The name of this datatype, as a rendering shows it.
    pub fn name(&self) -> (r: &'static str)
        ensures
            r@ == name_of(*self),
    {
        match self {
            DataType::UnboundValue => "UnboundValue",
            DataType::BlankNode => "BlankNode",
            DataType::IriReference => "IriReference",
            DataType::Literal => "Literal",
            DataType::AnyUri => "AnyUri",
            DataType::String => "String",
            DataType::PlainLiteral => "PlainLiteral",
            DataType::Boolean => "Boolean",
            DataType::DateTime => "DateTime",
            DataType::DateTimeStamp => "DateTimeStamp",
            DataType::Time => "Time",
            DataType::Date => "Date",
            DataType::YearMonth => "YearMonth",
            DataType::Year => "Year",
            DataType::MonthDay => "MonthDay",
            DataType::Day => "Day",
            DataType::Month => "Month",
            DataType::Duration => "Duration",
            DataType::YearMonthDuration => "YearMonthDuration",
            DataType::DayTimeDuration => "DayTimeDuration",
            DataType::Double => "Double",
            DataType::Float => "Float",
            DataType::Decimal => "Decimal",
            DataType::Integer => "Integer",
            DataType::NonNegativeInteger => "NonNegativeInteger",
            DataType::NonPositiveInteger => "NonPositiveInteger",
            DataType::NegativeInteger => "NegativeInteger",
            DataType::PositiveInteger => "PositiveInteger",
            DataType::Long => "Long",
            DataType::Int => "Int",
            DataType::Short => "Short",
            DataType::Byte => "Byte",
            DataType::UnsignedLong => "UnsignedLong",
            DataType::UnsignedInt => "UnsignedInt",
            DataType::UnsignedShort => "UnsignedShort",
            DataType::UnsignedByte => "UnsignedByte",
        }
    }

    /// The payload shape of this datatype's literals.
    pub fn shape(&self) -> (r: Shape)
        ensures
            r == shape_of(*self),
    {
        match self {
            DataType::AnyUri | DataType::IriReference => Shape::Iri,
            DataType::String
            | DataType::PlainLiteral
            | DataType::DateTime
            | DataType::Decimal
            | DataType::Duration => Shape::Text,
            DataType::Boolean => Shape::Boolean,
            DataType::Int
            | DataType::Integer
            | DataType::NegativeInteger
            | DataType::NonPositiveInteger
            | DataType::Long
            | DataType::Short => Shape::Signed,
            DataType::PositiveInteger
            | DataType::NonNegativeInteger
            | DataType::UnsignedByte
            | DataType::UnsignedInt
            | DataType::UnsignedShort
            | DataType::UnsignedLong => Shape::Unsigned,
            DataType::BlankNode => Shape::BlankNode,
            _ => Shape::Unsupported,
        }
    }

    /// Whether this datatype is a plain string type.
    pub fn is_string(&self) -> (r: bool)
        ensures
            r == (*self is String || *self is PlainLiteral),
    {
        match self {
            DataType::String
            | DataType::PlainLiteral => true,
            _ => false,
        }
    }

    /// Whether this datatype is an IRI type.
    pub fn is_iri(&self) -> (r: bool)
        ensures
            r == (*self is AnyUri || *self is IriReference),
    {
        match self {
            DataType::AnyUri
            | DataType::IriReference => true,
            _ => false,
        }
    }

    /// Whether this datatype is a boolean type.
    pub fn is_boolean(&self) -> (r: bool)
        ensures
            r == (*self is Boolean),
    {
        match self {
            DataType::Boolean => true,
            _ => false,
        }
    }

    /// Whether this datatype is a date type.
    pub fn is_date(&self) -> (r: bool)
        ensures
            r == (*self is Date),
    {
        match self {
            DataType::Date => true,
            _ => false,
        }
    }

    /// Whether this datatype is a date-time type.
    pub fn is_date_time(&self) -> (r: bool)
        ensures
            r == (*self is DateTime),
    {
        match self {
            DataType::DateTime => true,
            _ => false,
        }
    }

    /// Whether this datatype is a decimal type.
    pub fn is_decimal(&self) -> (r: bool)
        ensures
            r == (*self is Decimal),
    {
        match self {
            DataType::Decimal => true,
            _ => false,
        }
    }

    /// Whether this datatype is a date-time stamp type.
    pub fn is_date_time_stamp(&self) -> (r: bool)
        ensures
            r == (*self is DateTimeStamp),
    {
        match self {
            DataType::DateTimeStamp => true,
            _ => false,
        }
    }

    /// Whether this datatype is a duration type.
    pub fn is_duration(&self) -> (r: bool)
        ensures
            r == (*self is Duration),
    {
        match self {
            DataType::Duration => true,
            _ => false,
        }
    }

    /// Whether this datatype is a signed integer type.
    pub fn is_signed_integer(&self) -> (r: bool)
        ensures
            r == (*self is Int || *self is Integer || *self is NegativeInteger || *self is NonPositiveInteger || *self is Long || *self is Short),
    {
        match self {
            DataType::Int
            | DataType::Integer
            | DataType::NegativeInteger
            | DataType::NonPositiveInteger
            | DataType::Long
            | DataType::Short => true,
            _ => false,
        }
    }

    /// Whether this datatype is an unsigned integer type.
    pub fn is_unsigned_integer(&self) -> (r: bool)
        ensures
            r == (*self is PositiveInteger || *self is NonNegativeInteger || *self is UnsignedByte || *self is UnsignedInt || *self is UnsignedShort || *self is UnsignedLong),
    {
        match self {
            DataType::PositiveInteger
            | DataType::NonNegativeInteger
            | DataType::UnsignedByte
            | DataType::UnsignedInt
            | DataType::UnsignedShort
            | DataType::UnsignedLong => true,
            _ => false,
        }
    }

    /// Whether this datatype is a blank node type.
    pub fn is_blank_node(&self) -> (r: bool)
        ensures
            r == (*self is BlankNode),
    {
        match self {
            DataType::BlankNode => true,
            _ => false,
        }
    }

}

} // verus!