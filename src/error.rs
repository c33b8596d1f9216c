use vstd::prelude::*;

use crate::data_type::DataType;

verus! {

/// What can go wrong when a literal or a datatype is made from outside data.
#[derive(Debug)]
pub enum RDFStoreError {
    /// A failure with nothing more to say.
    Unknown,
    /// A failure while doing `action`.
    Exception { action: String, message: String },
    /// No datatype has this numeric identifier.
    UnknownDataType { data_type_id: u8 },
    /// The text is not a value of the datatype, or the datatype has no literals.
    UnknownValueForDataType { data_type: DataType, value: String },
    /// No datatype has this canonical IRI.
    UnknownXsdDataType { data_type_iri: String },
    /// The text is not a boolean in N-Triples notation.
    UnknownNTriplesValue { value: String },
    /// The text is not a valid IRI.
    InvalidIri { value: String },
    /// The text is not an integer that the datatype's payload can hold.
    ParseIntError { value: String },
    /// The prefix name is not usable.
    InvalidPrefixName,
    /// The literal value is not usable.
    InvalidLiteral,
}

/// Whether `e` reports that the text `s` is not a valid IRI.
pub open spec fn invalid_iri_error(e: RDFStoreError, s: Seq<char>) -> bool {
    match e {
        RDFStoreError::InvalidIri { value } => value@ == s,
        _ => false,
    }
}

} // verus!
