use vstd::prelude::*;

verus! {

/// The payload of a literal: exactly one value shape. Which shape is valid is
/// decided by the literal's datatype (see [`crate::Shape`]).
#[derive(Debug, Hash)]
pub enum LiteralValue {
    Iri(String),
    String(String),
    Boolean(bool),
    UnsignedInteger(u64),
    SignedInteger(i64),
    BlankNode(String),
}

/// The mathematical content of a payload.
pub enum ValueModel {
    Iri(Seq<char>),
    Text(Seq<char>),
    Boolean(bool),
    Unsigned(u64),
    Signed(i64),
    BlankNode(Seq<char>),
}

impl View for LiteralValue {
    type V = ValueModel;

    open spec fn view(&self) -> ValueModel {
        match self {
            LiteralValue::Iri(s) => ValueModel::Iri(s@),
            LiteralValue::String(s) => ValueModel::Text(s@),
            LiteralValue::Boolean(b) => ValueModel::Boolean(*b),
            LiteralValue::UnsignedInteger(n) => ValueModel::Unsigned(*n),
            LiteralValue::SignedInteger(v) => ValueModel::Signed(*v),
            LiteralValue::BlankNode(s) => ValueModel::BlankNode(s@),
        }
    }
}

impl Default for LiteralValue {
    /// The boolean false.
    fn default() -> (r: LiteralValue)
        ensures
            r@ == ValueModel::Boolean(false),
    {
        LiteralValue::Boolean(false)
    }
}

impl Clone for LiteralValue {
    /// A copy that owns its own text.
    fn clone(&self) -> (r: LiteralValue)
        ensures
            r@ == self@,
    {
        match self {
            LiteralValue::Iri(s) => LiteralValue::Iri(s.clone()),
            LiteralValue::String(s) => LiteralValue::String(s.clone()),
            LiteralValue::Boolean(b) => LiteralValue::Boolean(*b),
            LiteralValue::UnsignedInteger(n) => LiteralValue::UnsignedInteger(*n),
            LiteralValue::SignedInteger(v) => LiteralValue::SignedInteger(*v),
            LiteralValue::BlankNode(s) => LiteralValue::BlankNode(s.clone()),
        }
    }
}

impl LiteralValue {
    /// A text payload holding a copy of `str`.
    pub fn new_string(str: &str) -> (r: LiteralValue)
        ensures
            r@ == ValueModel::Text(str@),
    {
        LiteralValue::String(str.to_owned())
    }

    /// An IRI payload holding a copy of `iri`.
    pub fn new_iri(iri: &str) -> (r: LiteralValue)
        ensures
            r@ == ValueModel::Iri(iri@),
    {
        LiteralValue::Iri(iri.to_owned())
    }

    /// A boolean payload.
    pub fn new_boolean(boolean: bool) -> (r: LiteralValue)
        ensures
            r@ == ValueModel::Boolean(boolean),
    {
        LiteralValue::Boolean(boolean)
    }

    /// An unsigned integer payload.
    pub fn new_unsigned_integer(unsigned_integer: u64) -> (r: LiteralValue)
        ensures
            r@ == ValueModel::Unsigned(unsigned_integer),
    {
        LiteralValue::UnsignedInteger(unsigned_integer)
    }

    /// A signed integer payload.
    pub fn new_signed_integer(signed_integer: i64) -> (r: LiteralValue)
        ensures
            r@ == ValueModel::Signed(signed_integer),
    {
        LiteralValue::SignedInteger(signed_integer)
    }

    /// A blank node payload holding a copy of `blank_node`.
    pub fn new_blank_node(blank_node: &str) -> (r: LiteralValue)
        ensures
            r@ == ValueModel::BlankNode(blank_node@),
    {
        LiteralValue::BlankNode(blank_node.to_owned())
    }
}

} // verus!
