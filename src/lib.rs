//! Typed RDF literal values: a closed vocabulary of XSD/RDF datatypes, a
//! literal that pairs a datatype with a payload of the matching shape, parsing
//! from lexical text, typed accessors and three textual renderings.

pub mod data_type;
pub mod error;
pub mod iri;
pub mod number;
pub mod value;
pub mod literal;
pub mod json;
pub mod laws;
pub mod namespace;
pub mod prefix;
pub mod predicate;
pub mod class;
pub mod graph;

pub use data_type::{DataType, Shape};
pub use error::RDFStoreError;
pub use literal::{Literal, LiteralModel, LiteralUrlDisplay};
pub use namespace::{Namespace, NamespaceModel};
pub use prefix::Prefix;
pub use predicate::Predicate;
pub use class::Class;
pub use graph::{Graph, GraphDisplayIRI};
pub use value::{LiteralValue, ValueModel};
