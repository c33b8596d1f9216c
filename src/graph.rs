use vstd::prelude::*;

use crate::data_type::DataType;
use crate::error::{RDFStoreError, invalid_iri_error};
use crate::iri::iri_is_valid;
use crate::literal::{Literal, LiteralModel};
use crate::namespace::Namespace;
use crate::value::ValueModel;

verus! {

/// A named graph identifier: a local name within a namespace.
pub struct Graph {
    pub namespace: Namespace,
    pub local_name: String,
}

impl Clone for Graph {
    fn clone(&self) -> (r: Graph)
        ensures
            r.namespace@ == self.namespace@,
            r.local_name@ == self.local_name@,
    {
        Graph { namespace: self.namespace.clone(), local_name: self.local_name.clone() }
    }
}

/// A graph shown as its full IRI between angle brackets.
pub struct GraphDisplayIRI<'a> {
    pub graph: &'a Graph,
}

impl Graph {
    /// The graph `local_name` within `namespace`.
    pub fn declare(namespace: Namespace, local_name: &str) -> (r: Graph)
        ensures
            r.namespace@ == namespace@,
            r.local_name@ == local_name@,
    {
        Graph { namespace, local_name: local_name.to_owned() }
    }

    /// The graph of a test dataset read from the file `file_name`: its local
    /// name is `test-` followed by the file name.
    pub fn test_dataset_from_file_name(namespace: Namespace, file_name: &str) -> (r: Graph)
        ensures
            r.namespace@ == namespace@,
            r.local_name@ == "test-"@ + file_name@,
    {
        let local_name = String::from_str("test-").concat(file_name);
        Graph { namespace, local_name }
    }

    /// The full IRI of the graph; fails when it is not a valid IRI.
    pub fn as_iri_buf(&self) -> (r: Result<String, RDFStoreError>)
        ensures
            match r {
                Ok(s) => s@ == self.namespace@.iri + self.local_name@ && iri_is_valid(s@),
                Err(e) => !iri_is_valid(self.namespace@.iri + self.local_name@)
                    && invalid_iri_error(e, self.namespace@.iri + self.local_name@),
            },
    {
        self.namespace.with_local_name(self.local_name.as_str())
    }

    /// A view of the graph that shows its full IRI.
    pub fn as_display_iri(&self) -> (r: GraphDisplayIRI)
        ensures
            r.graph == self,
    {
        GraphDisplayIRI { graph: self }
    }

    /// The graph's IRI as an IRI reference literal.
    pub fn as_lexical_value(&self) -> (r: Result<Literal, RDFStoreError>)
        ensures
            match r {
                Ok(l) => l@ == (LiteralModel {
                    data_type: DataType::IriReference,
                    value: ValueModel::Iri(self.namespace@.iri + self.local_name@),
                }),
                Err(e) => !iri_is_valid(self.namespace@.iri + self.local_name@)
                    && invalid_iri_error(e, self.namespace@.iri + self.local_name@),
            },
    {
        match self.as_iri_buf() {
            Ok(iri) => Literal::new_iri(iri.as_str(), DataType::IriReference),
            Err(e) => Err(e),
        }
    }

    /// The graph in prefixed form, such as `graph:dataset`.
    pub fn display(&self) -> (r: String)
        ensures
            r@ == self.namespace@.name + self.local_name@,
    {
        let mut out = String::from_str(self.namespace.name());
        out.append(self.local_name.as_str());
        out
    }
}

impl<'a> GraphDisplayIRI<'a> {
    /// The graph's full IRI between angle brackets.
    pub fn display(&self) -> (r: String)
        ensures
            r@ == "<"@ + self.graph.namespace@.iri + self.graph.local_name@ + ">"@,
    {
        let mut out = String::from_str("<");
        out.append(self.graph.namespace.iri());
        out.append(self.graph.local_name.as_str());
        out.append(">");
        out
    }
}

} // verus!
