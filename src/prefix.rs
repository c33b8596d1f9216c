use vstd::prelude::*;

use crate::error::{RDFStoreError, invalid_iri_error};
use crate::iri::iri_is_valid;
use crate::namespace::{
    NamespaceModel, join_local_name, namespace_iri, namespace_iri_fits, namespace_iri_of,
};

verus! {

/// A short name (such as `owl:`) for a namespace IRI, used to write the IRIs
/// of classes.
#[derive(Debug)]
pub struct Prefix {
    name: String,
    iri: String,
}

impl View for Prefix {
    type V = NamespaceModel;

    closed spec fn view(&self) -> NamespaceModel {
        NamespaceModel { name: self.name@, iri: self.iri@ }
    }
}

impl Clone for Prefix {
    fn clone(&self) -> (r: Prefix)
        ensures
            r@ == self@,
    {
        proof {
            use_type_invariant(self);
        }
        Prefix { name: self.name.clone(), iri: self.iri.clone() }
    }
}

impl Prefix {
    #[verifier::type_invariant]
    spec fn inv(&self) -> bool {
        namespace_iri_fits(self.iri@)
    }

    /// The prefix `name` (which ends with `:`) with IRI `iri`, to
    /// which a `/` is added unless it ends with `/` or `#`.
    pub fn declare(name: &str, iri: &str) -> (r: Result<Prefix, RDFStoreError>)
        ensures
            match r {
                Ok(ns) => iri_is_valid(iri@) && ns@ == (NamespaceModel {
                    name: name@,
                    iri: namespace_iri(iri@),
                }),
                Err(e) => !(iri_is_valid(iri@) && iri_is_valid(namespace_iri(iri@))) && invalid_iri_error(e, iri@),
            },
    {
        match namespace_iri_of(iri) {
            Ok(s) => Ok(Prefix { name: name.to_owned(), iri: s }),
            Err(e) => Err(e),
        }
    }

    /// The same as [`Prefix::declare`].
    pub fn declare_from_str(name: &str, iri: &str) -> (r: Result<Prefix, RDFStoreError>)
        ensures
            match r {
                Ok(ns) => iri_is_valid(iri@) && ns@ == (NamespaceModel {
                    name: name@,
                    iri: namespace_iri(iri@),
                }),
                Err(e) => !(iri_is_valid(iri@) && iri_is_valid(namespace_iri(iri@))) && invalid_iri_error(e, iri@),
            },
    {
        Prefix::declare(name, iri)
    }

    /// The short name, such as `rdf:`.
    pub fn name(&self) -> (r: &str)
        ensures
            r@ == self@.name,
    {
        self.name.as_str()
    }

    /// The namespace IRI; it ends with `/` or `#`.
    pub fn iri(&self) -> (r: &str)
        ensures
            r@ == self@.iri,
            namespace_iri_fits(r@),
    {
        proof {
            use_type_invariant(self);
        }
        self.iri.as_str()
    }

    /// The IRI of `name` within this prefix's namespace.
    pub fn with_local_name(&self, name: &str) -> (r: Result<String, RDFStoreError>)
        ensures
            match r {
                Ok(s) => s@ == self@.iri + name@ && iri_is_valid(s@),
                Err(e) => !iri_is_valid(self@.iri + name@) && invalid_iri_error(e, self@.iri + name@),
            },
    {
        join_local_name(self.iri.as_str(), name)
    }

    /// The prefix as `name <iri>`.
    pub fn display(&self) -> (r: String)
        ensures
            r@ == self@.name + " <"@ + self@.iri + ">"@,
    {
        let mut out = self.name.clone();
        out.append(" <");
        out.append(self.iri.as_str());
        out.append(">");
        out
    }
}

} // verus!
