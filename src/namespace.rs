use vstd::prelude::*;

use crate::error::{RDFStoreError, invalid_iri_error};
use crate::iri::{check_iri, iri_is_valid};

verus! {

/// The content of a namespace: its short name (such as `rdf:`) and its IRI.
pub struct NamespaceModel {
    pub name: Seq<char>,
    pub iri: Seq<char>,
}

/// `iri` as a namespace IRI: unchanged when it ends with `/` or `#`, and
/// otherwise with a `/` added.
pub open spec fn namespace_iri(iri: Seq<char>) -> Seq<char> {
    if iri.len() > 0 && (iri.last() == '/' || iri.last() == '#') {
        iri
    } else {
        iri + "/"@
    }
}

/// Whether `iri` can be the IRI of a namespace: a valid IRI that ends with
/// `/` or `#`.
pub open spec fn namespace_iri_fits(iri: Seq<char>) -> bool {
    iri_is_valid(iri) && iri.len() > 0 && (iri.last() == '/' || iri.last() == '#')
}

/// Builds a namespace IRI from `iri`; fails when `iri`, or the namespace IRI
/// made of it, is not a valid IRI.
pub(crate) fn namespace_iri_of(iri: &str) -> (r: Result<String, RDFStoreError>)
    ensures
        match r {
            Ok(s) => iri_is_valid(iri@) && namespace_iri_fits(namespace_iri(iri@)) && s@
                == namespace_iri(iri@),
            Err(e) => !(iri_is_valid(iri@) && iri_is_valid(namespace_iri(iri@))) && invalid_iri_error(e, iri@),
        },
{
    if !check_iri(iri) {
        return Err(RDFStoreError::InvalidIri { value: iri.to_owned() });
    }
    let n = iri.unicode_len();
    let ends_well = n > 0 && {
        let c = iri.get_char(n - 1);
        c == '/' || c == '#'
    };
    if ends_well {
        Ok(iri.to_owned())
    } else {
        proof {
            reveal_strlit("/");
        }
        let full = iri.to_owned().concat("/");
        assert((iri@ + "/"@).last() == '/');
        if check_iri(full.as_str()) {
            Ok(full)
        } else {
            Err(RDFStoreError::InvalidIri { value: iri.to_owned() })
        }
    }
}

/// The IRI of a local name within a namespace IRI; fails when the result is
/// not a valid IRI.
pub(crate) fn join_local_name(base: &str, local_name: &str) -> (r: Result<String, RDFStoreError>)
    ensures
        match r {
            Ok(s) => s@ == base@ + local_name@ && iri_is_valid(s@),
            Err(e) => !iri_is_valid(base@ + local_name@) && invalid_iri_error(e, base@ + local_name@),
        },
{
    let full = base.to_owned().concat(local_name);
    if check_iri(full.as_str()) {
        Ok(full)
    } else {
        Err(RDFStoreError::InvalidIri { value: full })
    }
}

/// A namespace IRI that can also be shown by a short name, a "prefix": the
/// namespace `<http://www.w3.org/1999/02/22-rdf-syntax-ns#>` can be shown as
/// `rdf:`, and its local name `type` as `rdf:type`.
#[derive(Debug)]
pub struct Namespace {
    name: String,
    iri: String,
}

impl View for Namespace {
    type V = NamespaceModel;

    closed spec fn view(&self) -> NamespaceModel {
        NamespaceModel { name: self.name@, iri: self.iri@ }
    }
}

impl Clone for Namespace {
    fn clone(&self) -> (r: Namespace)
        ensures
            r@ == self@,
    {
        proof {
            use_type_invariant(self);
        }
        Namespace { name: self.name.clone(), iri: self.iri.clone() }
    }
}

impl Namespace {
    #[verifier::type_invariant]
    spec fn inv(&self) -> bool {
        namespace_iri_fits(self.iri@)
    }

    /// The namespace named `name` (which ends with `:`) with IRI `iri`, to
    /// which a `/` is added unless it ends with `/` or `#`.
    pub fn declare(name: &str, iri: &str) -> (r: Result<Namespace, RDFStoreError>)
        ensures
            match r {
                Ok(ns) => iri_is_valid(iri@) && ns@ == (NamespaceModel {
                    name: name@,
                    iri: namespace_iri(iri@),
                }),
                Err(e) => !(iri_is_valid(iri@) && iri_is_valid(namespace_iri(iri@))) && invalid_iri_error(e, iri@),
            },
    {
        match namespace_iri_of(iri) {
            Ok(s) => Ok(Namespace { name: name.to_owned(), iri: s }),
            Err(e) => Err(e),
        }
    }

    /// The same as [`Namespace::declare`].
    pub fn declare_from_str(name: &str, iri: &str) -> (r: Result<Namespace, RDFStoreError>)
        ensures
            match r {
                Ok(ns) => iri_is_valid(iri@) && ns@ == (NamespaceModel {
                    name: name@,
                    iri: namespace_iri(iri@),
                }),
                Err(e) => !(iri_is_valid(iri@) && iri_is_valid(namespace_iri(iri@))) && invalid_iri_error(e, iri@),
            },
    {
        Namespace::declare(name, iri)
    }

    /// The short name, such as `rdf:`.
    pub fn name(&self) -> (r: &str)
        ensures
            r@ == self@.name,
    {
        self.name.as_str()
    }

    /// The namespace IRI; it ends with `/` or `#`.
    pub fn iri(&self) -> (r: &str)
        ensures
            r@ == self@.iri,
            namespace_iri_fits(r@),
    {
        proof {
            use_type_invariant(self);
        }
        self.iri.as_str()
    }

    /// The IRI of `name` within this namespace.
    pub fn with_local_name(&self, name: &str) -> (r: Result<String, RDFStoreError>)
        ensures
            match r {
                Ok(s) => s@ == self@.iri + name@ && iri_is_valid(s@),
                Err(e) => !iri_is_valid(self@.iri + name@) && invalid_iri_error(e, self@.iri + name@),
            },
    {
        join_local_name(self.iri.as_str(), name)
    }

    /// The namespace as `name <iri>`.
    pub fn display(&self) -> (r: String)
        ensures
            r@ == self@.name + " <"@ + self@.iri + ">"@,
    {
        let mut out = self.name.clone();
        out.append(" <");
        out.append(self.iri.as_str());
        out.append(">");
        out
    }
}

} // verus!
