use vstd::prelude::*;

use crate::data_type::same_text;
use crate::error::{RDFStoreError, invalid_iri_error};
use crate::iri::iri_is_valid;
use crate::literal::{Literal, plain_text};
use crate::namespace::join_local_name;
use crate::prefix::Prefix;
use crate::value::ValueModel;

verus! {

/// A class: a local name within the namespace of a prefix.
pub struct Class {
    pub prefix: Prefix,
    pub local_name: String,
}

impl Clone for Class {
    fn clone(&self) -> (r: Class)
        ensures
            r.prefix@ == self.prefix@,
            r.local_name@ == self.local_name@,
    {
        Class { prefix: self.prefix.clone(), local_name: self.local_name.clone() }
    }
}

impl Class {
    /// The class `local_name` within the namespace of `prefix`.
    pub fn declare(prefix: Prefix, local_name: &str) -> (r: Class)
        ensures
            r.prefix@ == prefix@,
            r.local_name@ == local_name@,
    {
        Class { prefix, local_name: local_name.to_owned() }
    }

    /// The full IRI of the class; fails when it is not a valid IRI.
    pub fn as_iri(&self) -> (r: Result<String, RDFStoreError>)
        ensures
            match r {
                Ok(s) => s@ == self.prefix@.iri + self.local_name@ && iri_is_valid(s@),
                Err(e) => !iri_is_valid(self.prefix@.iri + self.local_name@) && invalid_iri_error(
                    e,
                    self.prefix@.iri + self.local_name@,
                ),
            },
    {
        join_local_name(self.prefix.iri(), self.local_name.as_str())
    }

    /// The class in prefixed form, such as `owl:Thing`.
    pub fn display(&self) -> (r: String)
        ensures
            r@ == self.prefix@.name + self.local_name@,
    {
        let mut out = String::from_str(self.prefix.name());
        out.append(self.local_name.as_str());
        out
    }

    /// The class in Turtle's prefixed form, the same as [`Class::display`].
    pub fn display_turtle(&self) -> (r: String)
        ensures
            r@ == self.prefix@.name + self.local_name@,
    {
        self.display()
    }

    /// The local name with an `s` added.
    pub fn plural_label(&self) -> (r: String)
        ensures
            r@ == self.local_name@ + "s"@,
    {
        self.local_name.clone().concat("s")
    }

    /// Whether `literal` is an IRI literal that names this class: its IRI is
    /// the class's IRI, or, where that is not a valid IRI, its plain rendering
    /// is the class's prefixed form.
    pub fn is_literal(&self, literal: &Literal) -> (r: bool)
        ensures
            r == match literal@.value {
                ValueModel::Iri(t) => if iri_is_valid(self.prefix@.iri + self.local_name@) {
                    t == self.prefix@.iri + self.local_name@
                } else {
                    plain_text(literal@) == self.prefix@.name + self.local_name@
                },
                _ => false,
            },
    {
        match literal.as_iri() {
            Some(that_iri) => match self.as_iri() {
                Ok(this_iri) => same_text(that_iri, this_iri.as_str()),
                Err(_) => {
                    let that = literal.render_plain();
                    let this = self.display();
                    that == this
                },
            },
            None => false,
        }
    }
}

} // verus!
