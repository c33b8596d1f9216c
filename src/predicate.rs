use vstd::prelude::*;

use crate::namespace::Namespace;

verus! {

/// A predicate: a local name within a namespace.
pub struct Predicate<'a> {
    pub namespace: &'a Namespace,
    pub local_name: String,
}

impl<'a> Predicate<'a> {
    /// The predicate `local_name` within `namespace`.
    pub fn declare(namespace: &'a Namespace, local_name: &str) -> (r: Predicate<'a>)
        ensures
            r.namespace@ == namespace@,
            r.local_name@ == local_name@,
    {
        Predicate { namespace, local_name: local_name.to_owned() }
    }

    /// The predicate as a full IRI between angle brackets.
    pub fn display(&self) -> (r: String)
        ensures
            r@ == "<"@ + self.namespace@.iri + self.local_name@ + ">"@,
    {
        let mut out = String::from_str("<");
        out.append(self.namespace.iri());
        out.append(self.local_name.as_str());
        out.append(">");
        out
    }

    /// The predicate in Turtle's prefixed form, such as `rdf:type`.
    pub fn display_turtle(&self) -> (r: String)
        ensures
            r@ == self.namespace@.name + self.local_name@,
    {
        let mut out = String::from_str(self.namespace.name());
        out.append(self.local_name.as_str());
        out
    }
}

} // verus!
