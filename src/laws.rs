use vstd::prelude::*;

use crate::data_type::DataType;
use crate::literal::{
    Literal, LiteralModel, boolean_text, parsed, plain_text, scalar_text, well_formed,
};
use crate::number::{lemma_i64_text_round_trip, lemma_u64_text_round_trip};
use crate::value::ValueModel;
use vstd::std_specs::cmp::PartialEqSpec;

verus! {

/// The lexical form of a literal's payload: the text that a text, IRI or blank
/// node literal holds, and the bare text of a boolean or integer.
pub open spec fn lexical_text(m: LiteralModel) -> Seq<char> {
    match m.value {
        ValueModel::Iri(s) => s,
        ValueModel::Text(s) => s,
        ValueModel::BlankNode(s) => s,
        _ => scalar_text(m.value),
    }
}

/// Reading the lexical form of any literal as its own datatype gives back the
/// literal that the matching constructor builds.
pub proof fn law_parse_round_trip(m: LiteralModel)
    requires
        well_formed(m),
    ensures
        parsed(m.data_type, lexical_text(m)) == Some(Some(m.value)),
{
    match m.value {
        ValueModel::Boolean(b) => {
            reveal_strlit("true");
            reveal_strlit("false");
            assert(boolean_text(false) != boolean_text(true)) by {
                assert(boolean_text(false).len() != boolean_text(true).len());
            }
        },
        ValueModel::Signed(v) => lemma_i64_text_round_trip(v),
        ValueModel::Unsigned(n) => lemma_u64_text_round_trip(n),
        _ => {},
    }
}

/// The plain rendering of a boolean or integer literal, read back as the
/// literal's datatype, gives back the same literal.
pub proof fn law_plain_rendering_round_trip(m: LiteralModel)
    requires
        well_formed(m),
        m.value is Boolean || m.value is Signed || m.value is Unsigned,
    ensures
        parsed(m.data_type, plain_text(m)) == Some(Some(m.value)),
{
    law_parse_round_trip(m);
}

/// Reading any text as the unbound datatype gives no literal, and no error.
pub proof fn law_unbound_value_is_no_literal(text: Seq<char>)
    ensures
        parsed(DataType::UnboundValue, text) == Some(None::<ValueModel>),
{
}

/// Literal equality is reflexive, symmetric and transitive, and literals of
/// different datatypes are never equal.
pub proof fn law_equality(a: Literal, b: Literal, c: Literal)
    ensures
        a.eq_spec(&a),
        a.eq_spec(&b) == b.eq_spec(&a),
        a.eq_spec(&b) && b.eq_spec(&c) ==> a.eq_spec(&c),
        a@.data_type != b@.data_type ==> !a.eq_spec(&b),
{
}

} // verus!
