use vstd::prelude::*;

use crate::data_type::{DataType, Shape, name_of, shape_of, same_text};
use crate::json::{json_escaped, push_json_escaped};
use crate::error::RDFStoreError;
use crate::iri::{check_iri, iri_is_valid};
use crate::number::{
    decimal_text, i64_of_text, parse_i64, parse_u64, push_decimal, push_signed_decimal,
    signed_decimal_text, u64_of_text,
};
use crate::value::{LiteralValue, ValueModel};

verus! {

/// `s` percent-encoded for use in a URL.
pub uninterp spec fn url_encoded(s: Seq<char>) -> Seq<char>;

/// Whether `c` is one of the characters that percent-encoding leaves as it is:
/// an ASCII letter or digit, `-`, `.`, `_` or `~`.
pub open spec fn is_url_safe(c: char) -> bool {
    ('0' <= c && c <= '9') || ('A' <= c && c <= 'Z') || ('a' <= c && c <= 'z') || c == '-'
        || c == '.' || c == '_' || c == '~'
}

/// Relies on `urlencoding::encode`: it percent-encodes each byte of the UTF-8
/// text except ASCII letters, digits and `-`, `.`, `_`, `~`, so the result
/// depends on the text alone, and a text made only of those characters comes
/// back unchanged.
#[verifier::external_body]
fn url_encode(s: &str) -> (r: String)
    ensures
        r@ == url_encoded(s@),
        (forall|i: int| 0 <= i < s@.len() ==> is_url_safe(#[trigger] s@[i])) ==> r@ == s@,
{
    urlencoding::encode(s).into_owned()
}

/// The mathematical content of a literal.
pub struct LiteralModel {
    pub data_type: DataType,
    pub value: ValueModel,
}

/// Whether payload `v` has the shape that datatype `d` asks for; an IRI must
/// also be valid.
pub open spec fn shape_fits(d: DataType, v: ValueModel) -> bool {
    match v {
        ValueModel::Iri(s) => shape_of(d) == Shape::Iri && iri_is_valid(s),
        ValueModel::Text(_) => shape_of(d) == Shape::Text,
        ValueModel::Boolean(_) => shape_of(d) == Shape::Boolean,
        ValueModel::Signed(_) => shape_of(d) == Shape::Signed,
        ValueModel::Unsigned(_) => shape_of(d) == Shape::Unsigned,
        ValueModel::BlankNode(_) => shape_of(d) == Shape::BlankNode,
    }
}

/// Whether `m` is the content of some literal.
pub open spec fn well_formed(m: LiteralModel) -> bool {
    shape_fits(m.data_type, m.value)
}

/// The outcome of reading `s` as a value of datatype `d`: `None` when the text
/// is rejected, `Some(None)` when the datatype stands for no value, and
/// `Some(Some(v))` for the payload `v`.
pub open spec fn parsed(d: DataType, s: Seq<char>) -> Option<Option<ValueModel>> {
    match shape_of(d) {
        Shape::Iri => if iri_is_valid(s) {
            Some(Some(ValueModel::Iri(s)))
        } else {
            None
        },
        Shape::Text => Some(Some(ValueModel::Text(s))),
        Shape::BlankNode => Some(Some(ValueModel::BlankNode(s))),
        Shape::Boolean => if s == "true"@ {
            Some(Some(ValueModel::Boolean(true)))
        } else if s == "false"@ {
            Some(Some(ValueModel::Boolean(false)))
        } else {
            None
        },
        Shape::Signed => match i64_of_text(s) {
            Some(v) => Some(Some(ValueModel::Signed(v))),
            None => None,
        },
        Shape::Unsigned => match u64_of_text(s) {
            Some(n) => Some(Some(ValueModel::Unsigned(n))),
            None => None,
        },
        Shape::Unsupported => if d is UnboundValue {
            Some(None)
        } else {
            None
        },
    }
}

/// Whether `e` is the error that reading `s` as datatype `d` reports.
pub open spec fn parse_error_fits(d: DataType, s: Seq<char>, e: RDFStoreError) -> bool {
    match e {
        RDFStoreError::InvalidIri { value } => shape_of(d) == Shape::Iri && value@ == s,
        RDFStoreError::UnknownNTriplesValue { value } => shape_of(d) == Shape::Boolean && value@
            == s,
        RDFStoreError::ParseIntError { value } => (shape_of(d) == Shape::Signed || shape_of(d)
            == Shape::Unsigned) && value@ == s,
        RDFStoreError::UnknownValueForDataType { data_type, value } => shape_of(d)
            == Shape::Unsupported && data_type == d && value@ == s,
        _ => false,
    }
}

/// The position of the last `/` or `#` in `s`, or -1 when it holds neither.
pub open spec fn last_separator(s: Seq<char>) -> int
    decreases s.len(),
{
    if s.len() == 0 {
        -1
    } else if s.last() == '/' || s.last() == '#' {
        s.len() - 1
    } else {
        last_separator(s.drop_last())
    }
}

/// The local name of an IRI: what follows its last `/` or `#`.
pub open spec fn local_name_of(s: Seq<char>) -> Option<Seq<char>> {
    if last_separator(s) < 0 {
        None
    } else {
        Some(s.subrange(last_separator(s) + 1, s.len() as int))
    }
}

/// `s` between double quotes.
pub open spec fn quoted(s: Seq<char>) -> Seq<char> {
    "\""@ + s + "\""@
}

/// The text of a boolean.
pub open spec fn boolean_text(b: bool) -> Seq<char> {
    if b {
        "true"@
    } else {
        "false"@
    }
}

/// The text of a boolean or integer payload, which every rendering writes bare.
pub open spec fn scalar_text(v: ValueModel) -> Seq<char> {
    match v {
        ValueModel::Boolean(b) => boolean_text(b),
        ValueModel::Signed(i) => signed_decimal_text(i as int),
        ValueModel::Unsigned(n) => decimal_text(n as nat),
        _ => Seq::empty(),
    }
}

/// Whether `d` is one of the plain string datatypes.
pub open spec fn is_string_type(d: DataType) -> bool {
    d is String || d is PlainLiteral
}

/// The plain rendering: `<iri>`, `_:id`, a quoted string, a bare boolean or
/// integer, and otherwise the text followed by the datatype's name in
/// parentheses.
pub open spec fn plain_text(m: LiteralModel) -> Seq<char> {
    match m.value {
        ValueModel::Iri(s) => "<"@ + s + ">"@,
        ValueModel::BlankNode(s) => "_:"@ + s,
        ValueModel::Text(s) => if is_string_type(m.data_type) {
            quoted(s)
        } else {
            s + " ("@ + name_of(m.data_type) + ")"@
        },
        _ => scalar_text(m.value),
    }
}

/// The Turtle rendering: as the plain one, but a date-time or duration is a
/// quoted text with its `xsd` datatype, and a decimal is bare.
pub open spec fn turtle_text(m: LiteralModel) -> Seq<char> {
    match m.value {
        ValueModel::Text(s) => if is_string_type(m.data_type) {
            quoted(s)
        } else if m.data_type is DateTime {
            quoted(s) + "^^xsd:dateTime"@
        } else if m.data_type is Duration {
            quoted(s) + "^^xsd:duration"@
        } else {
            s
        },
        _ => plain_text(m),
    }
}

/// The JSON rendering: IRIs, blank nodes and texts as JSON strings (texts
/// escaped), booleans and integers bare.
pub open spec fn json_text(m: LiteralModel) -> Seq<char> {
    match m.value {
        ValueModel::Iri(s) => quoted(s),
        ValueModel::BlankNode(s) => quoted("_:"@ + s),
        ValueModel::Text(s) => quoted(json_escaped(s)),
        _ => scalar_text(m.value),
    }
}

/// The URL rendering: a plain string percent-encoded, a boolean bare, and
/// anything else as the plain rendering.
pub open spec fn url_text(m: LiteralModel) -> Seq<char> {
    match m.value {
        ValueModel::Text(s) => if is_string_type(m.data_type) {
            url_encoded(s)
        } else {
            plain_text(m)
        },
        _ => plain_text(m),
    }
}

/// An RDF literal: a datatype and a payload of the shape that the datatype
/// asks for. A literal cannot be changed once it is made.
#[derive(Debug, Hash)]
pub struct Literal {
    data_type: DataType,
    value: LiteralValue,
}

impl View for Literal {
    type V = LiteralModel;

    closed spec fn view(&self) -> LiteralModel {
        LiteralModel { data_type: self.data_type, value: self.value@ }
    }
}

impl Literal {
    #[verifier::type_invariant]
    spec fn inv(&self) -> bool {
        well_formed(self@)
    }

    /// A text literal (string, date-time, decimal or duration) holding a copy of
    /// `text`, unchecked against any grammar.
    pub fn new_text(text: &str, data_type: DataType) -> (r: Literal)
        requires
            shape_of(data_type) == Shape::Text,
        ensures
            r@ == (LiteralModel { data_type, value: ValueModel::Text(text@) }),
    {
        Literal { data_type, value: LiteralValue::new_string(text) }
    }

    /// An IRI literal holding a copy of `iri`, which must be a valid IRI.
    pub fn new_iri(iri: &str, data_type: DataType) -> (r: Result<Literal, RDFStoreError>)
        requires
            shape_of(data_type) == Shape::Iri,
        ensures
            match r {
                Ok(l) => iri_is_valid(iri@) && l@ == (LiteralModel {
                    data_type,
                    value: ValueModel::Iri(iri@),
                }),
                Err(e) => !iri_is_valid(iri@) && parse_error_fits(data_type, iri@, e),
            },
    {
        if check_iri(iri) {
            Ok(Literal { data_type, value: LiteralValue::new_iri(iri) })
        } else {
            Err(RDFStoreError::InvalidIri { value: iri.to_owned() })
        }
    }

    /// A boolean literal.
    pub fn new_boolean(boolean: bool, data_type: DataType) -> (r: Literal)
        requires
            shape_of(data_type) == Shape::Boolean,
        ensures
            r@ == (LiteralModel { data_type, value: ValueModel::Boolean(boolean) }),
    {
        Literal { data_type, value: LiteralValue::new_boolean(boolean) }
    }

    /// A signed integer literal.
    pub fn new_signed_integer(signed_integer: i64, data_type: DataType) -> (r: Literal)
        requires
            shape_of(data_type) == Shape::Signed,
        ensures
            r@ == (LiteralModel { data_type, value: ValueModel::Signed(signed_integer) }),
    {
        Literal { data_type, value: LiteralValue::new_signed_integer(signed_integer) }
    }

    /// An unsigned integer literal.
    pub fn new_unsigned_integer(unsigned_integer: u64, data_type: DataType) -> (r: Literal)
        requires
            shape_of(data_type) == Shape::Unsigned,
        ensures
            r@ == (LiteralModel { data_type, value: ValueModel::Unsigned(unsigned_integer) }),
    {
        Literal { data_type, value: LiteralValue::new_unsigned_integer(unsigned_integer) }
    }

    /// A blank node literal holding a copy of the identifier `blank_node`.
    pub fn new_blank_node(blank_node: &str, data_type: DataType) -> (r: Literal)
        requires
            shape_of(data_type) == Shape::BlankNode,
        ensures
            r@ == (LiteralModel { data_type, value: ValueModel::BlankNode(blank_node@) }),
    {
        Literal { data_type, value: LiteralValue::new_blank_node(blank_node) }
    }

    /// A decimal literal holding `text` verbatim.
    pub fn new_decimal(text: &str) -> (r: Literal)
        ensures
            r@ == (LiteralModel { data_type: DataType::Decimal, value: ValueModel::Text(text@) }),
    {
        Literal::new_text(text, DataType::Decimal)
    }

    /// A duration literal holding `text` verbatim.
    pub fn new_duration(text: &str) -> (r: Literal)
        ensures
            r@ == (LiteralModel { data_type: DataType::Duration, value: ValueModel::Text(text@) }),
    {
        Literal::new_text(text, DataType::Duration)
    }

    /// A date-time literal holding `text` verbatim.
    pub fn new_date_time(text: &str) -> (r: Literal)
        ensures
            r@ == (LiteralModel { data_type: DataType::DateTime, value: ValueModel::Text(text@) }),
    {
        Literal::new_text(text, DataType::DateTime)
    }

    /// An integer literal whose datatype follows from the sign of `value`
    /// alone: a negative integer, or else (zero included) a positive integer
    /// held unsigned.
    pub fn new_signed_integer_inferred(value: i64) -> (r: Literal)
        ensures
            value < 0 ==> r@ == (LiteralModel {
                data_type: DataType::NegativeInteger,
                value: ValueModel::Signed(value),
            }),
            value >= 0 ==> r@ == (LiteralModel {
                data_type: DataType::PositiveInteger,
                value: ValueModel::Unsigned(value as u64),
            }),
    {
        if value < 0 {
            Literal::new_signed_integer(value, DataType::NegativeInteger)
        } else {
            Literal::new_unsigned_integer(value as u64, DataType::PositiveInteger)
        }
    }

    /// The datatype of this literal.
    pub fn data_type(&self) -> (r: DataType)
        ensures
            r == self@.data_type,
            well_formed(self@),
    {
        proof {
            use_type_invariant(self);
        }
        self.data_type
    }

    /// The IRI, if this is an IRI literal.
    pub fn as_iri(&self) -> (r: Option<&str>)
        ensures
            match r {
                Some(t) => self@.value == ValueModel::Iri(t@),
                None => shape_of(self@.data_type) != Shape::Iri && !(self@.value is Iri),
            },
    {
        proof {
            use_type_invariant(self);
        }
        match &self.value {
            LiteralValue::Iri(s) => Some(s.as_str()),
            _ => None,
        }
    }

    fn text_when(&self, wanted: bool) -> (r: Option<&str>)
        requires
            wanted ==> shape_of(self@.data_type) == Shape::Text,
        ensures
            match r {
                Some(t) => wanted && self@.value == ValueModel::Text(t@),
                None => !wanted,
            },
    {
        proof {
            use_type_invariant(self);
        }
        if wanted {
            match &self.value {
                LiteralValue::String(s) => Some(s.as_str()),
                _ => None,
            }
        } else {
            None
        }
    }

    /// The text, if this is a plain string literal.
    pub fn as_text(&self) -> (r: Option<&str>)
        ensures
            match r {
                Some(t) => (self@.data_type is String || self@.data_type is PlainLiteral)
                    && self@.value == ValueModel::Text(t@),
                None => !(self@.data_type is String || self@.data_type is PlainLiteral),
            },
    {
        self.text_when(self.data_type.is_string())
    }

    /// The verbatim text, if this is a decimal literal.
    pub fn as_decimal_text(&self) -> (r: Option<&str>)
        ensures
            match r {
                Some(t) => self@.data_type is Decimal && self@.value == ValueModel::Text(t@),
                None => !(self@.data_type is Decimal),
            },
    {
        self.text_when(self.data_type.is_decimal())
    }

    /// The verbatim text, if this is a duration literal.
    pub fn as_duration_text(&self) -> (r: Option<&str>)
        ensures
            match r {
                Some(t) => self@.data_type is Duration && self@.value == ValueModel::Text(t@),
                None => !(self@.data_type is Duration),
            },
    {
        self.text_when(self.data_type.is_duration())
    }

    /// The verbatim text, if this is a date-time literal.
    pub fn as_date_time_text(&self) -> (r: Option<&str>)
        ensures
            match r {
                Some(t) => self@.data_type is DateTime && self@.value == ValueModel::Text(t@),
                None => !(self@.data_type is DateTime),
            },
    {
        self.text_when(self.data_type.is_date_time())
    }


    /// The boolean, if this is a boolean literal.
    pub fn as_boolean(&self) -> (r: Option<bool>)
        ensures
            match r {
                Some(b) => self@.value == ValueModel::Boolean(b),
                None => shape_of(self@.data_type) != Shape::Boolean && !(self@.value is Boolean),
            },
    {
        proof {
            use_type_invariant(self);
        }
        match &self.value {
            LiteralValue::Boolean(b) => Some(*b),
            _ => None,
        }
    }

    /// The integer, if this is a signed integer literal.
    pub fn as_signed(&self) -> (r: Option<i64>)
        ensures
            match r {
                Some(v) => self@.value == ValueModel::Signed(v),
                None => shape_of(self@.data_type) != Shape::Signed && !(self@.value is Signed),
            },
    {
        proof {
            use_type_invariant(self);
        }
        match &self.value {
            LiteralValue::SignedInteger(v) => Some(*v),
            _ => None,
        }
    }

    /// The integer, if this is an unsigned integer literal.
    pub fn as_unsigned(&self) -> (r: Option<u64>)
        ensures
            match r {
                Some(n) => self@.value == ValueModel::Unsigned(n),
                None => shape_of(self@.data_type) != Shape::Unsigned && !(self@.value is Unsigned),
            },
    {
        proof {
            use_type_invariant(self);
        }
        match &self.value {
            LiteralValue::UnsignedInteger(n) => Some(*n),
            _ => None,
        }
    }

    /// Appends the text of a boolean or integer payload.
    fn push_scalar(&self, out: &mut String)
        requires
            self@.value is Boolean || self@.value is Signed || self@.value is Unsigned,
        ensures
            final(out)@ == old(out)@ + scalar_text(self@.value),
    {
        match &self.value {
            LiteralValue::Boolean(b) => {
                if *b {
                    out.append("true");
                } else {
                    out.append("false");
                }
            },
            LiteralValue::SignedInteger(v) => push_signed_decimal(out, *v),
            LiteralValue::UnsignedInteger(n) => push_decimal(out, *n),
            _ => {},
        }
    }

    /// The plain rendering of this literal.
    pub fn render_plain(&self) -> (r: String)
        ensures
            r@ == plain_text(self@),
    {
        let mut out = String::new();
        match &self.value {
            LiteralValue::Iri(s) => {
                out.append("<");
                out.append(s.as_str());
                out.append(">");
            },
            LiteralValue::BlankNode(s) => {
                out.append("_:");
                out.append(s.as_str());
            },
            LiteralValue::String(s) => {
                if self.data_type.is_string() {
                    out.append("\"");
                    out.append(s.as_str());
                    out.append("\"");
                } else {
                    out.append(s.as_str());
                    out.append(" (");
                    out.append(self.data_type.name());
                    out.append(")");
                }
            },
            _ => self.push_scalar(&mut out),
        }
        assert(out@ =~= plain_text(self@));
        out
    }

    /// The Turtle rendering of this literal.
    pub fn render_turtle(&self) -> (r: String)
        ensures
            r@ == turtle_text(self@),
    {
        match &self.value {
            LiteralValue::String(s) => {
                let mut out = String::new();
                if self.data_type.is_decimal() {
                    out.append(s.as_str());
                } else {
                    out.append("\"");
                    out.append(s.as_str());
                    out.append("\"");
                    if self.data_type.is_date_time() {
                        out.append("^^xsd:dateTime");
                    } else if self.data_type.is_duration() {
                        out.append("^^xsd:duration");
                    }
                }
                proof {
                    use_type_invariant(self);
                }
                assert(out@ =~= turtle_text(self@));
                out
            },
            _ => self.render_plain(),
        }
    }

    /// A view of this literal for use in a URL.
    pub fn as_url_display(&self) -> (r: LiteralUrlDisplay)
        ensures
            r.literal@ == self@,
    {
        LiteralUrlDisplay { literal: self }
    }

    /// The JSON rendering of this literal.
    pub fn render_json(&self) -> (r: String)
        ensures
            r@ == json_text(self@),
    {
        let mut out = String::new();
        match &self.value {
            LiteralValue::Iri(s) => {
                out.append("\"");
                out.append(s.as_str());
                out.append("\"");
            },
            LiteralValue::BlankNode(s) => {
                out.append("\"_:");
                out.append(s.as_str());
                out.append("\"");
            },
            LiteralValue::String(s) => {
                out.append("\"");
                push_json_escaped(&mut out, s.as_str());
                out.append("\"");
            },
            _ => self.push_scalar(&mut out),
        }
        proof {
            reveal_strlit("\"");
            reveal_strlit("_:");
            reveal_strlit("\"_:");
        }
        assert(out@ =~= json_text(self@));
        out
    }

    /// Reads `text` as a value of `data_type`. The unbound datatype stands for
    /// no value and gives `Ok(None)`; a datatype with no literals, or a text
    /// that is not a value of the datatype, gives the error that
    /// [`parse_error_fits`] names.
    pub fn parse(data_type: DataType, text: &str) -> (r: Result<Option<Literal>, RDFStoreError>)
        ensures
            match r {
                Ok(Some(l)) => l@.data_type == data_type && parsed(data_type, text@) == Some(
                    Some(l@.value),
                ),
                Ok(None) => parsed(data_type, text@) == Some(None::<ValueModel>),
                Err(e) => parsed(data_type, text@) is None && parse_error_fits(
                    data_type,
                    text@,
                    e,
                ),
            },
    {
        match data_type.shape() {
            Shape::Iri => match Literal::new_iri(text, data_type) {
                Ok(l) => Ok(Some(l)),
                Err(e) => Err(e),
            },
            Shape::Text => Ok(Some(Literal::new_text(text, data_type))),
            Shape::BlankNode => Ok(Some(Literal::new_blank_node(text, data_type))),
            Shape::Boolean => {
                if same_text(text, "true") {
                    Ok(Some(Literal::new_boolean(true, data_type)))
                } else if same_text(text, "false") {
                    Ok(Some(Literal::new_boolean(false, data_type)))
                } else {
                    Err(RDFStoreError::UnknownNTriplesValue { value: text.to_owned() })
                }
            },
            Shape::Signed => match parse_i64(text) {
                Some(v) => Ok(Some(Literal::new_signed_integer(v, data_type))),
                None => Err(RDFStoreError::ParseIntError { value: text.to_owned() }),
            },
            Shape::Unsigned => match parse_u64(text) {
                Some(n) => Ok(Some(Literal::new_unsigned_integer(n, data_type))),
                None => Err(RDFStoreError::ParseIntError { value: text.to_owned() }),
            },
            Shape::Unsupported => {
                if data_type.id() == 0 {
                    Ok(None)
                } else {
                    Err(
                        RDFStoreError::UnknownValueForDataType {
                            data_type,
                            value: text.to_owned(),
                        },
                    )
                }
            },
        }
    }

    /// The text after the last `/` or `#` of an IRI literal; `None` for any
    /// other literal, or when the IRI holds neither.
    pub fn as_local_name(&self) -> (r: Option<&str>)
        ensures
            match self@.value {
                ValueModel::Iri(s) => match r {
                    Some(t) => local_name_of(s) == Some(t@),
                    None => local_name_of(s) is None,
                },
                _ => r is None,
            },
    {
        match &self.value {
            LiteralValue::Iri(s) => {
                let iri: &str = s.as_str();
                let n = iri.unicode_len();
                assert(self@.value == ValueModel::Iri(iri@));
                let mut count: usize = 0;
                let mut after: usize = 0;
                for c in it: iri.chars()
                    invariant
                        it.seq() == iri@,
                        n == iri@.len(),
                        count == it.index(),
                        after <= count <= n,
                        last_separator(iri@.subrange(0, count as int)) == after - 1,
                {
                    let ghost t = iri@.subrange(0, count + 1);
                    assert(t.drop_last() =~= iri@.subrange(0, count as int));
                    if c == '/' || c == '#' {
                        after = count + 1;
                    }
                    count = count + 1;
                }
                assert(iri@.subrange(0, n as int) =~= iri@);
                if after > 0 {
                    Some(iri.substring_char(after, n))
                } else {
                    None
                }
            },
            _ => None,
        }
    }
}

} // verus!

verus! {

impl PartialEq for Literal {
    /// Two literals are equal when their datatypes are the same and their
    /// payloads are equal: text by characters, integers and booleans by value.
    fn eq(&self, other: &Literal) -> (r: bool) {
        self.data_type == other.data_type && match (&self.value, &other.value) {
            (LiteralValue::Iri(a), LiteralValue::Iri(b)) => a.eq(b),
            (LiteralValue::String(a), LiteralValue::String(b)) => a.eq(b),
            (LiteralValue::Boolean(a), LiteralValue::Boolean(b)) => *a == *b,
            (LiteralValue::UnsignedInteger(a), LiteralValue::UnsignedInteger(b)) => *a == *b,
            (LiteralValue::SignedInteger(a), LiteralValue::SignedInteger(b)) => *a == *b,
            (LiteralValue::BlankNode(a), LiteralValue::BlankNode(b)) => a.eq(b),
            _ => false,
        }
    }
}

impl vstd::std_specs::cmp::PartialEqSpecImpl for Literal {
    open spec fn obeys_eq_spec() -> bool {
        true
    }

    open spec fn eq_spec(&self, other: &Literal) -> bool {
        self@ == other@
    }
}

impl Eq for Literal {
}

impl Clone for Literal {
    /// A copy that owns its own text: it shares no storage with `self`.
    fn clone(&self) -> (r: Literal)
        ensures
            r@ == self@,
    {
        proof {
            use_type_invariant(self);
        }
        Literal { data_type: self.data_type, value: self.value.clone() }
    }
}

} // verus!

verus! {

/// A literal as it stands in a URL.
pub struct LiteralUrlDisplay<'a> {
    pub literal: &'a Literal,
}

impl<'a> LiteralUrlDisplay<'a> {
    /// The URL rendering of the literal.
    pub fn render(&self) -> (r: String)
        ensures
            r@ == url_text(self.literal@),
    {
        let literal = self.literal;
        match &literal.value {
            LiteralValue::String(s) => {
                if literal.data_type.is_string() {
                    url_encode(s.as_str())
                } else {
                    literal.render_plain()
                }
            },
            _ => literal.render_plain(),
        }
    }
}

} // verus!
