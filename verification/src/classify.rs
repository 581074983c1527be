//! Classification of a variant's payload type by its declared name.

use vstd::prelude::*;
use vstd::string::*;

verus! {

/// How a variant's payload type is seen by name alone.
#[derive(Clone, Copy, Debug, PartialEq, Eq, Structural)]
pub enum PayloadClassification {
    /// The variant carries no payload type identifier.
    Absent,
    /// The payload type identifier is exactly the canonical text type name.
    PlainText,
    /// The payload type identifier is any other name.
    NamedType,
}

/// The way a source value is placed into the target variant.
#[derive(Clone, Copy, Debug, PartialEq, Eq, Structural)]
pub enum Strategy {
    /// The source value becomes the variant's field unchanged.
    DirectWrap,
    /// The source value is rendered as text and the text becomes the field.
    StringifyWrap,
}

/// The canonical text type name, `String`, as a sequence of characters.
pub open spec fn canonical_text_type() -> Seq<char> {
    seq!['S', 't', 'r', 'i', 'n', 'g']
}

/// The classification of a payload type identifier, by exact comparison of its text.
pub open spec fn spec_classify(payload_type: Option<Seq<char>>) -> PayloadClassification {
    match payload_type {
        None => PayloadClassification::Absent,
        Some(name) => if name == canonical_text_type() {
            PayloadClassification::PlainText
        } else {
            PayloadClassification::NamedType
        },
    }
}

/// The strategy that a classification selects.
pub open spec fn spec_strategy(classification: PayloadClassification) -> Strategy {
    match classification {
        PayloadClassification::NamedType => Strategy::DirectWrap,
        PayloadClassification::PlainText => Strategy::StringifyWrap,
        PayloadClassification::Absent => Strategy::StringifyWrap,
    }
}

/// Whether `name` is exactly the canonical text type name.
pub fn is_canonical_text_type(name: &String) -> (r: bool)
    ensures
        r == (name@ == canonical_text_type()),
{
    let canonical = String::from_str("String");
    proof {
        reveal_strlit("String");
        assert("String"@ =~= canonical_text_type());
    }
    *name == canonical
}

/// Classifies a variant's payload type identifier.
pub fn get_inner_ident(ident: &Option<String>) -> (r: PayloadClassification)
    ensures
        r == spec_classify(ident.deep_view()),
{
    match ident {
        Some(name) => {
            if is_canonical_text_type(name) {
                PayloadClassification::PlainText
            } else {
                PayloadClassification::NamedType
            }
        },
        None => PayloadClassification::Absent,
    }
}

impl PayloadClassification {
    /// The strategy that this classification selects.
    pub fn strategy(&self) -> (r: Strategy)
        ensures
            r == spec_strategy(*self),
    {
        match self {
            PayloadClassification::NamedType => Strategy::DirectWrap,
            PayloadClassification::PlainText => Strategy::StringifyWrap,
            PayloadClassification::Absent => Strategy::StringifyWrap,
        }
    }
}

} // verus!
