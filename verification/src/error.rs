//! The ways in which the generation of conversions fails.

use vstd::prelude::*;
use vstd::string::*;

verus! {

/// A fatal error of one generation run. Each ends the run with no conversion produced.
#[derive(Debug, PartialEq, Eq)]
pub enum GenerationError {
    /// The declaration is not an enumerated type.
    MalformedDeclaration,
    /// The named variant has no recognized metadata block.
    MissingAnnotation { variant: String },
    /// The named variant has a metadata block that is not a list of text literals.
    MalformedAnnotation { variant: String },
    /// The named variant declares a source type name that is the empty text; `position`
    /// counts the names before the first such one.
    EmptySourceName { variant: String, position: usize },
    /// The named variant has named fields or more than one field.
    UnsupportedPayloadShape { variant: String },
}

/// The mathematical model of a [`GenerationError`].
pub enum GenerationErrorView {
    MalformedDeclaration,
    MissingAnnotation { variant: Seq<char> },
    MalformedAnnotation { variant: Seq<char> },
    EmptySourceName { variant: Seq<char>, position: nat },
    UnsupportedPayloadShape { variant: Seq<char> },
}

impl DeepView for GenerationError {
    type V = GenerationErrorView;

    open spec fn deep_view(&self) -> GenerationErrorView {
        match self {
            GenerationError::MalformedDeclaration => GenerationErrorView::MalformedDeclaration,
            GenerationError::MissingAnnotation { variant } => GenerationErrorView::MissingAnnotation {
                variant: variant@,
            },
            GenerationError::MalformedAnnotation { variant } => {
                GenerationErrorView::MalformedAnnotation { variant: variant@ }
            },
            GenerationError::EmptySourceName { variant, position } => {
                GenerationErrorView::EmptySourceName { variant: variant@, position: *position as nat }
            },
            GenerationError::UnsupportedPayloadShape { variant } => {
                GenerationErrorView::UnsupportedPayloadShape { variant: variant@ }
            },
        }
    }
}

impl Clone for GenerationError {
    fn clone(&self) -> (r: Self)
        ensures
            r.deep_view() == self.deep_view(),
    {
        match self {
            GenerationError::MalformedDeclaration => GenerationError::MalformedDeclaration,
            GenerationError::MissingAnnotation { variant } => GenerationError::MissingAnnotation {
                variant: variant.clone(),
            },
            GenerationError::MalformedAnnotation { variant } => {
                GenerationError::MalformedAnnotation { variant: variant.clone() }
            },
            GenerationError::EmptySourceName { variant, position } => {
                GenerationError::EmptySourceName { variant: variant.clone(), position: *position }
            },
            GenerationError::UnsupportedPayloadShape { variant } => {
                GenerationError::UnsupportedPayloadShape { variant: variant.clone() }
            },
        }
    }
}

/// The text `before`, the variant's name, and the text `after`.
pub open spec fn spec_about_variant(before: Seq<char>, variant: Seq<char>, after: Seq<char>) -> Seq<
    char,
> {
    before + variant + after
}

/// The message that reports an error, naming the variant at fault.
pub open spec fn spec_message(error: GenerationErrorView) -> Seq<char> {
    match error {
        GenerationErrorView::MalformedDeclaration => {
            "conversions can only be generated for an enum"@
        },
        GenerationErrorView::MissingAnnotation { variant } => spec_about_variant(
            "variant `"@,
            variant,
            "` has no conversion annotation"@,
        ),
        GenerationErrorView::MalformedAnnotation { variant } => spec_about_variant(
            "variant `"@,
            variant,
            "` has an annotation that is not a list of string literals"@,
        ),
        GenerationErrorView::EmptySourceName { variant, .. } => spec_about_variant(
            "variant `"@,
            variant,
            "` declares an empty source type name"@,
        ),
        GenerationErrorView::UnsupportedPayloadShape { variant } => spec_about_variant(
            "variant `"@,
            variant,
            "` has named fields or more than one field"@,
        ),
    }
}

/// Builds the text `before`, the variant's name, and the text `after`.
fn about_variant(before: &str, variant: &String, after: &str) -> (r: String)
    ensures
        r@ == spec_about_variant(before@, variant@, after@),
{
    let mut text = String::from_str(before);
    text.append(variant.as_str());
    text.append(after);
    text
}

impl GenerationError {
    /// The message that reports this error, naming the variant at fault.
    pub fn message(&self) -> (r: String)
        ensures
            r@ == spec_message(self.deep_view()),
    {
        match self {
            GenerationError::MalformedDeclaration => String::from_str(
                "conversions can only be generated for an enum",
            ),
            GenerationError::MissingAnnotation { variant } => about_variant(
                "variant `",
                variant,
                "` has no conversion annotation",
            ),
            GenerationError::MalformedAnnotation { variant } => about_variant(
                "variant `",
                variant,
                "` has an annotation that is not a list of string literals",
            ),
            GenerationError::EmptySourceName { variant, .. } => about_variant(
                "variant `",
                variant,
                "` declares an empty source type name",
            ),
            GenerationError::UnsupportedPayloadShape { variant } => about_variant(
                "variant `",
                variant,
                "` has named fields or more than one field",
            ),
        }
    }
}

} // verus!
