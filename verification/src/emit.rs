//! The conversions that a binding asks for, and how one is carried out on a value.

use vstd::prelude::*;
use crate::annotation::{AnnotationBinding, AnnotationBindingView};
use crate::classify::{get_inner_ident, spec_classify, PayloadClassification, Strategy};

verus! {

/// One conversion to generate: from a source type, named as declared, into a variant of
/// the target enum, with the classification of that variant's payload.
#[derive(Debug, PartialEq, Eq)]
pub struct ConversionSpec {
    pub source: String,
    pub variant: String,
    pub classification: PayloadClassification,
}

/// The mathematical model of a [`ConversionSpec`].
pub struct ConversionSpecView {
    pub source: Seq<char>,
    pub variant: Seq<char>,
    pub classification: PayloadClassification,
}

impl DeepView for ConversionSpec {
    type V = ConversionSpecView;

    open spec fn deep_view(&self) -> ConversionSpecView {
        ConversionSpecView {
            source: self.source@,
            variant: self.variant@,
            classification: self.classification,
        }
    }
}

impl Clone for ConversionSpec {
    fn clone(&self) -> (r: Self)
        ensures
            r.deep_view() == self.deep_view(),
    {
        ConversionSpec {
            source: self.source.clone(),
            variant: self.variant.clone(),
            classification: self.classification,
        }
    }
}

impl ConversionSpec {
    /// The strategy by which this conversion places a value into the variant.
    pub fn strategy(&self) -> (r: Strategy)
        ensures
            r == crate::classify::spec_strategy(self.classification),
    {
        self.classification.strategy()
    }
}

/// The conversions of one binding: one for each declared source type name, in the order
/// declared, each into the binding's variant and with the classification of its payload.
pub open spec fn spec_emit(binding: AnnotationBindingView) -> Seq<ConversionSpecView> {
    Seq::new(
        binding.sources.len(),
        |j: int|
            ConversionSpecView {
                source: binding.sources[j],
                variant: binding.variant,
                classification: spec_classify(binding.payload_type),
            },
    )
}

/// Emits the conversions of one binding.
pub fn emit_binding(binding: &AnnotationBinding) -> (r: Vec<ConversionSpec>)
    ensures
        r.deep_view() == spec_emit(binding.deep_view()),
{
    let classification = get_inner_ident(&binding.payload_type);
    let mut specs: Vec<ConversionSpec> = Vec::new();
    let mut j: usize = 0;
    while j < binding.sources.len()
        invariant
            j <= binding.sources.len(),
            specs.len() == j,
            classification == spec_classify(binding.payload_type.deep_view()),
            forall|k: int|
                0 <= k < j ==> (#[trigger] specs[k]).deep_view() == spec_emit(
                    binding.deep_view(),
                )[k],
        decreases binding.sources.len() - j,
    {
        specs.push(
            ConversionSpec {
                source: binding.sources[j].clone(),
                variant: binding.variant.clone(),
                classification,
            },
        );
        j = j + 1;
    }
    assert(specs.deep_view() =~= spec_emit(binding.deep_view()));
    specs
}

/// What a conversion places into the field of the target variant.
#[derive(Debug, PartialEq, Eq)]
pub enum Payload<S> {
    /// The source value itself.
    Direct(S),
    /// The text that the source value was rendered as.
    Text(String),
}

/// Carries out a conversion on `value`.
///
/// Under the direct-wrap strategy the value is handed on unchanged, and `to_text` need not
/// even accept the value: it is not called. Under the stringify-wrap strategy the result
/// holds a text that `to_text` returned for the value, and `to_text`, which can be called
/// once at most, is consumed by that call.
pub fn convert<S, F: FnOnce(&S) -> String>(strategy: Strategy, value: S, to_text: F) -> (r:
    Payload<S>)
    requires
        strategy == Strategy::StringifyWrap ==> call_requires(to_text, (&value,)),
    ensures
        strategy == Strategy::DirectWrap ==> r == Payload::Direct(value),
        strategy == Strategy::StringifyWrap ==> (r matches Payload::Text(text) && call_ensures(
            to_text,
            (&value,),
            text,
        )),
{
    match strategy {
        Strategy::DirectWrap => Payload::Direct(value),
        Strategy::StringifyWrap => Payload::Text(to_text(&value)),
    }
}

} // verus!
