//! The generation run over a whole schema.

use vstd::prelude::*;
use crate::annotation::{get_attributes, spec_get_attributes};
use crate::declaration::{Declaration, DeclarationView};
use crate::emit::{emit_binding, spec_emit, ConversionSpec, ConversionSpecView};
use crate::error::{GenerationError, GenerationErrorView};
use crate::outcome::{
    all_ok,
    collect,
    lemma_collect_err,
    lemma_collect_ok,
    outcome_view,
    values,
};
use crate::reader::{read_declaration, spec_read_declaration};
use crate::schema::{EnumSchema, EnumSchemaView, VariantSpecView};

verus! {

/// The conversions that one variant asks for, or the error of its metadata.
pub open spec fn spec_variant_conversions(variant: VariantSpecView) -> Result<
    Seq<ConversionSpecView>,
    GenerationErrorView,
> {
    match spec_get_attributes(variant) {
        Ok(binding) => Ok(spec_emit(binding)),
        Err(error) => Err(error),
    }
}

/// The outcome of each variant, in declaration order.
pub open spec fn spec_variant_outcomes(variants: Seq<VariantSpecView>) -> Seq<
    Result<Seq<ConversionSpecView>, GenerationErrorView>,
> {
    Seq::new(variants.len(), |i: int| spec_variant_conversions(variants[i]))
}

/// The result of a generation run: the error of the first variant whose metadata is in
/// error, or else the conversions of all variants, variant after variant.
pub open spec fn spec_map_field_meta(schema: EnumSchemaView) -> Result<
    Seq<ConversionSpecView>,
    GenerationErrorView,
> {
    match collect(spec_variant_outcomes(schema.variants)) {
        Ok(groups) => Ok(groups.flatten()),
        Err(error) => Err(error),
    }
}

/// Generates the conversions of a schema, or fails with the first error in declaration
/// order and gives no conversion at all.
pub fn map_field_meta(schema: &EnumSchema) -> (r: Result<Vec<ConversionSpec>, GenerationError>)
    ensures
        outcome_view(r) == spec_map_field_meta(schema.deep_view()),
{
    let ghost outcomes = spec_variant_outcomes(schema.deep_view().variants);
    let mut specs: Vec<ConversionSpec> = Vec::new();
    let mut i: usize = 0;
    while i < schema.variants.len()
        invariant
            i <= schema.variants.len(),
            outcomes == spec_variant_outcomes(schema.deep_view().variants),
            forall|k: int| 0 <= k < i ==> (#[trigger] outcomes[k]) is Ok,
            specs.deep_view() == values(outcomes).take(i as int).flatten(),
        decreases schema.variants.len() - i,
    {
        assert(schema.deep_view().variants[i as int] == schema.variants[i as int].deep_view());
        match get_attributes(&schema.variants[i]) {
            Err(error) => {
                proof {
                    lemma_collect_err(outcomes, i as int);
                }
                return Err(error);
            },
            Ok(binding) => {
                let mut group = emit_binding(&binding);
                let ghost before = specs.deep_view();
                let ghost added = group.deep_view();
                specs.append(&mut group);
                proof {
                    assert(specs.deep_view() =~= before + added);
                    assert(values(outcomes).take(i as int + 1) =~= values(outcomes).take(
                        i as int,
                    ).push(added));
                    values(outcomes).take(i as int).lemma_flatten_push(added);
                }
            },
        }
        i = i + 1;
    }
    proof {
        assert(all_ok(outcomes));
        lemma_collect_ok(outcomes);
        assert(values(outcomes).take(i as int) =~= values(outcomes));
    }
    Ok(specs)
}

/// The result of a whole run on a declaration: the error of reading it, or else the
/// result of the generation run over its schema.
pub open spec fn spec_derive(declaration: DeclarationView) -> Result<
    Seq<ConversionSpecView>,
    GenerationErrorView,
> {
    match spec_read_declaration(declaration) {
        Ok(schema) => spec_map_field_meta(schema),
        Err(error) => Err(error),
    }
}

/// Runs the whole generation on a declaration: reads it into a schema, extracts and
/// classifies each variant's binding, and emits the conversions in declaration order.
/// The first error ends the run, and then no conversion is given.
pub fn derive(input: &Declaration) -> (r: Result<Vec<ConversionSpec>, GenerationError>)
    ensures
        outcome_view(r) == spec_derive(input.deep_view()),
{
    match read_declaration(input) {
        Ok(schema) => map_field_meta(&schema),
        Err(error) => Err(error),
    }
}

} // verus!
