//! What holds of every generation run.

use vstd::prelude::*;
use crate::annotation::{
    all_text,
    empty_text,
    is_empty_text,
    item_texts,
    spec_get_attributes,
    spec_payload_type,
};
use crate::classify::{
    canonical_text_type,
    spec_classify,
    spec_strategy,
    PayloadClassification,
    Strategy,
};
use crate::declaration::DeclarationView;
use crate::emit::ConversionSpecView;
use crate::error::GenerationErrorView;
use crate::metadata::{MetaBlockView, MetaItemView};
use crate::first::{first, is_first, lemma_first_is_some_iff, lemma_first_none};
use crate::flatten::{lemma_flatten_layout, offset};
use crate::outcome::{
    all_ok,
    lemma_collect_err,
    lemma_collect_fails_iff,
    lemma_collect_ok,
    values,
};
use crate::pipeline::{
    spec_derive,
    spec_map_field_meta,
    spec_variant_conversions,
    spec_variant_outcomes,
};
use crate::reader::{is_meta, spec_first_meta, spec_read_declaration, spec_read_outcomes};
use crate::schema::{EnumSchemaView, VariantSpecView};

verus! {

/// The source type names that a variant declares, in the order written.
pub open spec fn declared_names_of(variant: VariantSpecView) -> Seq<Seq<char>> {
    match variant.annotation {
        Some(MetaBlockView::List(items)) => item_texts(items),
        _ => Seq::empty(),
    }
}

/// The number of source type names that the variants before the one at `i` declare.
pub open spec fn names_before(variants: Seq<VariantSpecView>, i: int) -> int
    decreases i,
{
    if i <= 0 {
        0
    } else {
        names_before(variants, i - 1) + declared_names_of(variants[i - 1]).len()
    }
}

/// The position, among all declared names, of the name `j` of the variant `i`.
pub open spec fn position_of(variants: Seq<VariantSpecView>, i: int, j: int) -> int {
    names_before(variants, i) + j
}

/// In a run that succeeds, the conversions of each variant are as many as the names it
/// declares, so the offsets of the groups are the counts of the names.
proof fn lemma_offsets_are_name_counts(variants: Seq<VariantSpecView>, i: int)
    requires
        all_ok(spec_variant_outcomes(variants)),
        0 <= i <= variants.len(),
    ensures
        offset(values(spec_variant_outcomes(variants)), i) == names_before(variants, i),
    decreases i,
{
    if i > 0 {
        lemma_offsets_are_name_counts(variants, i - 1);
        assert(spec_variant_outcomes(variants)[i - 1] is Ok);
    }
}

/// A run that succeeds emits exactly one conversion for each declared source type name of
/// each variant: as many conversions as all variants declare names together, and the
/// conversion for the name `j` of the variant `i` stands behind those of all names
/// declared before it. That conversion names the declared source type and the variant,
/// and carries the classification of the variant's payload.
pub proof fn lemma_one_conversion_per_declared_name(schema: EnumSchemaView)
    requires
        spec_map_field_meta(schema) is Ok,
    ensures
        spec_map_field_meta(schema)->Ok_0.len() == names_before(
            schema.variants,
            schema.variants.len() as int,
        ),
        forall|i: int, j: int|
            0 <= i < schema.variants.len() && 0 <= j < declared_names_of(
                schema.variants[i],
            ).len() ==> spec_map_field_meta(schema)->Ok_0[names_before(schema.variants, i) + j]
                == (ConversionSpecView {
                source: #[trigger] declared_names_of(schema.variants[i])[j],
                variant: schema.variants[i].name,
                classification: spec_classify(spec_payload_type(schema.variants[i].payload)),
            }),
        forall|i: int|
            0 <= i < schema.variants.len() ==> 0 <= #[trigger] names_before(schema.variants, i)
                && names_before(schema.variants, i) + declared_names_of(schema.variants[i]).len()
                <= spec_map_field_meta(schema)->Ok_0.len(),
{
    let variants = schema.variants;
    let outcomes = spec_variant_outcomes(variants);
    lemma_collect_fails_iff(outcomes);
    lemma_collect_ok(outcomes);
    let groups = values(outcomes);
    lemma_flatten_layout(groups);
    lemma_offsets_are_name_counts(variants, variants.len() as int);
    assert forall|i: int| 0 <= i < variants.len() implies 0 <= #[trigger] names_before(
        variants,
        i,
    ) && names_before(variants, i) + declared_names_of(variants[i]).len()
        <= groups.flatten().len() by {
        lemma_offsets_are_name_counts(variants, i);
        assert(outcomes[i] is Ok);
        assert(offset(groups, i) + groups[i].len() <= groups.flatten().len());
    }
    assert forall|i: int, j: int|
        0 <= i < variants.len() && 0 <= j < declared_names_of(
            variants[i],
        ).len() implies groups.flatten()[names_before(variants, i) + j] == (ConversionSpecView {
        source: #[trigger] declared_names_of(variants[i])[j],
        variant: variants[i].name,
        classification: spec_classify(spec_payload_type(variants[i].payload)),
    }) by {
        lemma_offsets_are_name_counts(variants, i);
        assert(outcomes[i] is Ok);
        assert(groups[i][j] == ConversionSpecView {
            source: declared_names_of(variants[i])[j],
            variant: variants[i].name,
            classification: spec_classify(spec_payload_type(variants[i].payload)),
        });
    }
}

/// The counts of the names declared before a variant do not decrease along the variants.
pub proof fn lemma_names_before_monotone(variants: Seq<VariantSpecView>, i: int, k: int)
    requires
        0 <= i <= k,
    ensures
        0 <= names_before(variants, i) <= names_before(variants, k),
    decreases k,
{
    if i < k {
        lemma_names_before_monotone(variants, i, k - 1);
    } else if i > 0 {
        lemma_names_before_monotone(variants, i - 1, i - 1);
    }
}

/// Every position below the count of the names of the first `n` variants is that of one
/// declared name of one of them.
pub proof fn lemma_position_has_its_pair(variants: Seq<VariantSpecView>, n: int, k: int) -> (pair:
    (int, int))
    requires
        0 <= n,
        0 <= k < names_before(variants, n),
    ensures
        0 <= pair.0 < n,
        0 <= pair.1 < declared_names_of(variants[pair.0]).len(),
        names_before(variants, pair.0) + pair.1 == k,
    decreases n,
{
    if k >= names_before(variants, n - 1) {
        (n - 1, k - names_before(variants, n - 1))
    } else {
        lemma_position_has_its_pair(variants, n - 1, k)
    }
}

/// Two declared names that stand at one position are one and the same.
pub proof fn lemma_pair_of_position_is_unique(
    variants: Seq<VariantSpecView>,
    i: int,
    j: int,
    other_i: int,
    other_j: int,
)
    requires
        0 <= i,
        0 <= other_i,
        0 <= j < declared_names_of(variants[i]).len(),
        0 <= other_j < declared_names_of(variants[other_i]).len(),
        names_before(variants, i) + j == names_before(variants, other_i) + other_j,
    ensures
        i == other_i,
        j == other_j,
{
    if i < other_i {
        lemma_names_before_monotone(variants, i + 1, other_i);
    } else if other_i < i {
        lemma_names_before_monotone(variants, other_i + 1, i);
    }
}

/// In a run that succeeds, every conversion is that of exactly one declared name of one
/// variant: the pair that stands at the conversion's position.
pub proof fn lemma_every_conversion_has_one_pair(schema: EnumSchemaView, k: int) -> (pair: (
    int,
    int,
))
    requires
        spec_map_field_meta(schema) is Ok,
        0 <= k < spec_map_field_meta(schema)->Ok_0.len(),
    ensures
        0 <= pair.0 < schema.variants.len(),
        0 <= pair.1 < declared_names_of(schema.variants[pair.0]).len(),
        names_before(schema.variants, pair.0) + pair.1 == k,
        spec_map_field_meta(schema)->Ok_0[k] == (ConversionSpecView {
            source: declared_names_of(schema.variants[pair.0])[pair.1],
            variant: schema.variants[pair.0].name,
            classification: spec_classify(spec_payload_type(schema.variants[pair.0].payload)),
        }),
        forall|i: int, j: int|
            0 <= i < schema.variants.len() && 0 <= j < declared_names_of(schema.variants[i]).len()
                && #[trigger] position_of(schema.variants, i, j) == k ==> i == pair.0 && j
                == pair.1,
{
    lemma_one_conversion_per_declared_name(schema);
    let pair = lemma_position_has_its_pair(schema.variants, schema.variants.len() as int, k);
    assert(spec_map_field_meta(schema)->Ok_0[names_before(schema.variants, pair.0) + pair.1]
        == (ConversionSpecView {
        source: declared_names_of(schema.variants[pair.0])[pair.1],
        variant: schema.variants[pair.0].name,
        classification: spec_classify(spec_payload_type(schema.variants[pair.0].payload)),
    }));
    assert forall|i: int, j: int|
        0 <= i < schema.variants.len() && 0 <= j < declared_names_of(schema.variants[i]).len()
            && #[trigger] position_of(schema.variants, i, j) == k implies i == pair.0 && j
        == pair.1 by {
        lemma_pair_of_position_is_unique(schema.variants, i, j, pair.0, pair.1);
    }
    pair
}

/// Classification goes by the exact text of the payload type identifier: the canonical
/// text type name is plain text, any other identifier is a named type, and no identifier
/// is absent.
pub proof fn lemma_classification_is_exact(payload_type: Option<Seq<char>>)
    ensures
        spec_classify(payload_type) == PayloadClassification::PlainText <==> payload_type
            == Some(canonical_text_type()),
        spec_classify(payload_type) == PayloadClassification::NamedType <==> (payload_type is Some
            && payload_type->Some_0 != canonical_text_type()),
        spec_classify(payload_type) == PayloadClassification::Absent <==> payload_type is None,
{
}

/// Only a named type is wrapped directly; plain text and an absent payload are rendered as
/// text first.
pub proof fn lemma_strategy_of_classification(classification: PayloadClassification)
    ensures
        spec_strategy(classification) == Strategy::DirectWrap <==> classification
            == PayloadClassification::NamedType,
        spec_strategy(classification) == Strategy::StringifyWrap <==> classification
            != PayloadClassification::NamedType,
{
}

/// A variant whose metadata block is a list without items declares nothing: it gives no
/// conversion and no error.
pub proof fn lemma_empty_list_declares_nothing(variant: VariantSpecView)
    requires
        variant.annotation == Some(MetaBlockView::List(Seq::<MetaItemView>::empty())),
    ensures
        spec_variant_conversions(variant) == Ok::<Seq<ConversionSpecView>, GenerationErrorView>(
            Seq::empty(),
        ),
{
    let items = Seq::<MetaItemView>::empty();
    assert(all_text(items));
    lemma_first_none(items, empty_text());
    assert(spec_variant_conversions(variant)->Ok_0 =~= Seq::empty());
}

/// A variant whose metadata block is a list of text literals, one of them the empty text,
/// is in error by an empty source name, and the error gives the position of the first
/// empty text.
pub proof fn lemma_empty_text_is_an_error(variant: VariantSpecView, j: int)
    requires
        variant.annotation matches Some(MetaBlockView::List(items)) && all_text(items) && 0 <= j
            < items.len() && is_empty_text(items[j]),
    ensures
        spec_get_attributes(variant) matches Err(
            GenerationErrorView::EmptySourceName { variant: name, position },
        ) && name == variant.name && position <= j && is_first(
            variant.annotation->Some_0->List_0,
            empty_text(),
            position as int,
        ),
        spec_variant_conversions(variant) is Err,
{
    let items = variant.annotation->Some_0->List_0;
    assert(empty_text()(items[j]));
    lemma_first_is_some_iff(items, empty_text());
    let position = first(items, empty_text())->Some_0;
    if j < position {
        assert(!empty_text()(items[j]));
    }
}

/// A variant without a metadata block ends the run in error, so that no conversion is
/// given for any variant. Where every variant before it is well formed, the error is the
/// missing annotation of that variant.
pub proof fn lemma_missing_annotation_aborts(schema: EnumSchemaView, i: int)
    requires
        0 <= i < schema.variants.len(),
        schema.variants[i].annotation is None,
    ensures
        spec_map_field_meta(schema) is Err,
        (forall|k: int| 0 <= k < i ==> spec_get_attributes(#[trigger] schema.variants[k]) is Ok)
            ==> spec_map_field_meta(schema) == Err::<Seq<ConversionSpecView>, GenerationErrorView>(
            GenerationErrorView::MissingAnnotation { variant: schema.variants[i].name },
        ),
{
    let outcomes = spec_variant_outcomes(schema.variants);
    assert(outcomes[i] is Err);
    lemma_collect_fails_iff(outcomes);
    if forall|k: int| 0 <= k < i ==> spec_get_attributes(#[trigger] schema.variants[k]) is Ok {
        assert forall|k: int| 0 <= k < i implies (#[trigger] outcomes[k]) is Ok by {
            assert(spec_get_attributes(schema.variants[k]) is Ok);
        }
        lemma_collect_err(outcomes, i);
    }
}

/// A declared variant none of whose attributes reads as a metadata block ends the whole
/// run on the declaration in error.
pub proof fn lemma_unannotated_variant_aborts(declaration: DeclarationView, i: int)
    requires
        declaration matches DeclarationView::Enum { variants, .. } && 0 <= i < variants.len()
            && forall|k: int|
            0 <= k < variants[i].attributes.len() ==> (#[trigger] variants[i].attributes[k])
                is Unparsed,
    ensures
        spec_derive(declaration) is Err,
{
    let variants = declaration->Enum_variants;
    let outcomes = spec_read_outcomes(variants);
    lemma_collect_fails_iff(outcomes);
    if spec_read_declaration(declaration) is Ok {
        lemma_collect_ok(outcomes);
        let schema = spec_read_declaration(declaration)->Ok_0;
        assert(outcomes[i] is Ok);
        assert(schema.variants[i] == outcomes[i]->Ok_0);
        assert forall|k: int| 0 <= k < variants[i].attributes.len() implies !#[trigger] is_meta()(
            variants[i].attributes[k],
        ) by {
            assert(variants[i].attributes[k] is Unparsed);
        }
        lemma_first_none(variants[i].attributes, is_meta());
        assert(spec_first_meta(variants[i].attributes) is None);
        lemma_missing_annotation_aborts(schema, i);
    }
}

} // verus!
