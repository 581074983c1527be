//! Reading a declaration into the schema of its target enum.

use vstd::prelude::*;
use crate::declaration::{
    AttributeDecl,
    AttributeDeclView,
    Declaration,
    DeclarationView,
    FieldsDecl,
    FieldsDeclView,
    TypeDecl,
    TypeDeclView,
    VariantDecl,
    VariantDeclView,
};
use crate::error::{GenerationError, GenerationErrorView};
use crate::first::{first, lemma_first_at, lemma_first_none};
use crate::metadata::{MetaBlock, MetaBlockView};
use crate::outcome::{
    all_ok,
    collect,
    lemma_collect_err,
    lemma_collect_ok,
    outcome_view,
    values,
};
use crate::schema::{
    EnumSchema,
    EnumSchemaView,
    PayloadShape,
    PayloadShapeView,
    VariantSpec,
    VariantSpecView,
};

verus! {

/// The leading segment of a declared type, where the type is a path that has one.
pub open spec fn spec_leading_segment(ty: TypeDeclView) -> Option<Seq<char>> {
    match ty {
        TypeDeclView::Path(segments) => if segments.len() > 0 {
            Some(segments[0])
        } else {
            None
        },
        TypeDeclView::Other => None,
    }
}

/// The payload type identifier of a variant's fields: the leading path segment of the
/// declared type where there is exactly one positional field, and none otherwise.
pub open spec fn spec_unnamed_ident(fields: FieldsDeclView) -> Option<Seq<char>> {
    match fields {
        FieldsDeclView::Unnamed(types) => if types.len() == 1 {
            spec_leading_segment(types[0])
        } else {
            None
        },
        _ => None,
    }
}

/// The fields are of a shape that conversions can be generated for: no named fields, and
/// one positional field at most.
pub open spec fn spec_supported_shape(fields: FieldsDeclView) -> bool {
    match fields {
        FieldsDeclView::Unit => true,
        FieldsDeclView::Unnamed(types) => types.len() <= 1,
        FieldsDeclView::Named => false,
    }
}

/// The condition that an attribute reads as a metadata block.
pub open spec fn is_meta() -> spec_fn(AttributeDeclView) -> bool {
    |attribute: AttributeDeclView| attribute is Meta
}

/// The metadata block of a variant: that of the first attribute that reads as one.
pub open spec fn spec_first_meta(attributes: Seq<AttributeDeclView>) -> Option<MetaBlockView> {
    match first(attributes, is_meta()) {
        Some(i) => Some(attributes[i]->Meta_0),
        None => None,
    }
}

/// The payload shape that a payload type identifier stands for.
pub open spec fn spec_payload_shape(ident: Option<Seq<char>>) -> PayloadShapeView {
    match ident {
        Some(name) => PayloadShapeView::SinglePositionalField(name),
        None => PayloadShapeView::NoPayload,
    }
}

/// One variant as the schema holds it, or the error of an unsupported payload shape.
pub open spec fn spec_read_variant(variant: VariantDeclView) -> Result<
    VariantSpecView,
    GenerationErrorView,
> {
    if spec_supported_shape(variant.fields) {
        Ok(
            VariantSpecView {
                name: variant.name,
                payload: spec_payload_shape(spec_unnamed_ident(variant.fields)),
                annotation: spec_first_meta(variant.attributes),
            },
        )
    } else {
        Err(GenerationErrorView::UnsupportedPayloadShape { variant: variant.name })
    }
}

/// The outcome of reading each variant, in declaration order.
pub open spec fn spec_read_outcomes(variants: Seq<VariantDeclView>) -> Seq<
    Result<VariantSpecView, GenerationErrorView>,
> {
    Seq::new(variants.len(), |i: int| spec_read_variant(variants[i]))
}

/// The schema of a declaration. Anything but an enumerated type is a malformed
/// declaration; an enumerated type gives the error of its first variant of unsupported
/// shape, or else the schema of its variants in declaration order.
pub open spec fn spec_read_declaration(declaration: DeclarationView) -> Result<
    EnumSchemaView,
    GenerationErrorView,
> {
    match declaration {
        DeclarationView::Enum { name, variants } => match collect(spec_read_outcomes(variants)) {
            Ok(read) => Ok(EnumSchemaView { name, variants: read }),
            Err(error) => Err(error),
        },
        _ => Err(GenerationErrorView::MalformedDeclaration),
    }
}

/// The payload type identifier of a variant's fields.
pub fn get_variant_unnamed_ident(fields: &FieldsDecl) -> (r: Option<String>)
    ensures
        r.deep_view() == spec_unnamed_ident(fields.deep_view()),
{
    match fields {
        FieldsDecl::Unnamed(types) => {
            if types.len() == 1 {
                assert(types.deep_view()[0] == types[0].deep_view());
                match &types[0] {
                    TypeDecl::Path(segments) => {
                        if segments.len() > 0 {
                            assert(segments.deep_view()[0] == segments[0]@);
                            Some(segments[0].clone())
                        } else {
                            None
                        }
                    },
                    TypeDecl::Other => None,
                }
            } else {
                None
            }
        },
        _ => None,
    }
}

/// Whether conversions can be generated for a variant with these fields.
pub fn is_supported_shape(fields: &FieldsDecl) -> (r: bool)
    ensures
        r == spec_supported_shape(fields.deep_view()),
{
    match fields {
        FieldsDecl::Unit => true,
        FieldsDecl::Unnamed(types) => types.len() <= 1,
        FieldsDecl::Named => false,
    }
}

/// The metadata block of the first attribute that reads as one.
pub fn first_meta(attributes: &Vec<AttributeDecl>) -> (r: Option<MetaBlock>)
    ensures
        r.deep_view() == spec_first_meta(attributes.deep_view()),
{
    let mut i: usize = 0;
    while i < attributes.len()
        invariant
            i <= attributes.len(),
            forall|k: int| 0 <= k < i ==> !#[trigger] is_meta()(attributes.deep_view()[k]),
        decreases attributes.len() - i,
    {
        assert(attributes.deep_view()[i as int] == attributes[i as int].deep_view());
        match &attributes[i] {
            AttributeDecl::Meta(block) => {
                proof {
                    lemma_first_at(attributes.deep_view(), is_meta(), i as int);
                }
                return Some(block.clone());
            },
            AttributeDecl::Unparsed => {},
        }
        i = i + 1;
    }
    proof {
        lemma_first_none(attributes.deep_view(), is_meta());
    }
    None
}

/// Reads one variant into the schema's form.
pub fn read_variant(variant: &VariantDecl) -> (r: Result<VariantSpec, GenerationError>)
    ensures
        outcome_view(r) == spec_read_variant(variant.deep_view()),
{
    if !is_supported_shape(&variant.fields) {
        return Err(GenerationError::UnsupportedPayloadShape { variant: variant.name.clone() });
    }
    let payload = match get_variant_unnamed_ident(&variant.fields) {
        Some(name) => PayloadShape::SinglePositionalField(name),
        None => PayloadShape::NoPayload,
    };
    Ok(VariantSpec { name: variant.name.clone(), payload, annotation: first_meta(&variant.attributes) })
}

/// Reads the variants of an enumerated type, in declaration order, up to the first error.
pub fn read_variants(variants: &Vec<VariantDecl>) -> (r: Result<Vec<VariantSpec>, GenerationError>)
    ensures
        outcome_view(r) == collect(spec_read_outcomes(variants.deep_view())),
{
    let ghost outcomes = spec_read_outcomes(variants.deep_view());
    let mut read: Vec<VariantSpec> = Vec::new();
    let mut i: usize = 0;
    while i < variants.len()
        invariant
            i <= variants.len(),
            read.len() == i,
            outcomes == spec_read_outcomes(variants.deep_view()),
            forall|k: int| 0 <= k < i ==> (#[trigger] outcomes[k]) is Ok,
            forall|k: int| 0 <= k < i ==> (#[trigger] read[k]).deep_view() == outcomes[k]->Ok_0,
        decreases variants.len() - i,
    {
        assert(variants.deep_view()[i as int] == variants[i as int].deep_view());
        match read_variant(&variants[i]) {
            Err(error) => {
                proof {
                    lemma_collect_err(outcomes, i as int);
                }
                return Err(error);
            },
            Ok(variant) => {
                read.push(variant);
            },
        }
        i = i + 1;
    }
    proof {
        assert(all_ok(outcomes));
        lemma_collect_ok(outcomes);
        assert(read.deep_view() =~= values(outcomes));
    }
    Ok(read)
}

/// Reads a declaration into the schema of its target enum.
pub fn read_declaration(declaration: &Declaration) -> (r: Result<EnumSchema, GenerationError>)
    ensures
        outcome_view(r) == spec_read_declaration(declaration.deep_view()),
{
    match declaration {
        Declaration::Enum { name, variants } => match read_variants(variants) {
            Ok(read) => Ok(EnumSchema { name: name.clone(), variants: read }),
            Err(error) => Err(error),
        },
        _ => Err(GenerationError::MalformedDeclaration),
    }
}

} // verus!
