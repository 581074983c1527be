//! The schema of a target enum: what the generation of conversions reads.

use vstd::prelude::*;
use crate::metadata::{MetaBlock, MetaBlockView};

verus! {

/// The payload of a variant, in the shapes that conversions can be generated for.
#[derive(Debug, PartialEq, Eq)]
pub enum PayloadShape {
    /// The variant carries no payload type identifier.
    NoPayload,
    /// The variant has a single positional field, declared with this type identifier.
    SinglePositionalField(String),
}

/// The mathematical model of a [`PayloadShape`].
pub enum PayloadShapeView {
    NoPayload,
    SinglePositionalField(Seq<char>),
}

impl DeepView for PayloadShape {
    type V = PayloadShapeView;

    open spec fn deep_view(&self) -> PayloadShapeView {
        match self {
            PayloadShape::NoPayload => PayloadShapeView::NoPayload,
            PayloadShape::SinglePositionalField(name) => PayloadShapeView::SinglePositionalField(
                name@,
            ),
        }
    }
}

impl Clone for PayloadShape {
    fn clone(&self) -> (r: Self)
        ensures
            r.deep_view() == self.deep_view(),
    {
        match self {
            PayloadShape::NoPayload => PayloadShape::NoPayload,
            PayloadShape::SinglePositionalField(name) => PayloadShape::SinglePositionalField(
                name.clone(),
            ),
        }
    }
}

/// One variant of the target enum: its name, its payload and its metadata block, if any.
#[derive(Debug, PartialEq, Eq)]
pub struct VariantSpec {
    pub name: String,
    pub payload: PayloadShape,
    pub annotation: Option<MetaBlock>,
}

/// The mathematical model of a [`VariantSpec`].
pub struct VariantSpecView {
    pub name: Seq<char>,
    pub payload: PayloadShapeView,
    pub annotation: Option<MetaBlockView>,
}

impl DeepView for VariantSpec {
    type V = VariantSpecView;

    open spec fn deep_view(&self) -> VariantSpecView {
        VariantSpecView {
            name: self.name@,
            payload: self.payload.deep_view(),
            annotation: self.annotation.deep_view(),
        }
    }
}

impl Clone for VariantSpec {
    fn clone(&self) -> (r: Self)
        ensures
            r.deep_view() == self.deep_view(),
    {
        let annotation = match &self.annotation {
            Some(block) => Some(block.clone()),
            None => None,
        };
        VariantSpec { name: self.name.clone(), payload: self.payload.clone(), annotation }
    }
}

/// The target enum: its name and its variants in declaration order.
#[derive(Debug, PartialEq, Eq)]
pub struct EnumSchema {
    pub name: String,
    pub variants: Vec<VariantSpec>,
}

/// The mathematical model of an [`EnumSchema`].
pub struct EnumSchemaView {
    pub name: Seq<char>,
    pub variants: Seq<VariantSpecView>,
}

impl DeepView for EnumSchema {
    type V = EnumSchemaView;

    open spec fn deep_view(&self) -> EnumSchemaView {
        EnumSchemaView { name: self.name@, variants: self.variants.deep_view() }
    }
}

impl Clone for EnumSchema {
    fn clone(&self) -> (r: Self)
        ensures
            r.deep_view() == self.deep_view(),
    {
        let variants = self.variants.clone();
        assert(variants.deep_view() =~= self.variants.deep_view());
        EnumSchema { name: self.name.clone(), variants }
    }
}

} // verus!
