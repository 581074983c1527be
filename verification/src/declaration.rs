//! The structural description of a type declaration, as handed to the reader.

use vstd::prelude::*;
use crate::metadata::{MetaBlock, MetaBlockView};

verus! {

/// The declared type of one field.
#[derive(Debug, PartialEq, Eq)]
pub enum TypeDecl {
    /// A path type, with the identifiers of its segments in order.
    Path(Vec<String>),
    /// Any type that is not written as a path.
    Other,
}

/// The mathematical model of a [`TypeDecl`].
pub enum TypeDeclView {
    Path(Seq<Seq<char>>),
    Other,
}

impl DeepView for TypeDecl {
    type V = TypeDeclView;

    open spec fn deep_view(&self) -> TypeDeclView {
        match self {
            TypeDecl::Path(segments) => TypeDeclView::Path(segments.deep_view()),
            TypeDecl::Other => TypeDeclView::Other,
        }
    }
}

impl Clone for TypeDecl {
    fn clone(&self) -> (r: Self)
        ensures
            r.deep_view() == self.deep_view(),
    {
        match self {
            TypeDecl::Path(segments) => {
                let copy = segments.clone();
                assert(copy.deep_view() =~= segments.deep_view());
                TypeDecl::Path(copy)
            },
            TypeDecl::Other => TypeDecl::Other,
        }
    }
}

/// The fields of one variant.
#[derive(Debug, PartialEq, Eq)]
pub enum FieldsDecl {
    /// No field list at all.
    Unit,
    /// Positional fields, with the declared type of each.
    Unnamed(Vec<TypeDecl>),
    /// Named fields.
    Named,
}

/// The mathematical model of a [`FieldsDecl`].
pub enum FieldsDeclView {
    Unit,
    Unnamed(Seq<TypeDeclView>),
    Named,
}

impl DeepView for FieldsDecl {
    type V = FieldsDeclView;

    open spec fn deep_view(&self) -> FieldsDeclView {
        match self {
            FieldsDecl::Unit => FieldsDeclView::Unit,
            FieldsDecl::Unnamed(types) => FieldsDeclView::Unnamed(types.deep_view()),
            FieldsDecl::Named => FieldsDeclView::Named,
        }
    }
}

impl Clone for FieldsDecl {
    fn clone(&self) -> (r: Self)
        ensures
            r.deep_view() == self.deep_view(),
    {
        match self {
            FieldsDecl::Unit => FieldsDecl::Unit,
            FieldsDecl::Unnamed(types) => {
                let copy = types.clone();
                assert(copy.deep_view() =~= types.deep_view());
                FieldsDecl::Unnamed(copy)
            },
            FieldsDecl::Named => FieldsDecl::Named,
        }
    }
}

/// One attribute attached to a variant.
#[derive(Debug, PartialEq, Eq)]
pub enum AttributeDecl {
    /// The attribute does not read as a metadata block.
    Unparsed,
    /// The attribute reads as a metadata block of the given shape.
    Meta(MetaBlock),
}

/// The mathematical model of an [`AttributeDecl`].
pub enum AttributeDeclView {
    Unparsed,
    Meta(MetaBlockView),
}

impl DeepView for AttributeDecl {
    type V = AttributeDeclView;

    open spec fn deep_view(&self) -> AttributeDeclView {
        match self {
            AttributeDecl::Unparsed => AttributeDeclView::Unparsed,
            AttributeDecl::Meta(block) => AttributeDeclView::Meta(block.deep_view()),
        }
    }
}

impl Clone for AttributeDecl {
    fn clone(&self) -> (r: Self)
        ensures
            r.deep_view() == self.deep_view(),
    {
        match self {
            AttributeDecl::Unparsed => AttributeDecl::Unparsed,
            AttributeDecl::Meta(block) => AttributeDecl::Meta(block.clone()),
        }
    }
}

/// One variant as declared: its name, its fields and its attributes in order.
#[derive(Debug, PartialEq, Eq)]
pub struct VariantDecl {
    pub name: String,
    pub fields: FieldsDecl,
    pub attributes: Vec<AttributeDecl>,
}

/// The mathematical model of a [`VariantDecl`].
pub struct VariantDeclView {
    pub name: Seq<char>,
    pub fields: FieldsDeclView,
    pub attributes: Seq<AttributeDeclView>,
}

impl DeepView for VariantDecl {
    type V = VariantDeclView;

    open spec fn deep_view(&self) -> VariantDeclView {
        VariantDeclView {
            name: self.name@,
            fields: self.fields.deep_view(),
            attributes: self.attributes.deep_view(),
        }
    }
}

impl Clone for VariantDecl {
    fn clone(&self) -> (r: Self)
        ensures
            r.deep_view() == self.deep_view(),
    {
        let attributes = self.attributes.clone();
        assert(attributes.deep_view() =~= self.attributes.deep_view());
        VariantDecl { name: self.name.clone(), fields: self.fields.clone(), attributes }
    }
}

/// A type declaration: an enumerated type with its variants, or something else.
#[derive(Debug, PartialEq, Eq)]
pub enum Declaration {
    /// An enumerated type.
    Enum { name: String, variants: Vec<VariantDecl> },
    /// A structure.
    Struct { name: String },
    /// A union.
    Union { name: String },
}

/// The mathematical model of a [`Declaration`].
pub enum DeclarationView {
    Enum { name: Seq<char>, variants: Seq<VariantDeclView> },
    Struct { name: Seq<char> },
    Union { name: Seq<char> },
}

impl DeepView for Declaration {
    type V = DeclarationView;

    open spec fn deep_view(&self) -> DeclarationView {
        match self {
            Declaration::Enum { name, variants } => DeclarationView::Enum {
                name: name@,
                variants: variants.deep_view(),
            },
            Declaration::Struct { name } => DeclarationView::Struct { name: name@ },
            Declaration::Union { name } => DeclarationView::Union { name: name@ },
        }
    }
}

impl Clone for Declaration {
    fn clone(&self) -> (r: Self)
        ensures
            r.deep_view() == self.deep_view(),
    {
        match self {
            Declaration::Enum { name, variants } => {
                let copy = variants.clone();
                assert(copy.deep_view() =~= variants.deep_view());
                Declaration::Enum { name: name.clone(), variants: copy }
            },
            Declaration::Struct { name } => Declaration::Struct { name: name.clone() },
            Declaration::Union { name } => Declaration::Union { name: name.clone() },
        }
    }
}

} // verus!
