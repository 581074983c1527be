//! Metadata blocks attached to a variant, as plain data.

use vstd::prelude::*;

verus! {

/// One item of a parenthesized metadata list.
#[derive(Debug, PartialEq, Eq)]
pub enum MetaItem {
    /// A text literal, with the text it denotes.
    Text(String),
    /// Anything that is not a text literal.
    Other,
}

/// The mathematical model of a [`MetaItem`].
pub enum MetaItemView {
    Text(Seq<char>),
    Other,
}

impl DeepView for MetaItem {
    type V = MetaItemView;

    open spec fn deep_view(&self) -> MetaItemView {
        match self {
            MetaItem::Text(text) => MetaItemView::Text(text@),
            MetaItem::Other => MetaItemView::Other,
        }
    }
}

impl Clone for MetaItem {
    fn clone(&self) -> (r: Self)
        ensures
            r.deep_view() == self.deep_view(),
    {
        match self {
            MetaItem::Text(text) => MetaItem::Text(text.clone()),
            MetaItem::Other => MetaItem::Other,
        }
    }
}

/// A recognized metadata block, by its shape.
#[derive(Debug, PartialEq, Eq)]
pub enum MetaBlock {
    /// A bare name, as in `name`.
    Path,
    /// A name with a value, as in `name = value`.
    NameValue,
    /// A name with a parenthesized list, as in `name(item, item)`.
    List(Vec<MetaItem>),
}

/// The mathematical model of a [`MetaBlock`].
pub enum MetaBlockView {
    Path,
    NameValue,
    List(Seq<MetaItemView>),
}

impl DeepView for MetaBlock {
    type V = MetaBlockView;

    open spec fn deep_view(&self) -> MetaBlockView {
        match self {
            MetaBlock::Path => MetaBlockView::Path,
            MetaBlock::NameValue => MetaBlockView::NameValue,
            MetaBlock::List(items) => MetaBlockView::List(items.deep_view()),
        }
    }
}

impl Clone for MetaBlock {
    fn clone(&self) -> (r: Self)
        ensures
            r.deep_view() == self.deep_view(),
    {
        match self {
            MetaBlock::Path => MetaBlock::Path,
            MetaBlock::NameValue => MetaBlock::NameValue,
            MetaBlock::List(items) => {
                let copy = items.clone();
                assert(copy.deep_view() =~= items.deep_view());
                MetaBlock::List(copy)
            },
        }
    }
}

} // verus!
