//! Extraction of a variant's declared source type names from its metadata block.

use vstd::prelude::*;
use crate::error::{GenerationError, GenerationErrorView};
use crate::first::{first, lemma_first_at, lemma_first_none};
use crate::metadata::{MetaBlock, MetaBlockView, MetaItem, MetaItemView};
use crate::outcome::outcome_view;
use crate::schema::{PayloadShape, PayloadShapeView, VariantSpec, VariantSpecView};

verus! {

/// What one variant declares: the source type names that convert into it, in the order
/// written, and the type identifier of its payload, if it has one.
#[derive(Debug, PartialEq, Eq)]
pub struct AnnotationBinding {
    pub variant: String,
    pub sources: Vec<String>,
    pub payload_type: Option<String>,
}

/// The mathematical model of an [`AnnotationBinding`].
pub struct AnnotationBindingView {
    pub variant: Seq<char>,
    pub sources: Seq<Seq<char>>,
    pub payload_type: Option<Seq<char>>,
}

impl DeepView for AnnotationBinding {
    type V = AnnotationBindingView;

    open spec fn deep_view(&self) -> AnnotationBindingView {
        AnnotationBindingView {
            variant: self.variant@,
            sources: self.sources.deep_view(),
            payload_type: self.payload_type.deep_view(),
        }
    }
}

impl Clone for AnnotationBinding {
    fn clone(&self) -> (r: Self)
        ensures
            r.deep_view() == self.deep_view(),
    {
        let sources = self.sources.clone();
        assert(sources.deep_view() =~= self.sources.deep_view());
        let payload_type = match &self.payload_type {
            Some(name) => Some(name.clone()),
            None => None,
        };
        AnnotationBinding { variant: self.variant.clone(), sources, payload_type }
    }
}

/// Every item of the list is a text literal.
pub open spec fn all_text(items: Seq<MetaItemView>) -> bool {
    forall|i: int| 0 <= i < items.len() ==> (#[trigger] items[i]) is Text
}

/// The item is a text literal that denotes the empty text.
pub open spec fn is_empty_text(item: MetaItemView) -> bool {
    item matches MetaItemView::Text(text) && text.len() == 0
}

/// The condition that an item is a text literal that denotes the empty text.
pub open spec fn empty_text() -> spec_fn(MetaItemView) -> bool {
    |item: MetaItemView| is_empty_text(item)
}

/// The position of the first text literal of the list that denotes the empty text.
pub open spec fn spec_first_empty_text(items: Seq<MetaItemView>) -> Option<nat> {
    match first(items, empty_text()) {
        Some(i) => Some(i as nat),
        None => None,
    }
}

/// The text that an item denotes; the empty text for an item that is no text literal.
pub open spec fn item_text(item: MetaItemView) -> Seq<char> {
    match item {
        MetaItemView::Text(text) => text,
        MetaItemView::Other => Seq::empty(),
    }
}

/// The texts of a list's items, in order.
pub open spec fn item_texts(items: Seq<MetaItemView>) -> Seq<Seq<char>> {
    Seq::new(items.len(), |i: int| item_text(items[i]))
}

/// The type identifier that a payload shape carries.
pub open spec fn spec_payload_type(payload: PayloadShapeView) -> Option<Seq<char>> {
    match payload {
        PayloadShapeView::NoPayload => None,
        PayloadShapeView::SinglePositionalField(name) => Some(name),
    }
}

/// The binding of a variant, or the error that its metadata gives.
///
/// A variant without a metadata block is a missing annotation. A block that is not a list,
/// or a list with an item that is no text literal, is a malformed annotation. Failing that,
/// a list with an empty text is an empty source name, at the position of the first such
/// text. Any other list, the empty one included, gives a binding with the texts of its
/// items.
pub open spec fn spec_get_attributes(variant: VariantSpecView) -> Result<
    AnnotationBindingView,
    GenerationErrorView,
> {
    match variant.annotation {
        None => Err(GenerationErrorView::MissingAnnotation { variant: variant.name }),
        Some(MetaBlockView::List(items)) => if !all_text(items) {
            Err(GenerationErrorView::MalformedAnnotation { variant: variant.name })
        } else {
            match spec_first_empty_text(items) {
                Some(position) => Err(
                    GenerationErrorView::EmptySourceName { variant: variant.name, position },
                ),
                None => Ok(
                    AnnotationBindingView {
                        variant: variant.name,
                        sources: item_texts(items),
                        payload_type: spec_payload_type(variant.payload),
                    },
                ),
            }
        },
        Some(_) => Err(GenerationErrorView::MalformedAnnotation { variant: variant.name }),
    }
}

/// Whether every item of the list is a text literal.
pub fn is_text_list(items: &Vec<MetaItem>) -> (r: bool)
    ensures
        r == all_text(items.deep_view()),
{
    let mut i: usize = 0;
    while i < items.len()
        invariant
            i <= items.len(),
            forall|k: int| 0 <= k < i ==> (#[trigger] items.deep_view()[k]) is Text,
        decreases items.len() - i,
    {
        match &items[i] {
            MetaItem::Text(_) => {},
            MetaItem::Other => {
                assert(!(items.deep_view()[i as int] is Text));
                return false;
            },
        }
        i = i + 1;
    }
    true
}

/// The position of the first text literal of the list that denotes the empty text.
pub fn first_empty_name(items: &Vec<MetaItem>) -> (r: Option<usize>)
    ensures
        match r {
            Some(position) => spec_first_empty_text(items.deep_view()) == Some(position as nat),
            None => spec_first_empty_text(items.deep_view()) is None,
        },
{
    let mut i: usize = 0;
    while i < items.len()
        invariant
            i <= items.len(),
            forall|k: int| 0 <= k < i ==> !#[trigger] empty_text()(items.deep_view()[k]),
        decreases items.len() - i,
    {
        match &items[i] {
            MetaItem::Text(text) => {
                if text.as_str().is_empty() {
                    proof {
                        assert(is_empty_text(items.deep_view()[i as int]));
                        lemma_first_at(items.deep_view(), empty_text(), i as int);
                    }
                    return Some(i);
                }
            },
            MetaItem::Other => {},
        }
        i = i + 1;
    }
    proof {
        lemma_first_none(items.deep_view(), empty_text());
    }
    None
}

/// The texts of the list's items, in order.
pub fn declared_names(items: &Vec<MetaItem>) -> (r: Vec<String>)
    ensures
        r.deep_view() == item_texts(items.deep_view()),
{
    let mut names: Vec<String> = Vec::new();
    let mut i: usize = 0;
    while i < items.len()
        invariant
            i <= items.len(),
            names.len() == i,
            forall|k: int| 0 <= k < i ==> names[k]@ == item_text(#[trigger] items.deep_view()[k]),
        decreases items.len() - i,
    {
        let name = match &items[i] {
            MetaItem::Text(text) => text.clone(),
            MetaItem::Other => String::new(),
        };
        names.push(name);
        i = i + 1;
    }
    assert(names.deep_view() =~= item_texts(items.deep_view()));
    names
}

impl PayloadShape {
    /// The type identifier of the payload, if the variant has one.
    pub fn type_identifier(&self) -> (r: Option<String>)
        ensures
            r.deep_view() == spec_payload_type(self.deep_view()),
    {
        match self {
            PayloadShape::NoPayload => None,
            PayloadShape::SinglePositionalField(name) => Some(name.clone()),
        }
    }
}

/// Extracts the binding of one variant from its metadata block.
pub fn get_attributes(variant: &VariantSpec) -> (r: Result<AnnotationBinding, GenerationError>)
    ensures
        outcome_view(r) == spec_get_attributes(variant.deep_view()),
{
    match &variant.annotation {
        None => Err(GenerationError::MissingAnnotation { variant: variant.name.clone() }),
        Some(MetaBlock::List(items)) => {
            if !is_text_list(items) {
                return Err(
                    GenerationError::MalformedAnnotation { variant: variant.name.clone() },
                );
            }
            match first_empty_name(items) {
                Some(position) => Err(
                    GenerationError::EmptySourceName { variant: variant.name.clone(), position },
                ),
                None => Ok(
                    AnnotationBinding {
                        variant: variant.name.clone(),
                        sources: declared_names(items),
                        payload_type: variant.payload.type_identifier(),
                    },
                ),
            }
        },
        Some(_) => Err(GenerationError::MalformedAnnotation { variant: variant.name.clone() }),
    }
}

} // verus!
