//! Decides which value conversions a variant-annotated enum declaration asks for.
//!
//! A target enum absorbs values of other types: each of its variants names, in a metadata
//! block, the source types that convert into it. From a description of the declaration
//! this library works out the list of conversions to generate, and for each the way the
//! source value gets into the variant: unchanged, or rendered as text first.
//!
//! A run goes through these stages, each a function of its input alone:
//!
//! - [`reader`] turns a [`declaration::Declaration`] into the [`schema::EnumSchema`] of
//!   the target enum, or rejects it;
//! - [`annotation`] extracts from each variant of the schema the source type names it
//!   declares, or rejects its metadata;
//! - [`classify`] classifies the variant's payload by the name of its type;
//! - [`emit`] gives one [`emit::ConversionSpec`] for each declared name;
//! - [`pipeline`] runs the stages over all variants and stops at the first error.
//!
//! What holds of every run is proved in [`laws`], over the models that [`first`],
//! [`outcome`] and [`flatten`] give of "the first item that", "the first error or all
//! values" and "one group after the other". Turning a conversion into program text is left
//! to the caller; [`emit::convert`] carries one out on a value, and [`example`] shows the
//! conversions of a small aggregated error type written out.

pub mod annotation;
pub mod classify;
pub mod declaration;
pub mod emit;
pub mod error;
pub mod example;
pub mod first;
pub mod flatten;
pub mod laws;
pub mod metadata;
pub mod outcome;
pub mod pipeline;
pub mod reader;
pub mod schema;
