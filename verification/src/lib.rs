//! The transformation contract of a data-anonymization engine: the outcome of
//! transforming one field, the error that reports a failed transformation, and
//! the capability that every anonymizer implements.

pub mod error;
pub mod text;
pub mod transformer;

pub use crate::error::{TransformError, TransformErrorView};
pub use crate::text::Textual;
pub use crate::transformer::{
    outcome, Globals, Outcome, TransformResult, TransformResultHelper, Transformer,
};
