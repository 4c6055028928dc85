//! The outcome of a transformation and the capability that produces it.

use crate::error::{TransformError, TransformErrorView};
use crate::text::Textual;
use std::collections::HashMap;
use vstd::prelude::*;

verus! {

/// `serde_json::Value`, a JSON value of any shape. It is carried to the
/// transformers; nothing of its contents is read here.
#[verifier::external_type_specification]
#[verifier::external_body]
pub struct ExJsonValue(serde_json::Value);

/// What a transformation gives back: a replacement, no replacement, or the
/// error that stopped it.
pub type TransformResult = Result<Option<String>, TransformError>;

/// The values shared by all transformations of a run, by name.
pub type Globals = HashMap<String, serde_json::Value>;

/// The three outcomes of a transformation, as plain text.
#[verifier::ext_equal]
pub enum Outcome {
    /// The field gets this replacement; it may be empty text.
    Present(Seq<char>),
    /// The transformation succeeded and there is no replacement.
    Absent,
    /// The transformation failed.
    Failure(TransformErrorView),
}

/// The outcome that a result stands for.
pub open spec fn outcome(r: TransformResult) -> Outcome {
    match r {
        Ok(Some(replacement)) => Outcome::Present(replacement@),
        Ok(None) => Outcome::Absent,
        Err(e) => Outcome::Failure(e@),
    }
}

/// A replacement is never the same outcome as no replacement, not even a
/// replacement that is empty text.
pub proof fn lemma_present_is_not_absent(replacement: String)
    ensures
        outcome(Ok(Some(replacement))) != outcome(Ok(None)),
{
}

/// The canonical outcomes, one call each.
pub trait TransformResultHelper {
    /// Success with the textual form of `value` as the replacement.
    fn present<T: Textual>(value: T) -> (r: TransformResult)
        ensures
            outcome(r) == Outcome::Present(value.text()),
    {
        Ok(Some(value.to_text()))
    }

    /// Failure on the given field, with the textual forms of the three values
    /// as the parts of the error.
    fn error<T: Textual>(field_name: T, field_value: T, reason: T) -> (r: TransformResult)
        ensures
            outcome(r) == Outcome::Failure(
                (TransformErrorView {
                    field_name: field_name.text(),
                    field_value: field_value.text(),
                    reason: reason.text(),
                }),
            ),
    {
        Err(
            TransformError {
                field_name: field_name.to_text(),
                field_value: field_value.to_text(),
                reason: reason.to_text(),
            },
        )
    }
}

impl TransformResultHelper for TransformResult {

}

/// What every anonymizer can do: turn the value of a field into its
/// replacement.
pub trait Transformer {
    /// Transforms the value `field_value` of the field `field_name`. `globals`
    /// holds the values shared by the run, where there are any.
    fn transform(
        &self,
        field_name: &str,
        field_value: &str,
        globals: &Option<Globals>,
    ) -> TransformResult;
}

} // verus!
