//! The error that reports a failed transformation.

use crate::text::Textual;
use core::fmt::Display;
use vstd::prelude::*;
use vstd::std_specs::cmp::PartialEqSpec;
use vstd::std_specs::convert::FromSpecImpl;
use vstd::string::*;

verus! {

/// `tera::Error`, the error of the templating engine. It is carried and
/// written out; nothing of its contents is read here.
#[verifier::external_type_specification]
#[verifier::external_body]
pub struct ExTemplateError(tera::Error);

/// `chrono::ParseError`, the error of the date parser. It is carried and
/// written out; nothing of its contents is read here.
#[verifier::external_type_specification]
#[verifier::external_body]
pub struct ExDateParseError(chrono::ParseError);

/// `text` is what `value` reads as: what `to_string` gives for it. An outside
/// value fixes its own text, so this says which text it is and not what is in
/// it.
pub open spec fn reads_as<E: Display>(value: &E, text: String) -> bool {
    to_string_from_display_ensures::<E>(value, text)
}

/// A failed transformation as plain text: the field it happened on, the value
/// that the field had, and why the transformation failed.
#[verifier::ext_equal]
pub struct TransformErrorView {
    pub field_name: Seq<char>,
    pub field_value: Seq<char>,
    pub reason: Seq<char>,
}

impl TransformErrorView {
    /// What the error reads as: the reason behind a fixed lead. The field and
    /// its value are left out, and are there for programs to inspect.
    pub open spec fn rendering(self) -> Seq<char> {
        "failed to transform field: "@ + self.reason
    }

    /// The error names no field: it came from a place that does not know which
    /// field it was working on.
    pub open spec fn is_unattributed(self) -> bool {
        &&& self.field_name == Seq::<char>::empty()
        &&& self.field_value == Seq::<char>::empty()
    }
}

/// A failed transformation. No part is ever missing: a part that is not known
/// is empty text.
#[derive(Debug)]
pub struct TransformError {
    pub field_name: String,
    pub field_value: String,
    pub reason: String,
}

impl View for TransformError {
    type V = TransformErrorView;

    open spec fn view(&self) -> TransformErrorView {
        TransformErrorView {
            field_name: self.field_name@,
            field_value: self.field_value@,
            reason: self.reason@,
        }
    }
}

impl TransformError {
    /// The error for a failure that happened outside any field: it keeps the
    /// reason and names no field.
    pub fn from_reason(reason: String) -> (e: Self)
        ensures
            e@.is_unattributed(),
            e.reason == reason,
    {
        TransformError { field_name: String::new(), field_value: String::new(), reason }
    }

    /// What the error reads as.
    pub fn to_string(&self) -> (s: String)
        ensures
            s@ == self@.rendering(),
    {
        "failed to transform field: ".to_owned().concat(self.reason.as_str())
    }

    /// The reason, as the description of the error.
    pub fn description(&self) -> (s: &str)
        ensures
            s@ == self@.reason,
    {
        self.reason.as_str()
    }
}

/// An error is text-convertible: its textual form is what it reads as.
impl Textual for TransformError {
    open spec fn text(&self) -> Seq<char> {
        self@.rendering()
    }

    fn to_text(&self) -> (s: String) {
        self.to_string()
    }
}

impl Clone for TransformError {
    fn clone(&self) -> (e: Self)
        ensures
            e == *self,
    {
        TransformError {
            field_name: self.field_name.clone(),
            field_value: self.field_value.clone(),
            reason: self.reason.clone(),
        }
    }
}

impl PartialEq for TransformError {
    fn eq(&self, other: &Self) -> (r: bool) {
        self.field_name == other.field_name && self.field_value == other.field_value
            && self.reason == other.reason
    }
}

/// Two errors are equal exactly when their three parts are equal, each to each.
impl vstd::std_specs::cmp::PartialEqSpecImpl for TransformError {
    open spec fn obeys_eq_spec() -> bool {
        true
    }

    open spec fn eq_spec(&self, other: &Self) -> bool {
        &&& self.field_name@ == other.field_name@
        &&& self.field_value@ == other.field_value@
        &&& self.reason@ == other.reason@
    }
}

impl Eq for TransformError {

}

/// Equality of errors is equality of their three parts, and so of their
/// views: every error equals itself, and equality does not depend on the side
/// an error stands on.
pub proof fn lemma_equality_is_structural(a: TransformError, b: TransformError)
    ensures
        a.eq_spec(&b) <==> a@ == b@,
        a.eq_spec(&a),
        a.eq_spec(&b) <==> b.eq_spec(&a),
{
}

/// An error without a reason reads as the bare lead.
pub proof fn lemma_rendering_of_empty_reason(e: TransformErrorView)
    requires
        e.reason.len() == 0,
    ensures
        e.rendering() == "failed to transform field: "@,
{
}

impl From<tera::Error> for TransformError {
    /// A failure of the templating engine: it names no field, and its reason
    /// is what the engine's error reads as.
    fn from(err: tera::Error) -> (e: Self)
        ensures
            e@.is_unattributed(),
            reads_as(&err, e.reason),
    {
        TransformError::from_reason(err.to_string())
    }
}

/// What the conversion gives is fixed up to the text of its parts, and the text
/// of the reason is the engine's to choose: `from` says so in its own
/// `ensures`, and promises no single value.
impl FromSpecImpl<tera::Error> for TransformError {
    open spec fn obeys_from_spec() -> bool {
        false
    }

    open spec fn from_spec(err: tera::Error) -> Self {
        choose|e: TransformError| e@.is_unattributed() && reads_as(&err, e.reason)
    }
}

impl From<chrono::ParseError> for TransformError {
    /// A failure of the date parser: it names no field, and its reason is what
    /// the parser's error reads as.
    fn from(err: chrono::ParseError) -> (e: Self)
        ensures
            e@.is_unattributed(),
            reads_as(&err, e.reason),
    {
        TransformError::from_reason(err.to_string())
    }
}

/// What the conversion gives is fixed up to the text of its parts, and the text
/// of the reason is the parser's to choose: `from` says so in its own
/// `ensures`, and promises no single value.
impl FromSpecImpl<chrono::ParseError> for TransformError {
    open spec fn obeys_from_spec() -> bool {
        false
    }

    open spec fn from_spec(err: chrono::ParseError) -> Self {
        choose|e: TransformError| e@.is_unattributed() && reads_as(&err, e.reason)
    }
}

} // verus!
