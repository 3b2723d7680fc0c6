//! The scalar values that properties resolve to, and the ways in which a
//! request of the query engine can fail.

use crate::geiger::Ratio;
use crate::text::clone_texts;
use vstd::prelude::*;

verus! {

/// The value of a property.
#[derive(Debug)]
pub enum FieldValue {
    /// The property has no value for this vertex.
    Null,
    Int64(i64),
    Uint64(u64),
    Boolean(bool),
    Text(String),
    TextList(Vec<String>),
    /// An exact fraction, for a share between 0 and 1.
    Fraction(Ratio),
}

/// The mathematical content of a [`FieldValue`].
pub enum FieldValueView {
    Null,
    Int64(int),
    Uint64(int),
    Boolean(bool),
    Text(Seq<char>),
    TextList(Seq<Seq<char>>),
    Fraction { numerator: int, denominator: int },
}

impl View for FieldValue {
    type V = FieldValueView;

    open spec fn view(&self) -> FieldValueView {
        match self {
            FieldValue::Null => FieldValueView::Null,
            FieldValue::Int64(i) => FieldValueView::Int64(*i as int),
            FieldValue::Uint64(u) => FieldValueView::Uint64(*u as int),
            FieldValue::Boolean(b) => FieldValueView::Boolean(*b),
            FieldValue::Text(t) => FieldValueView::Text(t@),
            FieldValue::TextList(l) => FieldValueView::TextList(l.deep_view()),
            FieldValue::Fraction(r) => FieldValueView::Fraction {
                numerator: r.numerator as int,
                denominator: r.denominator as int,
            },
        }
    }
}

impl DeepView for FieldValue {
    type V = FieldValueView;

    open spec fn deep_view(&self) -> FieldValueView {
        self@
    }
}

impl Clone for FieldValue {
    fn clone(&self) -> (res: FieldValue)
        ensures
            res@ == self@,
    {
        match self {
            FieldValue::Null => FieldValue::Null,
            FieldValue::Int64(i) => FieldValue::Int64(*i),
            FieldValue::Uint64(u) => FieldValue::Uint64(*u),
            FieldValue::Boolean(b) => FieldValue::Boolean(*b),
            FieldValue::Text(t) => FieldValue::Text(t.clone()),
            FieldValue::TextList(l) => FieldValue::TextList(clone_texts(l)),
            FieldValue::Fraction(r) => FieldValue::Fraction(*r),
        }
    }
}

impl FieldValue {
    /// The text, or `Null` where there is none.
    pub fn from_optional_text(text: &Option<String>) -> (res: FieldValue)
        ensures
            res@ == match text.deep_view() {
                Some(t) => FieldValueView::Text(t),
                None => FieldValueView::Null,
            },
    {
        match text {
            Some(t) => FieldValue::Text(t.clone()),
            None => FieldValue::Null,
        }
    }

    /// The truth value that this value holds, if it holds one.
    pub fn as_bool(&self) -> (res: Option<bool>)
        ensures
            res == match self@ {
                FieldValueView::Boolean(b) => Some(b),
                _ => None,
            },
    {
        match self {
            FieldValue::Boolean(b) => Some(*b),
            _ => None,
        }
    }

    /// The text that this value holds, if it holds one.
    pub fn as_str(&self) -> (res: Option<&str>)
        ensures
            match self@ {
                FieldValueView::Text(t) => res matches Some(s) && s@ == t,
                _ => res is None,
            },
    {
        match self {
            FieldValue::Text(t) => Some(t.as_str()),
            _ => None,
        }
    }
}

/// Why the adapter cannot answer a request of the query engine. Each of
/// these is fatal to the query.
///
/// A request that the schema does not allow, or that asks for data of
/// which the adapter has said that it is not there, is no error of this
/// kind: it is a fault of the caller, and the operations leave it out of
/// what they accept.
#[derive(Clone, Copy, Debug, PartialEq, Eq, Structural)]
pub enum AdapterError {
    /// The vertex is not of the type that the request names.
    UnexpectedVertex,
    /// An advisory carries a day that the calendar does not have.
    InvalidDate,
    /// A parameter that the edge requires is absent or of the wrong type.
    MissingParameter,
    /// The `arch` parameter names no known architecture.
    UnknownArch,
    /// The `os` parameter names no known operating system.
    UnknownOs,
    /// The `minSeverity` parameter names no severity.
    UnknownSeverity,
}

} // verus!
