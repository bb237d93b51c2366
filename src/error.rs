//! The faults that mapping a message can end in.
use vstd::prelude::*;
use crate::datetime::{FormattingError, FormattingErrorView};
use crate::hl7::{AccessErrorView, MessageAccessError};
use crate::message_type::MessageType;

verus! {

/// Why a message could not be mapped.
pub enum MappingError {
    /// The message lacks a segment or a field, or cannot be parsed.
    MessageAccessError(MessageAccessError),
    /// A field holds a date or a number that cannot be read.
    FormattingError(FormattingError),
    /// A field holds a value outside its coded domain: the field and what
    /// was expected there.
    MessageContentUnexpected(String, String),
    /// A resource lacks a mandatory element after mapping.
    BuilderError(String),
    /// The event type has no mapping.
    InvalidMessageType(MessageType),
    /// No department is known under the key.
    UnknownDepartment(String),
}

pub enum MappingErrorView {
    MessageAccessError(AccessErrorView),
    FormattingError(FormattingErrorView),
    MessageContentUnexpected(Seq<char>, Seq<char>),
    BuilderError(Seq<char>),
    InvalidMessageType(MessageType),
    UnknownDepartment(Seq<char>),
}

impl View for MappingError {
    type V = MappingErrorView;

    open spec fn view(&self) -> MappingErrorView {
        match self {
            MappingError::MessageAccessError(e) => MappingErrorView::MessageAccessError(e@),
            MappingError::FormattingError(e) => MappingErrorView::FormattingError(e@),
            MappingError::MessageContentUnexpected(f, x) => MappingErrorView::MessageContentUnexpected(f@, x@),
            MappingError::BuilderError(s) => MappingErrorView::BuilderError(s@),
            MappingError::InvalidMessageType(t) => MappingErrorView::InvalidMessageType(*t),
            MappingError::UnknownDepartment(s) => MappingErrorView::UnknownDepartment(s@),
        }
    }
}

/// Whether an exec result agrees with its spec: the same value, or an error
/// with the same view.
pub open spec fn agrees<T: View>(r: Result<T, MappingError>, s: Result<T::V, MappingErrorView>) -> bool {
    match s {
        Ok(v) => r is Ok && r->Ok_0@ == v,
        Err(e) => r is Err && r->Err_0@ == e,
    }
}

/// Whether an exec result holding a list agrees with its spec.
pub open spec fn agrees_vec<T: View>(r: Result<Vec<T>, MappingError>, s: Result<Seq<T::V>, MappingErrorView>) -> bool {
    match s {
        Ok(v) => r is Ok && r->Ok_0@.map_values(|x: T| x@) == v,
        Err(e) => r is Err && r->Err_0@ == e,
    }
}

/// Whether an exec result holding an optional value agrees with its spec.
pub open spec fn agrees_opt<T: View>(r: Result<Option<T>, MappingError>, s: Result<Option<T::V>, MappingErrorView>) -> bool {
    match s {
        Ok(v) => r is Ok && match r->Ok_0 {
            Some(x) => v == Some(x@),
            None => v is None,
        },
        Err(e) => r is Err && r->Err_0@ == e,
    }
}

/// A failed access to the message as a mapping fault.
pub fn from_access<T>(r: Result<T, MessageAccessError>) -> (out: Result<T, MappingError>)
    ensures
        match r {
            Ok(v) => out is Ok && out->Ok_0 == v,
            Err(e) => out is Err && out->Err_0@ == MappingErrorView::MessageAccessError(e@),
        },
{
    match r {
        Ok(v) => Ok(v),
        Err(e) => Err(MappingError::MessageAccessError(e)),
    }
}

/// A value that cannot be read as a mapping fault.
pub fn from_formatting<T>(r: Result<T, FormattingError>) -> (out: Result<T, MappingError>)
    ensures
        match r {
            Ok(v) => out is Ok && out->Ok_0 == v,
            Err(e) => out is Err && out->Err_0@ == MappingErrorView::FormattingError(e@),
        },
{
    match r {
        Ok(v) => Ok(v),
        Err(e) => Err(MappingError::FormattingError(e)),
    }
}

} // verus!
