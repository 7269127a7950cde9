//! The convention that every call into Neovim follows.
//!
//! The caller hands over its arguments as borrowed views, together with a
//! fresh [`ErrorSlot`]. When the call returns, the slot is inspected
//! first: if Neovim reported a failure in it, that failure is the
//! outcome and what the call returned is dropped unread. Only otherwise is
//! the returned object read.

use crate::conversion::{Error, FromObject};
use crate::object::{NvimString, Object, Value};
use vstd::prelude::*;

verus! {

/// What an [`ErrorSlot`] reports.
#[derive(Clone, Copy, Debug, PartialEq, Eq, Hash, Structural)]
pub enum ErrorType {
    /// Nothing: the call succeeded.
    NoError,
    /// The call raised an exception.
    Exception,
    /// The call refused its arguments.
    Validation,
}

/// The record in which a call into Neovim reports a failure.
#[derive(Debug, PartialEq, Eq)]
pub struct ErrorSlot {
    pub kind: ErrorType,
    pub message: NvimString,
}

impl View for ErrorSlot {
    type V = (ErrorType, Seq<u8>);

    open spec fn view(&self) -> (ErrorType, Seq<u8>) {
        (self.kind, self.message@)
    }
}

impl Clone for ErrorSlot {
    fn clone(&self) -> (copy: Self)
        ensures
            copy@ == self@,
    {
        ErrorSlot { kind: self.kind, message: self.message.clone() }
    }
}

impl ErrorSlot {
    /// A slot that reports nothing, as every call must be given.
    pub fn new() -> (slot: ErrorSlot)
        ensures
            slot@ == (ErrorType::NoError, Seq::<u8>::empty()),
            !slot.is_err(),
    {
        ErrorSlot { kind: ErrorType::NoError, message: NvimString { bytes: Vec::new() } }
    }

    /// Whether a failure was reported.
    #[verifier::when_used_as_spec(spec_is_err)]
    pub fn is_err(&self) -> (failed: bool)
        ensures
            failed == self.is_err(),
    {
        match self.kind {
            ErrorType::NoError => false,
            _ => true,
        }
    }

    /// Whether a failure was reported.
    pub open spec fn spec_is_err(&self) -> bool {
        self.kind != ErrorType::NoError
    }
}

/// Why a call into Neovim failed.
#[derive(Debug, PartialEq, Eq)]
pub enum ApiError {
    /// Neovim reported the failure, in these words.
    Nvim(ErrorSlot),
    /// What Neovim returned could not be read, or an argument could not
    /// be written.
    Conversion(Error),
    /// The call went through, and its result means a failure.
    Custom(String),
}

/// The model of an [`ApiError`].
pub enum ApiErrorView {
    Nvim(ErrorType, Seq<u8>),
    Conversion(Error),
    Custom(Seq<char>),
}

impl View for ApiError {
    type V = ApiErrorView;

    open spec fn view(&self) -> ApiErrorView {
        match self {
            ApiError::Nvim(slot) => ApiErrorView::Nvim(slot.kind, slot.message@),
            ApiError::Conversion(e) => ApiErrorView::Conversion(*e),
            ApiError::Custom(text) => ApiErrorView::Custom(text@),
        }
    }
}

impl Clone for ApiError {
    fn clone(&self) -> (copy: Self)
        ensures
            copy@ == self@,
    {
        match self {
            ApiError::Nvim(slot) => ApiError::Nvim(slot.clone()),
            ApiError::Conversion(e) => ApiError::Conversion(e.clone()),
            ApiError::Custom(text) => ApiError::Custom(text.clone()),
        }
    }
}

/// The outcome of a call, with the value and the error replaced by their
/// models.
pub open spec fn outcome<T: DeepView>(r: Result<T, ApiError>) -> Result<T::V, ApiErrorView> {
    match r {
        Ok(x) => Ok(x.deep_view()),
        Err(e) => Err(e@),
    }
}

/// What a call amounts to, given what it left in the slot and what it
/// returned: the failure in the slot if there is one, whatever was
/// returned; else what was returned, read as a `T`.
pub open spec fn completed<T: FromObject>(slot: (ErrorType, Seq<u8>), returned: Value) -> Result<
    T::V,
    ApiErrorView,
> {
    if slot.0 != ErrorType::NoError {
        Err(ApiErrorView::Nvim(slot.0, slot.1))
    } else {
        match T::decoded(returned) {
            Ok(x) => Ok(x),
            Err(e) => Err(ApiErrorView::Conversion(e)),
        }
    }
}

/// The outcome of a call that left `slot` behind and returns nothing.
pub fn finish(slot: ErrorSlot) -> (r: Result<(), ApiError>)
    ensures
        outcome(r) == completed::<()>(slot@, Value::Nil),
{
    if slot.is_err() {
        Err(ApiError::Nvim(slot))
    } else {
        Ok(())
    }
}

/// The outcome of a call that left `slot` behind and returned
/// `returned`.
pub fn complete<T: FromObject>(slot: ErrorSlot, returned: Object) -> (r: Result<T, ApiError>)
    ensures
        outcome(r) == completed::<T>(slot@, returned@),
{
    if slot.is_err() {
        Err(ApiError::Nvim(slot))
    } else {
        match T::from_object(returned) {
            Ok(x) => Ok(x),
            Err(e) => Err(ApiError::Conversion(e)),
        }
    }
}

/// Makes a call into Neovim and tells its outcome.
///
/// `foreign` is the call: it is given a fresh slot, and hands back the
/// slot as the call left it and the object that the call returned.
pub fn call<T: FromObject, F: FnOnce(ErrorSlot) -> (ErrorSlot, Object)>(foreign: F) -> (r: Result<
    T,
    ApiError,
>)
    requires
        forall|fresh: ErrorSlot|
            fresh@ == (ErrorType::NoError, Seq::<u8>::empty()) ==> foreign.requires((fresh,)),
    ensures
        exists|fresh: ErrorSlot, slot: ErrorSlot, returned: Object|
            {
                &&& fresh@ == (ErrorType::NoError, Seq::<u8>::empty())
                &&& #[trigger] foreign.ensures((fresh,), (slot, returned))
                &&& outcome(r) == completed::<T>(slot@, returned@)
            },
{
    let fresh = ErrorSlot::new();
    let ghost given = fresh;
    let (slot, returned) = foreign(fresh);
    assert(foreign.ensures((given,), (slot, returned)));
    complete::<T>(slot, returned)
}

/// A failure in the slot is the outcome, whatever the call returned.
pub proof fn lemma_failure_ignores_what_returned<T: FromObject>(
    slot: (ErrorType, Seq<u8>),
    returned: Value,
    other: Value,
)
    requires
        slot.0 != ErrorType::NoError,
    ensures
        completed::<T>(slot, returned) == completed::<T>(slot, other),
        completed::<T>(slot, returned) == Err::<T::V, ApiErrorView>(
            ApiErrorView::Nvim(slot.0, slot.1),
        ),
{
}

/// Where the slot reports nothing, the outcome is what was returned,
/// read as a `T`, and does not depend on the words left in the slot.
pub proof fn lemma_success_reads_what_returned<T: FromObject>(
    message: Seq<u8>,
    returned: Value,
)
    ensures
        completed::<T>((ErrorType::NoError, message), returned) == match T::decoded(returned) {
            Ok(x) => Ok::<T::V, ApiErrorView>(x),
            Err(e) => Err(ApiErrorView::Conversion(e)),
        },
{
}

/// What a call amounts to that returns a plain value: the failure in the
/// slot if there is one, else the value.
pub open spec fn reply<V>(slot: (ErrorType, Seq<u8>), value: V) -> Result<V, ApiErrorView> {
    if slot.0 != ErrorType::NoError {
        Err(ApiErrorView::Nvim(slot.0, slot.1))
    } else {
        Ok(value)
    }
}

/// The outcome of a call that left `slot` behind and returned the plain
/// value `value`.
pub fn finish_with<T: DeepView>(slot: ErrorSlot, value: T) -> (r: Result<T, ApiError>)
    ensures
        outcome(r) == reply(slot@, value.deep_view()),
{
    if slot.is_err() {
        Err(ApiError::Nvim(slot))
    } else {
        Ok(value)
    }
}

} // verus!
