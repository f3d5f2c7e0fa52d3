//! The common error type of the contract boundary.
//!
//! Every failure a transport can surface — a readiness failure, a dispatch
//! failure, a body-streaming failure — is normalized into [`TransportError`]
//! by an explicit, statically checked conversion. No error is swallowed:
//! each failure path produces exactly one observable error value.

use vstd::prelude::*;

verus! {

/// The mathematical view of a [`TransportError`]: a numeric identity and
/// the text describing the failure.
#[verifier::ext_equal]
pub ghost struct ErrorModel {
    /// Identifies the failure; conversions preserve it.
    pub code: u64,
    /// Human-readable description of the failure.
    pub detail: Seq<char>,
}

/// The common error type: what every transport-level and body-level error
/// converts into at this crate's boundary.
#[derive(Debug)]
pub struct TransportError {
    code: u64,
    detail: String,
}

impl View for TransportError {
    type V = ErrorModel;

    closed spec fn view(&self) -> ErrorModel {
        ErrorModel { code: self.code, detail: self.detail@ }
    }
}

impl TransportError {
    /// Builds a common error from a failure code and its description.
    pub fn new(code: u64, detail: String) -> (e: Self)
        ensures
            e@.code == code,
            e@.detail == detail@,
    {
        TransportError { code, detail }
    }

    /// The numeric identity of the failure.
    pub fn code(&self) -> (c: u64)
        ensures
            c == self@.code,
    {
        self.code
    }

    /// The description of the failure.
    pub fn detail(&self) -> (d: &String)
        ensures
            d@ == self@.detail,
    {
        &self.detail
    }
}

/// The composability constraint of the capability contract: a native error
/// type that converts into the common error type.
///
/// `transport_view` is the specification of the conversion; `into_transport`
/// must realize exactly that view, so adaptation adds error normalization
/// and nothing else.
pub trait IntoTransportError: Sized {
    /// The common-error view this native error converts to.
    spec fn transport_view(&self) -> ErrorModel;

    /// Converts the native error into the common error type.
    fn into_transport(self) -> (e: TransportError)
        ensures
            e@ == self.transport_view(),
    ;
}

} // verus!
