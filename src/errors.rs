//! The errors that registration and request handling report.

use vstd::prelude::*;

verus! {

/// What went wrong while registering a function or reading a request.
#[derive(Debug, Clone, Copy, PartialEq, Eq, Structural)]
pub enum CCIPReadMiddlewareError {
    /// The interface description has no function of the requested name.
    UnknownFunction,
    /// A request body could not be read.
    Parsing,
    /// Call data did not fit the ABI types of the matched function.
    Abi,
    /// Call data was not `0x`-prefixed hex text.
    ParseBytes,
    /// Call data was too short to hold a selector.
    MalformedCall,
}

impl CCIPReadMiddlewareError {
    /// A short human-readable description of the error.
    pub fn message(&self) -> (r: &'static str)
        ensures
            *self == CCIPReadMiddlewareError::UnknownFunction ==> r@ == "Unknown function"@,
            *self == CCIPReadMiddlewareError::Parsing ==> r@ == "Parsing error"@,
            *self == CCIPReadMiddlewareError::Abi ==> r@ == "Abi error"@,
            *self == CCIPReadMiddlewareError::ParseBytes ==> r@ == "Parse bytes error"@,
            *self == CCIPReadMiddlewareError::MalformedCall ==> r@ == "Malformed call"@,
    {
        match self {
            CCIPReadMiddlewareError::UnknownFunction => "Unknown function",
            CCIPReadMiddlewareError::Parsing => "Parsing error",
            CCIPReadMiddlewareError::Abi => "Abi error",
            CCIPReadMiddlewareError::ParseBytes => "Parse bytes error",
            CCIPReadMiddlewareError::MalformedCall => "Malformed call",
        }
    }
}

} // verus!
