//! The failures of the gateway and the HTTP status each one is answered with.

use vstd::prelude::*;

verus! {

/// Every way in which serving one request can fail.
#[derive(Debug, Clone, PartialEq, Eq)]
pub enum GatewayError {
    /// The request named no host.
    MissingHost,
    /// The address or the content hash of the name could not be resolved.
    NameResolutionFailed,
    /// The resolved address is not 20 bytes long, or the content hash not 32.
    InvalidIdentifierInput,
    /// The content store did not deliver the module's bytes.
    ContentFetchFailed,
    /// The fetched bytes are not a valid module.
    ModuleParseFailed,
    /// The module imports a name that is not a host function.
    UnresolvedImport(String),
    /// The module imports a host function under another kind or signature.
    ImportTypeMismatch,
    /// The module exports no linear memory named `memory`.
    MissingMemoryExport,
    /// The module's `handle` export is missing or takes or returns a value,
    /// or the module brings a start function of its own.
    MissingOrMalformedEntryPoint,
    /// A host call named a region outside the guest's linear memory.
    OutOfBoundsMemoryAccess,
    /// A host call was handed text that is not UTF-8.
    InvalidUtf8InGuestData,
    /// A host call was handed a status code outside `100..=599`.
    InvalidStatusCode,
    /// A host call came with too few arguments or with one of another type.
    UnexpectedSignature,
    /// A host call named a slot that holds no host function.
    UnsupportedHostFunction,
    /// The guest trapped, returned a value, or left the response without a status.
    GuestExecutionFailed,
    /// The guest used up its execution budget.
    GuestExecutionTimedOut,
}

/// The status code that answers a request which failed with `error`.
pub open spec fn status_of(error: GatewayError) -> u16 {
    match error {
        GatewayError::MissingHost => 404,
        GatewayError::NameResolutionFailed => 504,
        GatewayError::InvalidIdentifierInput => 502,
        GatewayError::ContentFetchFailed => 502,
        _ => 500,
    }
}

impl GatewayError {
    /// The HTTP status code sent to the client for this failure. Nothing of the
    /// guest's inner state is part of it.
    pub fn http_status(&self) -> (code: u16)
        ensures
            code == status_of(*self),
    {
        match self {
            GatewayError::MissingHost => 404,
            GatewayError::NameResolutionFailed => 504,
            GatewayError::InvalidIdentifierInput => 502,
            GatewayError::ContentFetchFailed => 502,
            _ => 500,
        }
    }
}

} // verus!
