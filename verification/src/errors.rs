//! Error values returned across the library.

use vstd::prelude::*;

verus! {

/// Error messages and things.
#[derive(Clone, Debug)]
pub enum SplunkError {
    /// Generic errors not handled by something else
    Generic(String),
    /// We failed to create a search
    SearchCreationFailed(String),
    /// You haven't authenticated yet!
    NotAuthenticated,
    /// Didn't select an Auth method
    NoAuthMethodSelected,
    /// The selected auth method cannot be used for this operation
    InvalidAuthmethod(String),
    /// The event could not be serialized
    SerdeError(String),
    /// The server rejected a request with a non-success status
    ServerRejected {
        /// HTTP status code of the rejection
        status: u16,
        /// Response body sent along with the rejection
        body: String,
    },
}

impl From<String> for SplunkError {
    fn from(value: String) -> (r: Self) {
        SplunkError::Generic(value)
    }
}

impl vstd::std_specs::convert::FromSpecImpl<String> for SplunkError {
    open spec fn obeys_from_spec() -> bool {
        true
    }

    open spec fn from_spec(v: String) -> Self {
        SplunkError::Generic(v)
    }
}

} // verus!
