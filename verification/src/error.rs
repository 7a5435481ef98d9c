//! The failures that a command can end in, and the text shown for each.

use vstd::prelude::*;
use vstd::string::*;

verus! {

/// What a backend reports when one of its operations fails.
#[derive(Debug, Clone, Copy, PartialEq, Eq, Structural)]
pub enum BackendError {
    /// The object does not exist.
    NotFound,
    /// An object of that name exists already.
    AlreadyExists,
    /// The disk or the transport failed.
    IoError,
    /// The backend has no room for the content.
    QuotaExceeded,
    /// The backend did not answer in time.
    Timeout,
}

/// What a command reports to its caller when it fails.
#[derive(Debug, Clone, Copy, PartialEq, Eq, Structural)]
pub enum GatewayError {
    /// No provider is registered under the identity, or the object is absent.
    NotFound,
    /// An object of that name exists already.
    AlreadyExists,
    /// The disk or the transport failed.
    IoError,
    /// A provider could not be built, did not answer its liveness probe, or
    /// its credentials could not be stored.
    AddProviderError,
    /// A provider's credentials could not be deleted, or the provider is the
    /// home directory, which always stays.
    RemoveProviderError,
    /// The directory of credential records cannot be read or created.
    DiscoveryError,
    /// The backend did not answer in time.
    TimeoutError,
}

/// The failure that a command reports for a failure of the backend. A full
/// backend is a failed write.
pub open spec fn surfaced(e: BackendError) -> GatewayError {
    match e {
        BackendError::NotFound => GatewayError::NotFound,
        BackendError::AlreadyExists => GatewayError::AlreadyExists,
        BackendError::IoError => GatewayError::IoError,
        BackendError::QuotaExceeded => GatewayError::IoError,
        BackendError::Timeout => GatewayError::TimeoutError,
    }
}

/// The text shown to the user for each failure.
pub open spec fn message_of(e: GatewayError) -> Seq<char> {
    match e {
        GatewayError::NotFound => "Provider or object not found"@,
        GatewayError::AlreadyExists => "Object already exists"@,
        GatewayError::IoError => "Input/output error"@,
        GatewayError::AddProviderError => "Unable to add provider"@,
        GatewayError::RemoveProviderError => "Unable to remove provider"@,
        GatewayError::DiscoveryError => "Unable to read the provider directory"@,
        GatewayError::TimeoutError => "Operation timed out"@,
    }
}

impl GatewayError {
    /// Turns a backend's failure into the failure that the command reports.
    pub fn from_backend(e: BackendError) -> (r: GatewayError)
        ensures
            r == surfaced(e),
    {
        match e {
            BackendError::NotFound => GatewayError::NotFound,
            BackendError::AlreadyExists => GatewayError::AlreadyExists,
            BackendError::IoError => GatewayError::IoError,
            BackendError::QuotaExceeded => GatewayError::IoError,
            BackendError::Timeout => GatewayError::TimeoutError,
        }
    }

    /// The short text that the user sees for this failure.
    pub fn message(&self) -> (m: String)
        ensures
            m@ == message_of(*self),
    {
        match self {
            GatewayError::NotFound => String::from_str("Provider or object not found"),
            GatewayError::AlreadyExists => String::from_str("Object already exists"),
            GatewayError::IoError => String::from_str("Input/output error"),
            GatewayError::AddProviderError => String::from_str("Unable to add provider"),
            GatewayError::RemoveProviderError => String::from_str("Unable to remove provider"),
            GatewayError::DiscoveryError => String::from_str(
                "Unable to read the provider directory",
            ),
            GatewayError::TimeoutError => String::from_str("Operation timed out"),
        }
    }
}

} // verus!
