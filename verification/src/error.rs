use vstd::prelude::*;

verus! {

/// How a fetch-and-evaluate cycle can fail, and the one fatal startup
/// failure. All fetch-time errors are recoverable; `Configuration` is
/// detected once at startup, before any cycle runs.
#[derive(Debug, PartialEq, Eq)]
pub enum WatchdogError {
    /// No response was obtained from the moderation API.
    Connectivity,
    /// The moderation API answered with a non-success status code; the
    /// raw body is kept for diagnostics.
    Api { code: i32, body: String },
    /// The response body did not parse as the expected report schema.
    Decode,
    /// A required startup value is missing.
    Configuration,
}

/// Declares minreq's error type, so that a transport failure can be
/// mapped to a [`WatchdogError`] in verified code.
#[verifier::external_type_specification]
#[verifier::external_body]
pub struct ExMinreqError(minreq::Error);

/// Declares serde_json's error type, so that a deserialization failure
/// can be mapped to a [`WatchdogError`] in verified code.
#[verifier::external_type_specification]
#[verifier::external_body]
pub struct ExSerdeJsonError(serde_json::Error);

impl core::convert::From<minreq::Error> for WatchdogError {
    /// A transport failure, whatever its cause: no usable response was
    /// obtained, so it is classified as a connectivity error.
    fn from(_error: minreq::Error) -> Self {
        WatchdogError::Connectivity
    }
}

impl vstd::std_specs::convert::FromSpecImpl<minreq::Error> for WatchdogError {
    open spec fn obeys_from_spec() -> bool {
        true
    }

    open spec fn from_spec(_error: minreq::Error) -> Self {
        WatchdogError::Connectivity
    }
}

impl core::convert::From<serde_json::Error> for WatchdogError {
    /// A malformed payload: classified as a decode error.
    fn from(_error: serde_json::Error) -> Self {
        WatchdogError::Decode
    }
}

impl vstd::std_specs::convert::FromSpecImpl<serde_json::Error> for WatchdogError {
    open spec fn obeys_from_spec() -> bool {
        true
    }

    open spec fn from_spec(_error: serde_json::Error) -> Self {
        WatchdogError::Decode
    }
}

} // verus!
