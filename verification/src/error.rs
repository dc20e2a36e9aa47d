//! The gateway's error taxonomy and its mapping to HTTP status codes.

use vstd::prelude::*;

verus! {

/// Everything that can go wrong while answering a request.
///
/// All upstream failures (network errors, node-side errors, decode
/// errors, an address with no matching contract) collapse into the one
/// `UpstreamRpcFailure` class at the service boundary.
#[derive(Clone, Copy, Debug, PartialEq, Eq, Structural)]
pub enum GatewayError {
    /// The caller-supplied text does not parse as a well-formed address.
    InvalidAddress,
    /// The RPC endpoint URL is not configured.
    MissingConfiguration,
    /// Some upstream RPC or contract call failed.
    UpstreamRpcFailure,
}

/// The HTTP status code that each error maps to: client errors and
/// upstream failures are reported as 400, a missing configuration as 500.
pub open spec fn spec_status_code(e: GatewayError) -> u16 {
    match e {
        GatewayError::InvalidAddress => 400,
        GatewayError::MissingConfiguration => 500,
        GatewayError::UpstreamRpcFailure => 400,
    }
}

impl GatewayError {
    /// The HTTP status code this error is reported as.
    pub fn status_code(&self) -> (code: u16)
        ensures
            code == spec_status_code(*self),
    {
        match self {
            GatewayError::InvalidAddress => 400,
            GatewayError::MissingConfiguration => 500,
            GatewayError::UpstreamRpcFailure => 400,
        }
    }
}

} // verus!
