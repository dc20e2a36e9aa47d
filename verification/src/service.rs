//! The per-request decisions both services share: check the
//! configuration, then validate the caller-supplied address text.
//!
//! The HTTP layer drives a request in two steps. It first calls
//! [`validate_request`]; on `Ok` it performs the upstream RPC reads and
//! hands their outcome to the service's finish function.

use crate::address::{address_bytes, is_valid_address, parse_address, EthAddress};
use crate::config::Config;
use crate::error::{spec_status_code, GatewayError};
use vstd::prelude::*;

verus! {

/// The decision both services take before any upstream call: a missing
/// RPC URL fails the request with `MissingConfiguration`, then malformed
/// address text fails it with `InvalidAddress`; otherwise the request
/// proceeds.
pub open spec fn request_gate(has_rpc_url: bool, address_text: Seq<char>) -> Option<GatewayError> {
    if !has_rpc_url {
        Some(GatewayError::MissingConfiguration)
    } else if !is_valid_address(address_text) {
        Some(GatewayError::InvalidAddress)
    } else {
        None
    }
}

/// Checks the configuration and parses the address text, deciding
/// whether the request may proceed to its upstream reads.
pub fn validate_request(cfg: &Config, address_text: &str) -> (r: Result<EthAddress, GatewayError>)
    ensures
        r is Ok <==> request_gate(cfg.rpc_url is Some, address_text@) is None,
        r matches Err(e) ==> request_gate(cfg.rpc_url is Some, address_text@) == Some(e),
        r matches Ok(a) ==> a.well_formed() && a.bytes@ == address_bytes(address_text@),
{
    if !cfg.has_rpc_url() {
        return Err(GatewayError::MissingConfiguration);
    }
    parse_address(address_text)
}

/// Every well-formed address is let through: whatever the
/// configuration, validation never reports `InvalidAddress` for it.
pub proof fn lemma_valid_address_accepted(has_rpc_url: bool, address_text: Seq<char>)
    requires
        is_valid_address(address_text),
    ensures
        request_gate(has_rpc_url, address_text) != Some(GatewayError::InvalidAddress),
        has_rpc_url ==> request_gate(has_rpc_url, address_text) is None,
{
}

/// Every string that is not a well-formed address is turned away with
/// `InvalidAddress`, which the HTTP layer reports as status 400.
pub proof fn lemma_invalid_address_rejected(address_text: Seq<char>)
    requires
        !is_valid_address(address_text),
    ensures
        request_gate(true, address_text) == Some(GatewayError::InvalidAddress),
        spec_status_code(GatewayError::InvalidAddress) == 400,
{
}

/// With no RPC endpoint configured, every request fails with
/// `MissingConfiguration`, which the HTTP layer reports as status 500.
pub proof fn lemma_missing_configuration_rejected(address_text: Seq<char>)
    ensures
        request_gate(false, address_text) == Some(GatewayError::MissingConfiguration),
        spec_status_code(GatewayError::MissingConfiguration) == 500,
{
}

} // verus!
