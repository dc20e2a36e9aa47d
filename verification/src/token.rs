//! The token query service: name, symbol, and total supply of an
//! ERC-20-style contract.

use crate::decimal::{dec_str, Uint256};
use crate::error::GatewayError;
use crate::models::TokenData;
use vstd::prelude::*;

verus! {

/// The three values the token service reads from the contract's view
/// functions.
pub struct TokenReadings {
    pub name: String,
    pub symbol: String,
    pub total_supply: Uint256,
}

/// Turns the outcome of the three contract calls into the service
/// result.
///
/// Any failed call — an address with no contract behind it as much as a
/// network error — collapses into `UpstreamRpcFailure`, and no partial
/// record is produced. On success the caller-supplied address text is
/// echoed back exactly as it arrived and the total supply is rendered
/// as a decimal string.
pub fn finish_token_query(address_text: &str, readings: Option<TokenReadings>) -> (r: Result<
    TokenData,
    GatewayError,
>)
    ensures
        r is Ok <==> readings is Some,
        r matches Err(e) ==> e == GatewayError::UpstreamRpcFailure,
        readings matches Some(v) ==> r matches Ok(t) && {
            &&& t.address@ == address_text@
            &&& t.name@ == v.name@
            &&& t.symbol@ == v.symbol@
            &&& t.total_supply@ == dec_str(v.total_supply.as_nat())
        },
{
    match readings {
        None => Err(GatewayError::UpstreamRpcFailure),
        Some(v) => Ok(
            TokenData {
                address: address_text.to_owned(),
                name: v.name,
                symbol: v.symbol,
                total_supply: v.total_supply.to_decimal_string(),
            },
        ),
    }
}

} // verus!
