//! The account query service: gas price, latest block number, and the
//! balance of the requested address.

use crate::decimal::{dec_str, Uint256};
use crate::error::GatewayError;
use crate::models::EthResponse;
use vstd::prelude::*;

verus! {

/// The three values the account service reads from the node. The reads
/// are independent and carry no transactional guarantee: they may
/// reflect close-in-time but distinct chain states.
pub struct AccountReadings {
    pub gas_price: Uint256,
    pub block_number: u64,
    pub balance: Uint256,
}

/// Turns the outcome of the three upstream reads into the service
/// result.
///
/// If any read failed there is nothing to report but
/// `UpstreamRpcFailure`: no partial record is ever produced. On
/// success, gas price and balance are rendered as decimal strings and
/// the block number is kept as an integer.
pub fn finish_account_query(readings: Option<AccountReadings>) -> (r: Result<
    EthResponse,
    GatewayError,
>)
    ensures
        r is Ok <==> readings is Some,
        r matches Err(e) ==> e == GatewayError::UpstreamRpcFailure,
        readings matches Some(v) ==> r matches Ok(resp) && {
            &&& resp.gas_price@ == dec_str(v.gas_price.as_nat())
            &&& resp.block_number == v.block_number
            &&& resp.balance@ == dec_str(v.balance.as_nat())
        },
{
    match readings {
        None => Err(GatewayError::UpstreamRpcFailure),
        Some(v) => Ok(
            EthResponse {
                gas_price: v.gas_price.to_decimal_string(),
                block_number: v.block_number,
                balance: v.balance.to_decimal_string(),
            },
        ),
    }
}

} // verus!
