//! The two response records the gateway produces.

use vstd::prelude::*;

verus! {

/// Basic account and chain metrics: the current gas price, the latest
/// block number, and an address's balance. Gas price and balance are
/// decimal strings so that values beyond 53 bits cross the boundary
/// without precision loss.
#[derive(Debug)]
pub struct EthResponse {
    pub gas_price: String,
    pub block_number: u64,
    pub balance: String,
}

/// ERC-20-style token metadata read from a contract. The address field
/// echoes the caller-supplied text exactly as it arrived; the total
/// supply is a decimal string.
#[derive(Debug)]
pub struct TokenData {
    pub address: String,
    pub name: String,
    pub symbol: String,
    pub total_supply: String,
}

} // verus!
