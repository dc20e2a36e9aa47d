//! The HTTP layer's view of a finished request: a status code and, on
//! success, the JSON body.

use crate::error::{spec_status_code, GatewayError};
use crate::json::{eth_body_json, spec_eth_body, spec_token_body, token_body_json};
use crate::models::{EthResponse, TokenData};
use vstd::prelude::*;

verus! {

/// What the gateway answers: a status code, and a JSON body on the
/// successful path only. Error replies carry no fields of a partial
/// result.
pub struct Reply {
    pub status: u16,
    pub body: Option<String>,
}

/// Renders the account service's result as an HTTP reply: status 200
/// with the record's JSON body on success, the error's status code and
/// no body otherwise.
pub fn account_reply(outcome: Result<EthResponse, GatewayError>) -> (r: Reply)
    ensures
        outcome matches Ok(resp) ==> {
            &&& r.status == 200
            &&& r.body matches Some(b) && b@ == spec_eth_body(
                resp.gas_price@,
                resp.block_number as nat,
                resp.balance@,
            )
        },
        outcome matches Err(e) ==> r.status == spec_status_code(e) && r.body is None,
{
    match outcome {
        Ok(resp) => Reply { status: 200, body: Some(eth_body_json(&resp)) },
        Err(e) => Reply { status: e.status_code(), body: None },
    }
}

/// Renders the token service's result as an HTTP reply, under the same
/// policy as the account route.
pub fn token_reply(outcome: Result<TokenData, GatewayError>) -> (r: Reply)
    ensures
        outcome matches Ok(t) ==> {
            &&& r.status == 200
            &&& r.body matches Some(b) && b@ == spec_token_body(
                t.address@,
                t.name@,
                t.symbol@,
                t.total_supply@,
            )
        },
        outcome matches Err(e) ==> r.status == spec_status_code(e) && r.body is None,
{
    match outcome {
        Ok(t) => Reply { status: 200, body: Some(token_body_json(&t)) },
        Err(e) => Reply { status: e.status_code(), body: None },
    }
}

/// An upstream failure is reported as status 400, and an error reply
/// never carries body fields — there is no partial result.
pub proof fn lemma_upstream_failure_reply()
    ensures
        spec_status_code(GatewayError::UpstreamRpcFailure) == 400,
{
}

/// The reply bodies are functions of the fetched values alone: two
/// requests that read the same chain state render byte-identical JSON.
pub proof fn lemma_account_body_idempotent(
    gas1: Seq<char>,
    block1: nat,
    bal1: Seq<char>,
    gas2: Seq<char>,
    block2: nat,
    bal2: Seq<char>,
)
    requires
        gas1 == gas2,
        block1 == block2,
        bal1 == bal2,
    ensures
        spec_eth_body(gas1, block1, bal1) == spec_eth_body(gas2, block2, bal2),
{
}

/// The token body is likewise a function of the fetched values alone.
pub proof fn lemma_token_body_idempotent(
    addr1: Seq<char>,
    name1: Seq<char>,
    sym1: Seq<char>,
    sup1: Seq<char>,
    addr2: Seq<char>,
    name2: Seq<char>,
    sym2: Seq<char>,
    sup2: Seq<char>,
)
    requires
        addr1 == addr2,
        name1 == name2,
        sym1 == sym2,
        sup1 == sup2,
    ensures
        spec_token_body(addr1, name1, sym1, sup1) == spec_token_body(addr2, name2, sym2, sup2),
{
}

} // verus!
