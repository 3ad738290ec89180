//! What the agent reads out of upstream query responses. The HTTP calls
//! themselves are unverified collaborators; the decisions on their response
//! bodies are made here, on plain values.

use vstd::prelude::*;

use crate::errors::QueryError;

verus! {

/// The slice of the network state an authorization decision needs: the
/// sender's registered stake and whether it satisfies the minimum
/// requirement.
pub struct Network {
    /// The indexer's stake, in the network's smallest denomination.
    pub indexer_stake: u128,
    /// Whether the stake satisfies the minimum requirement.
    pub stake_satisfy_requirement: bool,
}

/// The stake recorded for the sender's registered indexer identity.
pub fn get_indexer_stake(network: &Network) -> (r: u128)
    ensures
        r == network.indexer_stake,
{
    network.indexer_stake
}

/// What the block-hash query response yields: the outer level says whether
/// the response carried data at all, the inner whether a hash was found for
/// the requested block.
pub fn extract_block_hash(data: Option<Option<String>>) -> (r: Result<String, QueryError>)
    ensures
        match data {
            Option::Some(inner) => match inner {
                Option::Some(h) => r matches Ok(rh) && rh == h,
                Option::None => r matches Err(e) && e matches QueryError::ParseResponseError(_),
            },
            Option::None => r matches Err(e) && e matches QueryError::ParseResponseError(_),
        },
{
    match data {
        Option::Some(inner) => match inner {
            Option::Some(hash) => Ok(hash),
            Option::None => Err(
                QueryError::ParseResponseError("no block hash from number".to_owned()),
            ),
        },
        Option::None => Err(
            QueryError::ParseResponseError("no data for network block hash".to_owned()),
        ),
    }
}

} // verus!
