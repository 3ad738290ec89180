//! A gossip-network agent library: signed, typed claims about a shared
//! data-indexing network, accepted only when they are cryptographically
//! attributable, fresh, anchored to the trusted chain view, and correctly
//! ordered per sender.

use vstd::prelude::*;

pub mod callbook;
pub mod errors;
pub mod graph_node;
pub mod graphql;
pub mod identity;
pub mod ledger;
pub mod message;
pub mod node;
pub mod pipeline;
pub mod topics;

verus! {

/// Maximum age, in seconds, for a message to be considered fresh.
pub const MSG_REPLAY_LIMIT: i64 = 3600;

/// How fresh a message of age `now - nonce` must be: an age of zero is
/// accepted (same-instant messages are legitimate), a negative age
/// (future-dated) or an age at or past the replay limit is not.
pub open spec fn fresh_at(now: int, nonce: int) -> bool {
    0 <= now - nonce < MSG_REPLAY_LIMIT
}

} // verus!
