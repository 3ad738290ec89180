//! The message envelope: the signed, versioned unit exchanged between
//! agents, and its per-step validation checks.

use vstd::prelude::*;

use crate::errors::{MessageError, QueryError};
use crate::graphql::Network;
use crate::identity::{
    addr_of_key, payload_digest, recover_of, recover_payload_signer, sig_of, sign_ok,
    GraphcastIdentity, RadioPayloadMessage,
};
use crate::ledger::{
    check_and_update, nonce_next, nonce_outcome, nonces_view, nonces_wf, NoncesMap,
};
use crate::{fresh_at, MSG_REPLAY_LIMIT};

verus! {

/// Relies on `chrono::Utc::now`: the current Unix timestamp in seconds.
/// Nothing is assumed of the clock's reading.
#[verifier::external_body]
pub(crate) fn now_timestamp() -> i64 {
    chrono::Utc::now().timestamp()
}

/// The signed envelope: a claim about a subject entity, carrying an
/// optional typed payload, a sequencing nonce that doubles as the creation
/// timestamp, the block the claim is anchored to, and a signature over the
/// payload's structured hash. It is immutable once signed: any field
/// changing invalidates the signature.
#[derive(Clone)]
pub struct GraphcastMessage {
    /// The subject entity the claim is about.
    pub identifier: String,
    /// Content to share about the identified entity.
    pub payload: Option<RadioPayloadMessage>,
    /// Creation timestamp and replay/ordering token, by design one field.
    pub nonce: i64,
    /// Block height the claim is anchored to.
    pub block_number: u64,
    /// The hash the sender asserts corresponds to `block_number`.
    pub block_hash: String,
    /// Signature over the payload's structured hash.
    pub signature: String,
}

/// Who signed an envelope: the address recovered from its signature over
/// the payload's structured hash; a payload-less envelope cannot be
/// attributed, and an unparseable or unrecoverable signature is malformed.
pub open spec fn sender_of(m: GraphcastMessage) -> Result<Seq<char>, MessageError> {
    match m.payload {
        Option::Some(p) => match recover_of(
            m.signature@,
            payload_digest(p.identifier@, p.content@),
        ) {
            Option::Some(a) => Result::Ok(a),
            Option::None => Result::Err(MessageError::MalformedSignature),
        },
        Option::None => Result::Err(MessageError::NoPayload),
    }
}

/// What the sender-authorization step decides, given the upstream lookups:
/// attribution first, then the registry lookup, then the stake check.
pub open spec fn sender_outcome(
    m: GraphcastMessage,
    indexer_lookup: Result<String, QueryError>,
    network_lookup: Result<Network, QueryError>,
) -> Result<(), MessageError> {
    match sender_of(m) {
        Result::Err(e) => Result::Err(e),
        Result::Ok(_) => match indexer_lookup {
            Result::Err(e) => Result::Err(MessageError::UpstreamQueryError(e)),
            Result::Ok(_) => match network_lookup {
                Result::Err(e) => Result::Err(MessageError::UpstreamQueryError(e)),
                Result::Ok(n) => if n.stake_satisfy_requirement {
                    Result::Ok(())
                } else {
                    Result::Err(MessageError::UnauthorizedSender)
                },
            },
        },
    }
}

impl GraphcastMessage {
    /// Assemble an envelope from its parts. The block number is given as a
    /// signed integer by callers and must be a valid height.
    pub fn new(
        identifier: String,
        payload: Option<RadioPayloadMessage>,
        nonce: i64,
        block_number: i64,
        block_hash: String,
        signature: String,
    ) -> (r: GraphcastMessage)
        requires
            0 <= block_number,
        ensures
            r.identifier == identifier,
            r.payload == payload,
            r.nonce == nonce,
            r.block_number == block_number as u64,
            r.block_hash == block_hash,
            r.signature == signature,
    {
        GraphcastMessage {
            identifier,
            payload,
            nonce,
            block_number: block_number as u64,
            block_hash,
            signature,
        }
    }

    /// Sign the radio payload and construct the envelope, with the current
    /// Unix timestamp as its nonce. This is the only construction path that
    /// yields a signed envelope; the payload must be present, and building
    /// succeeds exactly when the key signs its structured hash.
    pub fn build(
        identity: &GraphcastIdentity,
        identifier: String,
        payload: Option<RadioPayloadMessage>,
        block_number: i64,
        block_hash: String,
    ) -> (r: Result<GraphcastMessage, MessageError>)
        requires
            identity.wf(),
            payload is Some,
            0 <= block_number,
        ensures
            r is Ok <==> sign_ok(
                identity.key_view(),
                payload_digest(payload->0.identifier@, payload->0.content@),
            ),
            r matches Ok(m) ==> {
                &&& m.identifier == identifier
                &&& m.payload == payload
                &&& m.block_number == block_number as u64
                &&& m.block_hash == block_hash
                &&& m.signature@ == sig_of(
                    identity.key_view(),
                    payload_digest(payload->0.identifier@, payload->0.content@),
                )
                &&& sender_of(m) == Result::<Seq<char>, MessageError>::Ok(
                    addr_of_key(identity.key_view()),
                )
            },
            r matches Err(e) ==> e matches MessageError::SigningError,
    {
        let signature = match &payload {
            Option::Some(p) => match identity.sign_payload(p) {
                Result::Ok(s) => s,
                Result::Err(e) => {
                    return Result::Err(e);
                },
            },
            Option::None => {
                return Result::Err(MessageError::SigningError);
            },
        };
        let nonce = now_timestamp();
        Result::Ok(
            GraphcastMessage::new(
                identifier,
                payload,
                nonce,
                block_number,
                block_hash,
                signature,
            ),
        )
    }

    /// Recover the sender address from the envelope's signature over its
    /// payload.
    pub fn recover_sender_address(&self) -> (r: Result<String, MessageError>)
        ensures
            match r {
                Result::Ok(a) => sender_of(*self) == Result::<Seq<char>, MessageError>::Ok(a@),
                Result::Err(e) => sender_of(*self) == Result::<Seq<char>, MessageError>::Err(e),
            },
    {
        match &self.payload {
            Option::Some(p) => recover_payload_signer(p, &self.signature),
            Option::None => Result::Err(MessageError::NoPayload),
        }
    }

    /// The sender-authorization decision on this envelope, given the
    /// upstream registry and network lookups made for its recovered sender.
    pub fn valid_sender(
        &self,
        indexer_lookup: Result<String, QueryError>,
        network_lookup: Result<Network, QueryError>,
    ) -> (r: Result<&GraphcastMessage, MessageError>)
        ensures
            r matches Ok(m) ==> *m == *self && sender_outcome(*self, indexer_lookup, network_lookup)
                is Ok,
            r matches Err(e) ==> sender_outcome(*self, indexer_lookup, network_lookup)
                == Result::<(), MessageError>::Err(e),
    {
        match self.recover_sender_address() {
            Result::Err(e) => Result::Err(e),
            Result::Ok(_address) => match indexer_lookup {
                Result::Err(e) => Result::Err(MessageError::UpstreamQueryError(e)),
                Result::Ok(_indexer) => match network_lookup {
                    Result::Err(e) => Result::Err(MessageError::UpstreamQueryError(e)),
                    Result::Ok(network) => if network.stake_satisfy_requirement {
                        Result::Ok(self)
                    } else {
                        Result::Err(MessageError::UnauthorizedSender)
                    },
                },
            },
        }
    }

    /// The freshness decision at the clock reading `now`: an age of zero is
    /// accepted, a negative age or one at or past the replay limit is not.
    pub fn valid_time_at(&self, now: i64) -> (r: Result<&GraphcastMessage, MessageError>)
        ensures
            r matches Ok(m) ==> *m == *self && fresh_at(now as int, self.nonce as int),
            r matches Err(e) ==> !fresh_at(now as int, self.nonce as int) && e
                matches MessageError::StaleOrFutureMessage,
    {
        let age: i128 = now as i128 - self.nonce as i128;
        if 0 <= age && age < MSG_REPLAY_LIMIT as i128 {
            Result::Ok(self)
        } else {
            Result::Err(MessageError::StaleOrFutureMessage)
        }
    }

    /// Check the envelope's timestamp against the current clock, to prevent
    /// replay of past messages.
    pub fn valid_time(&self) -> (r: Result<&GraphcastMessage, MessageError>)
        ensures
            r matches Ok(m) ==> *m == *self,
            r matches Err(e) ==> e matches MessageError::StaleOrFutureMessage,
    {
        let now = now_timestamp();
        self.valid_time_at(now)
    }

    /// Compare the envelope's claimed block hash with the hash a trusted
    /// lookup returned for its block number.
    pub fn valid_hash(&self, block_hash: String) -> (r: Result<&GraphcastMessage, MessageError>)
        ensures
            self.block_hash@ == block_hash@ ==> (r matches Ok(m) && *m == *self),
            self.block_hash@ != block_hash@ ==> (r matches Err(e) && e
                matches MessageError::HashMismatch),
    {
        if self.block_hash == block_hash {
            Result::Ok(self)
        } else {
            Result::Err(MessageError::HashMismatch)
        }
    }

    /// The nonce-ordering step: look the envelope's (identifier, sender)
    /// pair up in the ledger, reject first observations and stale nonces,
    /// and record the nonce whenever it is equal to or newer than the
    /// recorded one.
    pub fn valid_nonce(&self, nonces: &mut NoncesMap) -> (r: Result<&GraphcastMessage, MessageError>)
        requires
            nonces_wf(old(nonces)),
        ensures
            nonces_wf(final(nonces)),
            match sender_of(*self) {
                Result::Ok(addr) => {
                    &&& (r matches Ok(m) ==> *m == *self && nonce_outcome(
                        nonces_view(old(nonces)),
                        self.identifier@,
                        addr,
                        self.nonce,
                    ) is Ok)
                    &&& (r matches Err(e) ==> nonce_outcome(
                        nonces_view(old(nonces)),
                        self.identifier@,
                        addr,
                        self.nonce,
                    ) == Result::<(), MessageError>::Err(e))
                    &&& nonces_view(final(nonces)) == nonce_next(
                        nonces_view(old(nonces)),
                        self.identifier@,
                        addr,
                        self.nonce,
                    )
                },
                Result::Err(e0) => {
                    &&& r matches Err(e) && e == e0
                    &&& nonces_view(final(nonces)) == nonces_view(old(nonces))
                },
            },
    {
        let address = match self.recover_sender_address() {
            Result::Ok(a) => a,
            Result::Err(e) => {
                return Result::Err(e);
            },
        };
        match check_and_update(nonces, &self.identifier, &address, self.nonce) {
            Result::Ok(_) => Result::Ok(self),
            Result::Err(e) => Result::Err(e),
        }
    }
}

} // verus!
