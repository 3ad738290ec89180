//! Typed outcomes of message construction, recovery and validation.
//!
//! Every rejection of an inbound message carries a distinct reason; a
//! validation failure is an expected, data-dependent outcome, never a panic.

use vstd::prelude::*;

verus! {

/// Why an upstream lookup (registry, network state, block hash) failed.
/// These are transient infrastructure failures, distinct from a message
/// being invalid on its own account.
#[derive(Debug)]
pub enum QueryError {
    /// The request itself failed (network, timeout, bad status).
    RequestError(String),
    /// The response arrived but could not be read as the expected shape.
    ParseResponseError(String),
    /// The indexing-status response carried no data.
    IndexingError,
}

/// The classified outcome of handling one inbound message, or of building
/// and attributing an envelope.
#[derive(Debug)]
pub enum MessageError {
    /// Transport bytes did not decode into an envelope of the expected type.
    DecodeError,
    /// The transport message id was already handled.
    DuplicateMessage,
    /// The sender's registered identity does not satisfy the stake
    /// requirement.
    UnauthorizedSender,
    /// An upstream lookup failed, so authorization or hash agreement could
    /// not be determined; the message is dropped, not assumed valid.
    UpstreamQueryError(QueryError),
    /// The message's timestamp is in the future or older than the replay
    /// window.
    StaleOrFutureMessage,
    /// The block hash claimed by the sender differs from the trusted lookup.
    HashMismatch,
    /// First message ever observed for this (identifier, address) pair: the
    /// nonce is registered as a baseline but the message is rejected.
    FirstObservationFromSender,
    /// The nonce is older than the last accepted one for this pair.
    StaleNonce,
    /// The payload could not be signed.
    SigningError,
    /// The signature string did not parse or did not recover to an address.
    MalformedSignature,
    /// A payload-less envelope cannot be attributed to a signer.
    NoPayload,
}

impl MessageError {
    /// A short human-readable name for logs and metrics.
    pub fn reason(&self) -> &'static str {
        match self {
            MessageError::DecodeError => "decode error",
            MessageError::DuplicateMessage => "duplicate message",
            MessageError::UnauthorizedSender => "unauthorized sender",
            MessageError::UpstreamQueryError(_) => "upstream query error",
            MessageError::StaleOrFutureMessage => "stale or future message",
            MessageError::HashMismatch => "hash mismatch",
            MessageError::FirstObservationFromSender => "first observation from sender",
            MessageError::StaleNonce => "stale nonce",
            MessageError::SigningError => "signing error",
            MessageError::MalformedSignature => "malformed signature",
            MessageError::NoPayload => "no payload",
        }
    }
}

} // verus!
