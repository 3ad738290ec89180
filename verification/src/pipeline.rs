//! The validation pipeline: decode → dedup → sender authorization →
//! freshness → hash agreement → nonce ordering, short-circuiting on the
//! first failure. Only an envelope that passes every step is accepted;
//! every other path yields a typed rejection.

use vstd::prelude::*;

use crate::errors::{MessageError, QueryError};
use crate::fresh_at;
use crate::graphql::Network;
use crate::ledger::{
    nonce_next, nonce_outcome, nonces_view, nonces_wf, DedupLedger, NoncesMap,
};
use crate::message::{sender_of, sender_outcome, GraphcastMessage};

verus! {

/// Whether every check before the nonce-ordering step passes: the sender is
/// attributable and authorized, the message is fresh at `now`, and the
/// claimed block hash agrees with the trusted lookup.
pub open spec fn pre_nonce_pass(
    m: GraphcastMessage,
    now: int,
    indexer_lookup: Result<String, QueryError>,
    network_lookup: Result<Network, QueryError>,
    hash_lookup: Result<String, QueryError>,
) -> bool {
    &&& sender_outcome(m, indexer_lookup, network_lookup) is Ok
    &&& fresh_at(now, m.nonce as int)
    &&& hash_lookup matches Ok(h) && m.block_hash@ == h@
}

/// What the validation pipeline decides on an envelope, in its fixed
/// order: sender authorization, freshness, hash agreement, nonce ordering.
pub open spec fn validity_outcome(
    m: GraphcastMessage,
    ledger: Map<Seq<char>, Map<Seq<char>, i64>>,
    now: int,
    indexer_lookup: Result<String, QueryError>,
    network_lookup: Result<Network, QueryError>,
    hash_lookup: Result<String, QueryError>,
) -> Result<(), MessageError> {
    match sender_outcome(m, indexer_lookup, network_lookup) {
        Result::Err(e) => Result::Err(e),
        Result::Ok(_) => if !fresh_at(now, m.nonce as int) {
            Result::Err(MessageError::StaleOrFutureMessage)
        } else {
            match hash_lookup {
                Result::Err(e) => Result::Err(MessageError::UpstreamQueryError(e)),
                Result::Ok(h) => if m.block_hash@ != h@ {
                    Result::Err(MessageError::HashMismatch)
                } else {
                    nonce_outcome(ledger, m.identifier@, sender_of(m)->Ok_0, m.nonce)
                },
            }
        },
    }
}

/// The nonce ledger after the pipeline ran: it changes only when every
/// earlier step passed, and then exactly as the nonce-ordering step says.
pub open spec fn validity_next(
    m: GraphcastMessage,
    ledger: Map<Seq<char>, Map<Seq<char>, i64>>,
    now: int,
    indexer_lookup: Result<String, QueryError>,
    network_lookup: Result<Network, QueryError>,
    hash_lookup: Result<String, QueryError>,
) -> Map<Seq<char>, Map<Seq<char>, i64>> {
    if pre_nonce_pass(m, now, indexer_lookup, network_lookup, hash_lookup) {
        nonce_next(ledger, m.identifier@, sender_of(m)->Ok_0, m.nonce)
    } else {
        ledger
    }
}

/// Run every validation step on one envelope at the clock reading `now`,
/// with the upstream lookups already resolved for it.
pub fn check_message_validity_at(
    message: &GraphcastMessage,
    nonces: &mut NoncesMap,
    now: i64,
    indexer_lookup: Result<String, QueryError>,
    network_lookup: Result<Network, QueryError>,
    hash_lookup: Result<String, QueryError>,
) -> (r: Result<(), MessageError>)
    requires
        nonces_wf(old(nonces)),
    ensures
        nonces_wf(final(nonces)),
        r == validity_outcome(
            *message,
            nonces_view(old(nonces)),
            now as int,
            indexer_lookup,
            network_lookup,
            hash_lookup,
        ),
        nonces_view(final(nonces)) == validity_next(
            *message,
            nonces_view(old(nonces)),
            now as int,
            indexer_lookup,
            network_lookup,
            hash_lookup,
        ),
{
    match message.valid_sender(indexer_lookup, network_lookup) {
        Result::Err(e) => {
            return Result::Err(e);
        },
        Result::Ok(_) => {},
    }
    match message.valid_time_at(now) {
        Result::Err(e) => {
            return Result::Err(e);
        },
        Result::Ok(_) => {},
    }
    match hash_lookup {
        Result::Err(e) => {
            return Result::Err(MessageError::UpstreamQueryError(e));
        },
        Result::Ok(h) => {
            match message.valid_hash(h) {
                Result::Err(e) => {
                    return Result::Err(e);
                },
                Result::Ok(_) => {},
            }
        },
    }
    match message.valid_nonce(nonces) {
        Result::Ok(_) => Result::Ok(()),
        Result::Err(e) => Result::Err(e),
    }
}

/// Run every validation step against the current clock. The freshness step
/// reads the clock once; all else is as at that reading.
pub fn check_message_validity(
    message: &GraphcastMessage,
    nonces: &mut NoncesMap,
    indexer_lookup: Result<String, QueryError>,
    network_lookup: Result<Network, QueryError>,
    hash_lookup: Result<String, QueryError>,
) -> (r: Result<(), MessageError>)
    requires
        nonces_wf(old(nonces)),
    ensures
        nonces_wf(final(nonces)),
        exists|now: int|
            r == validity_outcome(
                *message,
                nonces_view(old(nonces)),
                now,
                indexer_lookup,
                network_lookup,
                hash_lookup,
            ) && nonces_view(final(nonces)) == validity_next(
                *message,
                nonces_view(old(nonces)),
                now,
                indexer_lookup,
                network_lookup,
                hash_lookup,
            ),
{
    let now = crate::message::now_timestamp();
    let r = check_message_validity_at(
        message,
        nonces,
        now,
        indexer_lookup,
        network_lookup,
        hash_lookup,
    );
    proof {
        assert(r == validity_outcome(
            *message,
            nonces_view(old(nonces)),
            now as int,
            indexer_lookup,
            network_lookup,
            hash_lookup,
        ));
    }
    r
}

/// What handling one transport event decides: decode failure and duplicate
/// delivery are rejected before any validation runs.
pub open spec fn event_outcome(
    message_id: Seq<char>,
    decoded: Option<GraphcastMessage>,
    seen: Set<Seq<char>>,
    ledger: Map<Seq<char>, Map<Seq<char>, i64>>,
    now: int,
    indexer_lookup: Result<String, QueryError>,
    network_lookup: Result<Network, QueryError>,
    hash_lookup: Result<String, QueryError>,
) -> Result<(), MessageError> {
    match decoded {
        Option::None => Result::Err(MessageError::DecodeError),
        Option::Some(m) => if seen.contains(message_id) {
            Result::Err(MessageError::DuplicateMessage)
        } else {
            validity_outcome(m, ledger, now, indexer_lookup, network_lookup, hash_lookup)
        },
    }
}

/// The dedup ledger after one event: the id is recorded exactly when the
/// event decoded and was not a duplicate, whatever validation then decided.
pub open spec fn event_next_seen(
    message_id: Seq<char>,
    decoded: Option<GraphcastMessage>,
    seen: Set<Seq<char>>,
) -> Set<Seq<char>> {
    match decoded {
        Option::None => seen,
        Option::Some(m) => if seen.contains(message_id) {
            seen
        } else {
            seen.insert(message_id)
        },
    }
}

/// The nonce ledger after one event: untouched unless the event got past
/// decode and dedup.
pub open spec fn event_next_ledger(
    message_id: Seq<char>,
    decoded: Option<GraphcastMessage>,
    seen: Set<Seq<char>>,
    ledger: Map<Seq<char>, Map<Seq<char>, i64>>,
    now: int,
    indexer_lookup: Result<String, QueryError>,
    network_lookup: Result<Network, QueryError>,
    hash_lookup: Result<String, QueryError>,
) -> Map<Seq<char>, Map<Seq<char>, i64>> {
    match decoded {
        Option::None => ledger,
        Option::Some(m) => if seen.contains(message_id) {
            ledger
        } else {
            validity_next(m, ledger, now, indexer_lookup, network_lookup, hash_lookup)
        },
    }
}

/// Handle one inbound transport event at the clock reading `now`: the
/// decoded envelope (or `None` when the bytes did not decode), its
/// transport message id, and the upstream lookups resolved for it. An
/// accepted envelope is handed back to the application; every other path
/// is a classified rejection.
pub fn handle_event_at(
    ids: &mut DedupLedger,
    nonces: &mut NoncesMap,
    message_id: String,
    decoded: Option<GraphcastMessage>,
    now: i64,
    indexer_lookup: Result<String, QueryError>,
    network_lookup: Result<Network, QueryError>,
    hash_lookup: Result<String, QueryError>,
) -> (r: Result<GraphcastMessage, MessageError>)
    requires
        nonces_wf(old(nonces)),
    ensures
        nonces_wf(final(nonces)),
        final(ids)@ == event_next_seen(message_id@, decoded, old(ids)@),
        nonces_view(final(nonces)) == event_next_ledger(
            message_id@,
            decoded,
            old(ids)@,
            nonces_view(old(nonces)),
            now as int,
            indexer_lookup,
            network_lookup,
            hash_lookup,
        ),
        r matches Ok(m) ==> decoded == Some(m) && event_outcome(
            message_id@,
            decoded,
            old(ids)@,
            nonces_view(old(nonces)),
            now as int,
            indexer_lookup,
            network_lookup,
            hash_lookup,
        ) is Ok,
        r matches Err(e) ==> event_outcome(
            message_id@,
            decoded,
            old(ids)@,
            nonces_view(old(nonces)),
            now as int,
            indexer_lookup,
            network_lookup,
            hash_lookup,
        ) == Result::<(), MessageError>::Err(e),
{
    let message = match decoded {
        Option::Some(m) => m,
        Option::None => {
            return Result::Err(MessageError::DecodeError);
        },
    };
    if ids.seen(&message_id) {
        return Result::Err(MessageError::DuplicateMessage);
    }
    ids.mark_seen(message_id);
    match check_message_validity_at(
        &message,
        nonces,
        now,
        indexer_lookup,
        network_lookup,
        hash_lookup,
    ) {
        Result::Ok(_) => Result::Ok(message),
        Result::Err(e) => Result::Err(e),
    }
}

/// Monotonicity: for a fixed (identifier, address), once a nonce `n1` has
/// been accepted, any later nonce `n2 < n1` is rejected as stale, and the
/// recorded nonce stays `n1`.
pub proof fn lemma_nonce_monotonic(
    ledger: Map<Seq<char>, Map<Seq<char>, i64>>,
    identifier: Seq<char>,
    address: Seq<char>,
    n1: i64,
    n2: i64,
)
    requires
        nonce_outcome(ledger, identifier, address, n1) is Ok,
        n2 < n1,
    ensures
        nonce_next(ledger, identifier, address, n1)[identifier][address] == n1,
        nonce_outcome(nonce_next(ledger, identifier, address, n1), identifier, address, n2)
            == Result::<(), MessageError>::Err(MessageError::StaleNonce),
        nonce_next(nonce_next(ledger, identifier, address, n1), identifier, address, n2)
            == nonce_next(ledger, identifier, address, n1),
{
}

/// First observation registers but rejects: the first message ever seen
/// for a new (identifier, address) pair is rejected after its nonce is
/// recorded as a baseline, and a later message from the same pair with an
/// equal-or-greater nonce is accepted.
pub proof fn lemma_first_seen_registers(
    ledger: Map<Seq<char>, Map<Seq<char>, i64>>,
    identifier: Seq<char>,
    address: Seq<char>,
    n1: i64,
    n2: i64,
)
    requires
        !ledger.contains_key(identifier) || !ledger[identifier].contains_key(address),
        n1 <= n2,
    ensures
        nonce_outcome(ledger, identifier, address, n1) == Result::<(), MessageError>::Err(
            MessageError::FirstObservationFromSender,
        ),
        nonce_next(ledger, identifier, address, n1)[identifier][address] == n1,
        nonce_outcome(nonce_next(ledger, identifier, address, n1), identifier, address, n2)
            is Ok,
{
}

/// Idempotent dedup: once an event under a message id has been handled,
/// any later delivery under the same id is rejected as a duplicate, with
/// both ledgers unchanged, whatever envelope it carries.
pub proof fn lemma_idempotent_dedup(
    message_id: Seq<char>,
    first: GraphcastMessage,
    second: Option<GraphcastMessage>,
    seen: Set<Seq<char>>,
    ledger: Map<Seq<char>, Map<Seq<char>, i64>>,
    now1: int,
    now2: int,
    il1: Result<String, QueryError>,
    nl1: Result<Network, QueryError>,
    hl1: Result<String, QueryError>,
    il2: Result<String, QueryError>,
    nl2: Result<Network, QueryError>,
    hl2: Result<String, QueryError>,
)
    requires
        !seen.contains(message_id),
        second is Some,
    ensures
        ({
            let seen1 = event_next_seen(message_id, Some(first), seen);
            let ledger1 = event_next_ledger(
                message_id,
                Some(first),
                seen,
                ledger,
                now1,
                il1,
                nl1,
                hl1,
            );
            &&& event_outcome(message_id, second, seen1, ledger1, now2, il2, nl2, hl2)
                == Result::<(), MessageError>::Err(MessageError::DuplicateMessage)
            &&& event_next_seen(message_id, second, seen1) == seen1
            &&& event_next_ledger(message_id, second, seen1, ledger1, now2, il2, nl2, hl2)
                == ledger1
        }),
{
}

/// Freshness boundary: a message stamped `now` is fresh (age zero); one
/// stamped at or before `now` minus the replay limit is not; one stamped in
/// the future is not.
pub proof fn lemma_freshness_boundary(now: int, nonce: int)
    ensures
        nonce == now ==> fresh_at(now, nonce),
        nonce <= now - crate::MSG_REPLAY_LIMIT ==> !fresh_at(now, nonce),
        nonce > now ==> !fresh_at(now, nonce),
{
}

/// Hash agreement: when the sender is authorized and the message fresh,
/// the pipeline accepts the claimed (block, hash) pair exactly when it
/// matches the trusted lookup's hash, and rejects a differing claim as a
/// hash mismatch.
pub proof fn lemma_hash_agreement(
    m: GraphcastMessage,
    ledger: Map<Seq<char>, Map<Seq<char>, i64>>,
    now: int,
    indexer_lookup: Result<String, QueryError>,
    network_lookup: Result<Network, QueryError>,
    trusted_hash: String,
)
    requires
        sender_outcome(m, indexer_lookup, network_lookup) is Ok,
        fresh_at(now, m.nonce as int),
    ensures
        m.block_hash@ == trusted_hash@ ==> validity_outcome(
            m,
            ledger,
            now,
            indexer_lookup,
            network_lookup,
            Ok(trusted_hash),
        ) == nonce_outcome(ledger, m.identifier@, sender_of(m)->Ok_0, m.nonce),
        m.block_hash@ != trusted_hash@ ==> validity_outcome(
            m,
            ledger,
            now,
            indexer_lookup,
            network_lookup,
            Ok(trusted_hash),
        ) == Result::<(), MessageError>::Err(MessageError::HashMismatch),
{
}

} // verus!
