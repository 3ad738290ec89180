//! Decisions of the node/transport adapter: which protocol to connect
//! peers on, what port to bind, and how peer addresses are written. The
//! pub/sub node itself, peer discovery and subscriptions are outside
//! collaborators; only what the agent decides about them lives here.

use vstd::prelude::*;

use crate::errors::QueryError;
use crate::graph_node::{parse_u64, parsed_u64};
use vstd::string::StringExecFns;
use vstd::utf8::encode_utf8;

verus! {

/// Why a transport operation failed.
#[derive(Debug)]
pub enum WakuHandlingError {
    /// A discovery URL did not parse.
    ParseUrlError(String),
    /// A content-topic subscription could not be made.
    ContentTopicsError(String),
    /// The peer list could not be retrieved.
    RetrievePeersError(String),
    /// A message could not be published to a peer.
    PublishMessage(String),
    /// An inbound message failed validation.
    InvalidMessage(String),
    /// The configured port is not a number.
    ParsePortError,
    /// The local node could not be created or started.
    CreateNodeError(String),
    /// Peer information could not be read.
    PeerInfoError(String),
    /// An upstream query failed.
    QueryResponseError(QueryError),
}

/// The protocol a peer connection is made on.
pub enum ProtocolId {
    Relay,
    Filter,
}

/// Which protocol to connect gathered peers on: relay when the filter
/// protocol is explicitly disabled, filter otherwise.
pub fn choose_protocol(filter_protocol: Option<bool>) -> (r: ProtocolId)
    ensures
        r is Relay <==> filter_protocol == Some(false),
{
    match filter_protocol {
        Option::Some(false) => ProtocolId::Relay,
        _ => ProtocolId::Filter,
    }
}

/// Whether the relay protocol is enabled: the inverse of the filter flag,
/// unset when that is unset.
pub fn relay_enabled(filter_protocol: Option<bool>) -> (r: Option<bool>)
    ensures
        match filter_protocol {
            Option::Some(filter) => r == Some(!filter),
            Option::None => r is None,
        },
{
    match filter_protocol {
        Option::Some(filter) => Option::Some(!filter),
        Option::None => Option::None,
    }
}

/// The log levels the node accepts.
pub enum WakuLogLevel {
    Debug,
    Info,
    Warn,
    Error,
    Fatal,
    Panic,
}

/// The level an upper-cased log setting names, tried in a fixed order.
pub open spec fn log_level_named(s: Seq<char>) -> WakuLogLevel {
    if s == "DEBUG"@ {
        WakuLogLevel::Debug
    } else if s == "INFO"@ {
        WakuLogLevel::Info
    } else if s == "WARN"@ {
        WakuLogLevel::Warn
    } else if s == "ERROR"@ {
        WakuLogLevel::Error
    } else if s == "FATAL"@ {
        WakuLogLevel::Fatal
    } else if s == "PANIC"@ {
        WakuLogLevel::Panic
    } else {
        WakuLogLevel::Warn
    }
}

/// The log level an upper-cased environment setting selects: an
/// unrecognized setting falls back to warnings, an unset one to errors.
pub fn waku_log_level(setting: Option<&String>) -> (r: WakuLogLevel)
    ensures
        match setting {
            Option::Some(s) => r == log_level_named(s@),
            Option::None => r is Error,
        },
{
    match setting {
        Option::Some(s) => {
            if *s == String::from_str("DEBUG") {
                WakuLogLevel::Debug
            } else if *s == String::from_str("INFO") {
                WakuLogLevel::Info
            } else if *s == String::from_str("WARN") {
                WakuLogLevel::Warn
            } else if *s == String::from_str("ERROR") {
                WakuLogLevel::Error
            } else if *s == String::from_str("FATAL") {
                WakuLogLevel::Fatal
            } else if *s == String::from_str("PANIC") {
                WakuLogLevel::Panic
            } else {
                WakuLogLevel::Warn
            }
        },
        Option::None => WakuLogLevel::Error,
    }
}

/// The port the node binds: the configured decimal string, or 60000 when
/// none is configured; a string that is not a decimal number is refused.
pub fn resolve_port(port: Option<&String>) -> (r: Result<u64, WakuHandlingError>)
    ensures
        match port {
            Option::Some(p) => match parsed_u64(encode_utf8(p@)) {
                Option::Some(v) => r matches Ok(rv) && rv == v,
                Option::None => r matches Err(e) && e matches WakuHandlingError::ParsePortError,
            },
            Option::None => r matches Ok(rv) && rv == 60000,
        },
{
    match port {
        Option::Some(p) => match parse_u64(p) {
            Option::Some(v) => Result::Ok(v),
            Option::None => Result::Err(WakuHandlingError::ParsePortError),
        },
        Option::None => Result::Ok(60000),
    }
}

/// The address a discovered peer is dialed at: its first listening address
/// with the peer id appended.
pub fn multiaddress_string(address: &String, peer_id: &String) -> (r: String)
    ensures
        r@ == address@ + "/p2p/"@ + peer_id@,
{
    let mut out = address.clone();
    out.append("/p2p/");
    out.append(peer_id.as_str());
    out
}

} // verus!
