use graphcast::node::{
    choose_protocol, multiaddress_string, relay_enabled, resolve_port, waku_log_level, ProtocolId,
    WakuHandlingError, WakuLogLevel,
};

#[test]
fn log_level_selection() {
    assert!(matches!(
        waku_log_level(Some(&"DEBUG".to_string())),
        WakuLogLevel::Debug
    ));
    assert!(matches!(
        waku_log_level(Some(&"PANIC".to_string())),
        WakuLogLevel::Panic
    ));
    assert!(matches!(
        waku_log_level(Some(&"VERBOSE".to_string())),
        WakuLogLevel::Warn
    ));
    assert!(matches!(waku_log_level(None), WakuLogLevel::Error));
}

#[test]
fn port_defaults_and_parses() {
    assert_eq!(resolve_port(None).unwrap(), 60000);
    assert_eq!(resolve_port(Some(&"8545".to_string())).unwrap(), 8545);
    assert!(matches!(
        resolve_port(Some(&"sixty".to_string())),
        Err(WakuHandlingError::ParsePortError)
    ));
    assert!(matches!(
        resolve_port(Some(&"".to_string())),
        Err(WakuHandlingError::ParsePortError)
    ));
}

#[test]
fn protocol_choice_follows_filter_flag() {
    assert!(matches!(choose_protocol(Some(false)), ProtocolId::Relay));
    assert!(matches!(choose_protocol(Some(true)), ProtocolId::Filter));
    assert!(matches!(choose_protocol(None), ProtocolId::Filter));
    assert_eq!(relay_enabled(Some(true)), Some(false));
    assert_eq!(relay_enabled(Some(false)), Some(true));
    assert_eq!(relay_enabled(None), None);
}

#[test]
fn multiaddress_layout() {
    let addr = multiaddress_string(
        &"/ip4/127.0.0.1/tcp/60000".to_string(),
        &"16Uiu2HAm".to_string(),
    );
    assert_eq!(addr, "/ip4/127.0.0.1/tcp/60000/p2p/16Uiu2HAm");
}
