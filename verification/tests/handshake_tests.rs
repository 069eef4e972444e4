use session_server::handshake::{
    classify_send, decide_response, plan_handshake, HandshakeDecision, HandshakeError,
    HandshakePlan, PeerResponse, PinnedIdentity, KX_PUBLIC_KEY_LEN, SIGN_PUBLIC_KEY_LEN,
    SIGN_SECRET_KEY_LEN,
};

#[test]
fn plan_skips_security_when_not_requested() {
    assert_eq!(plan_handshake(false, SIGN_PUBLIC_KEY_LEN, SIGN_SECRET_KEY_LEN), HandshakePlan::ClearByPolicy);
    assert_eq!(plan_handshake(false, 0, 0), HandshakePlan::ClearByPolicy);
}

#[test]
fn plan_runs_exchange_with_good_keypair() {
    assert_eq!(plan_handshake(true, SIGN_PUBLIC_KEY_LEN, SIGN_SECRET_KEY_LEN), HandshakePlan::Secure);
}

#[test]
fn plan_downgrades_on_malformed_keypair() {
    assert_eq!(plan_handshake(true, 0, 0), HandshakePlan::ClearMisconfigured);
    assert_eq!(plan_handshake(true, SIGN_PUBLIC_KEY_LEN, 63), HandshakePlan::ClearMisconfigured);
    assert_eq!(plan_handshake(true, 31, SIGN_SECRET_KEY_LEN), HandshakePlan::ClearMisconfigured);
}

#[test]
fn well_sized_peer_key_starts_encryption() {
    let key = vec![7u8; KX_PUBLIC_KEY_LEN];
    let wrapped_key = vec![9u8; 48];
    let decision = decide_response(PeerResponse::PublicKey {
        asymmetric: key.clone(),
        symmetric: wrapped_key.clone(),
    });
    match decision {
        HandshakeDecision::SecureWith { peer_key, wrapped } => {
            assert_eq!(peer_key, key);
            assert_eq!(wrapped, wrapped_key);
        }
        _ => panic!("expected an encrypted session"),
    }
}

#[test]
fn empty_peer_key_unpins_without_error() {
    let decision = decide_response(PeerResponse::PublicKey {
        asymmetric: vec![],
        symmetric: vec![],
    });
    match decision {
        HandshakeDecision::ContinueClear { unpin } => assert!(unpin),
        _ => panic!("expected a clear continuation"),
    }

    let mut pin = PinnedIdentity { confirmed: true };
    pin.apply_decision(&decision);
    assert!(!pin.confirmed);
}

#[test]
fn bad_key_length_is_protocol_error() {
    for len in [1, 16, KX_PUBLIC_KEY_LEN - 1, KX_PUBLIC_KEY_LEN + 1, 64] {
        let decision = decide_response(PeerResponse::PublicKey {
            asymmetric: vec![0u8; len],
            symmetric: vec![],
        });
        match decision {
            HandshakeDecision::Fail { error } => assert_eq!(error, HandshakeError::Protocol),
            _ => panic!("expected a protocol failure for length {}", len),
        }
    }
}

#[test]
fn wrong_message_type_is_protocol_error() {
    match decide_response(PeerResponse::OtherMessage) {
        HandshakeDecision::Fail { error } => assert_eq!(error, HandshakeError::Protocol),
        _ => panic!("expected a protocol failure"),
    }
}

#[test]
fn unparseable_and_absent_answers_fail_protocol() {
    for resp in [PeerResponse::Unparseable, PeerResponse::Absent] {
        match decide_response(resp) {
            HandshakeDecision::Fail { error } => assert_eq!(error, HandshakeError::Protocol),
            _ => panic!("expected a protocol failure"),
        }
    }
}

#[test]
fn expired_wait_fails_with_timeout() {
    match decide_response(PeerResponse::TimedOut) {
        HandshakeDecision::Fail { error } => assert_eq!(error, HandshakeError::Timeout),
        _ => panic!("expected a timeout failure"),
    }
}

#[test]
fn slow_identity_send_times_out() {
    assert_eq!(classify_send(true), None);
    assert_eq!(classify_send(false), Some(HandshakeError::Timeout));
}

#[test]
fn only_unpin_clears_the_pin() {
    let mut pin = PinnedIdentity { confirmed: true };
    pin.apply_decision(&HandshakeDecision::ContinueClear { unpin: false });
    assert!(pin.confirmed);
    pin.apply_decision(&HandshakeDecision::Fail { error: HandshakeError::Protocol });
    assert!(pin.confirmed);
    pin.apply_decision(&HandshakeDecision::SecureWith { peer_key: vec![1], wrapped: vec![] });
    assert!(pin.confirmed);
    pin.apply_decision(&HandshakeDecision::ContinueClear { unpin: true });
    assert!(!pin.confirmed);
    pin.apply_decision(&HandshakeDecision::ContinueClear { unpin: false });
    assert!(!pin.confirmed);
}
