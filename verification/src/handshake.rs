//! The connection-establishment protocol: what a fresh connection does
//! before any application traffic flows.
//!
//! The host first decides whether to attempt encryption at all
//! ([`plan_handshake`]): security may be switched off by policy, and a
//! missing or malformed long-term signing key pair downgrades to clear
//! transport — a deliberate availability-over-strictness choice — instead
//! of refusing service. When the exchange does run, the host signs an
//! identity record over its fresh ephemeral key, sends it, and classifies
//! the peer's answer ([`decide_response`]): a well-sized ephemeral key
//! yields an encrypted session, an empty key is the explicit signal to
//! clear the pinned host identity and continue in the clear, and any
//! other answer — a wrong key length, a message of the wrong type, bytes
//! that do not parse, or none at all — aborts this one connection
//! attempt. The signing, transport and timing themselves are
//! collaborators outside this crate; they hand in the peer's answer as a
//! plain [`PeerResponse`].

use vstd::prelude::*;

verus! {

/// Byte length of the host's long-term signing public key.
pub const SIGN_PUBLIC_KEY_LEN: usize = 32;

/// Byte length of the host's long-term signing secret key.
pub const SIGN_SECRET_KEY_LEN: usize = 64;

/// Byte length of an ephemeral key-exchange public key.
pub const KX_PUBLIC_KEY_LEN: usize = 32;

/// How the handshake of one fresh connection should proceed.
#[derive(Clone, Copy, Debug, PartialEq, Eq, Structural)]
pub enum HandshakePlan {
    /// Security was not requested: admit over the raw stream at once.
    ClearByPolicy,
    /// Security was requested but the long-term signing key pair is absent
    /// or malformed — a local configuration defect. The connection
    /// proceeds unencrypted rather than being refused.
    ClearMisconfigured,
    /// Sign the identity record, send it, and run the key exchange.
    Secure,
}

/// The failure modes of one connection attempt. A timeout is distinct
/// from a protocol error: callers log and rate-limit them differently.
#[derive(Clone, Copy, Debug, PartialEq, Eq, Structural)]
pub enum HandshakeError {
    /// The bounded send or wait exceeded its time limit.
    Timeout,
    /// The peer's answer was malformed or unexpected: a key of impossible
    /// length, a message of the wrong type, bytes that do not parse, or no
    /// answer at all.
    Protocol,
}

/// The peer's answer to the signed identity record, as the transport
/// collaborator hands it over.
pub enum PeerResponse {
    /// A parsed public-key record: the peer's ephemeral key-exchange key
    /// and, optionally, a symmetric session key wrapped under it.
    PublicKey { asymmetric: Vec<u8>, symmetric: Vec<u8> },
    /// A message that parsed but is not a public-key record: unexpected
    /// here, so a protocol error.
    OtherMessage,
    /// Bytes that do not parse as any message.
    Unparseable,
    /// The stream closed without an answer.
    Absent,
    /// The bounded wait ran out.
    TimedOut,
}

/// What to do with this connection after the peer answered.
pub enum HandshakeDecision {
    /// Derive the shared session key from the peer's ephemeral key and the
    /// wrapped symmetric key, and switch the stream into
    /// authenticated-encrypted mode.
    SecureWith { peer_key: Vec<u8>, wrapped: Vec<u8> },
    /// Continue over the clear stream. With `unpin` set the peer signalled
    /// that the pinned host identity is unconfirmed and the pin must be
    /// cleared, letting the peer recover from a stale pin without being
    /// locked out.
    ContinueClear { unpin: bool },
    /// Abort this one connection attempt; the listener is unaffected.
    Fail { error: HandshakeError },
}

/// Decide whether a fresh connection attempts encryption: not at all when
/// security is off; downgraded to clear transport when the signing key
/// pair does not have the exact signing-key sizes; the full exchange
/// otherwise.
pub fn plan_handshake(secure: bool, sign_pk_len: usize, sign_sk_len: usize) -> (r: HandshakePlan)
    ensures
        (r == HandshakePlan::Secure) == (secure && sign_pk_len == SIGN_PUBLIC_KEY_LEN
            && sign_sk_len == SIGN_SECRET_KEY_LEN),
        (r == HandshakePlan::ClearByPolicy) == !secure,
        (r == HandshakePlan::ClearMisconfigured) == (secure && !(sign_pk_len
            == SIGN_PUBLIC_KEY_LEN && sign_sk_len == SIGN_SECRET_KEY_LEN)),
{
    if !secure {
        HandshakePlan::ClearByPolicy
    } else if sign_pk_len == SIGN_PUBLIC_KEY_LEN && sign_sk_len == SIGN_SECRET_KEY_LEN {
        HandshakePlan::Secure
    } else {
        HandshakePlan::ClearMisconfigured
    }
}

/// Judge the bounded send of the signed identity record: exceeding its
/// time bound fails this connection attempt with a timeout — distinct
/// from a protocol error — while a completed send lets the exchange go
/// on to the peer's answer.
pub fn classify_send(sent_in_time: bool) -> (r: Option<HandshakeError>)
    ensures
        r == (if sent_in_time {
            Option::<HandshakeError>::None
        } else {
            Option::Some(HandshakeError::Timeout)
        }),
{
    if sent_in_time {
        None
    } else {
        Some(HandshakeError::Timeout)
    }
}

/// The one decision [`decide_response`] may return for a given answer:
/// a peer key of exactly the key-exchange size starts the encrypted
/// session; an empty key is the unpin signal and continues in the clear;
/// any other key length, a message of the wrong type, unparseable bytes
/// and a closed stream are protocol failures that abort the attempt; an
/// expired wait is a timeout failure.
pub open spec fn decision_for(resp: PeerResponse, r: HandshakeDecision) -> bool {
    match resp {
        PeerResponse::PublicKey { asymmetric, symmetric } => {
            if asymmetric@.len() == KX_PUBLIC_KEY_LEN {
                r == (HandshakeDecision::SecureWith { peer_key: asymmetric, wrapped: symmetric })
            } else if asymmetric@.len() == 0 {
                r == (HandshakeDecision::ContinueClear { unpin: true })
            } else {
                r == (HandshakeDecision::Fail { error: HandshakeError::Protocol })
            }
        },
        PeerResponse::OtherMessage => r == (HandshakeDecision::Fail {
            error: HandshakeError::Protocol,
        }),
        PeerResponse::Unparseable => r == (HandshakeDecision::Fail {
            error: HandshakeError::Protocol,
        }),
        PeerResponse::Absent => r == (HandshakeDecision::Fail { error: HandshakeError::Protocol }),
        PeerResponse::TimedOut => r == (HandshakeDecision::Fail { error: HandshakeError::Timeout }),
    }
}

/// Classify the peer's answer to the signed identity record.
pub fn decide_response(resp: PeerResponse) -> (r: HandshakeDecision)
    ensures
        decision_for(resp, r),
{
    match resp {
        PeerResponse::PublicKey { asymmetric, symmetric } => {
            if asymmetric.len() == KX_PUBLIC_KEY_LEN {
                HandshakeDecision::SecureWith { peer_key: asymmetric, wrapped: symmetric }
            } else if asymmetric.len() == 0 {
                HandshakeDecision::ContinueClear { unpin: true }
            } else {
                HandshakeDecision::Fail { error: HandshakeError::Protocol }
            }
        },
        PeerResponse::OtherMessage => HandshakeDecision::Fail { error: HandshakeError::Protocol },
        PeerResponse::Unparseable => HandshakeDecision::Fail { error: HandshakeError::Protocol },
        PeerResponse::Absent => HandshakeDecision::Fail { error: HandshakeError::Protocol },
        PeerResponse::TimedOut => HandshakeDecision::Fail { error: HandshakeError::Timeout },
    }
}

/// The host's record of whether the peer has confirmed the pinned host
/// identity, kept by the identity-store collaborator.
pub struct PinnedIdentity {
    /// Whether the pinned identity is currently confirmed.
    pub confirmed: bool,
}

impl PinnedIdentity {
    /// Apply a handshake decision to the pinned-identity state: only the
    /// explicit unpin signal — an empty peer key — clears the
    /// confirmation; every other outcome leaves it alone, and nothing
    /// here ever sets it.
    pub fn apply_decision(&mut self, decision: &HandshakeDecision)
        ensures
            final(self).confirmed == (old(self).confirmed && !(decision
                matches HandshakeDecision::ContinueClear { unpin: true })),
    {
        if matches!(decision, HandshakeDecision::ContinueClear { unpin: true }) {
            self.confirmed = false;
        }
    }
}

/// Handshake unpin signal: a public-key record with empty key bytes keeps
/// the stream in the clear — it is not a protocol error — and, applied to
/// the pinned-identity state, clears the confirmation.
pub proof fn lemma_empty_key_unpins(
    resp: PeerResponse,
    r: HandshakeDecision,
    pin0: PinnedIdentity,
    pin1: PinnedIdentity,
)
    requires
        resp matches PeerResponse::PublicKey { asymmetric, symmetric } && asymmetric@.len() == 0,
        decision_for(resp, r),
        pin1.confirmed == (pin0.confirmed && !(r matches HandshakeDecision::ContinueClear {
            unpin: true,
        })),
    ensures
        r == (HandshakeDecision::ContinueClear { unpin: true }),
        !(r matches HandshakeDecision::Fail { .. }),
        !pin1.confirmed,
{
}

/// Handshake bad-length rejection: a public-key record whose key length
/// is neither zero nor the key-exchange size fails this connection
/// attempt with a protocol error — never a timeout, never admission.
pub proof fn lemma_bad_key_length_rejected(resp: PeerResponse, r: HandshakeDecision)
    requires
        resp matches PeerResponse::PublicKey { asymmetric, symmetric } && asymmetric@.len() != 0
            && asymmetric@.len() != KX_PUBLIC_KEY_LEN,
        decision_for(resp, r),
    ensures
        r == (HandshakeDecision::Fail { error: HandshakeError::Protocol }),
{
}

} // verus!
