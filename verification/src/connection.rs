//! Per-peer session state: a connection record with its lifecycle state
//! machine and its outbound message queue.
//!
//! A connection is born `Handshaking`; a successful handshake makes it
//! `Active` (and only then is it registered), a failed one makes it `Closed`
//! without ever touching the registry. A stop — peer- or host-initiated —
//! moves it through `Closing` to `Closed`, where every further send is a
//! silent no-op. The registry never writes to a transport stream itself: it
//! appends to the connection's outbound queue, and the connection's own
//! worker drains the queue to the stream, so each stream has a single
//! writer and messages reach the peer in the order they were queued.

use vstd::prelude::*;

verus! {

/// The lifecycle of one peer connection.
#[derive(Clone, Copy, Debug, PartialEq, Eq, Structural)]
pub enum ConnState {
    /// The key exchange of `crate::handshake` is still running.
    Handshaking,
    /// Admitted: registered with the registry and relaying traffic.
    Active,
    /// A stop was requested; deregistration and flushing are under way.
    Closing,
    /// Terminal: all further sends are no-ops.
    Closed,
}

/// A control message the registry queues for one connection.
#[derive(Clone, Copy, Debug, PartialEq, Eq, Structural)]
pub enum OutboundMessage {
    /// Host-initiated full shutdown: the peer should stop its session.
    StopService,
    /// The audio stream's negotiated format header.
    AudioFormat { sample_rate: u32, channels: u16 },
}

/// One admitted (or in-progress) peer session.
pub struct Connection {
    /// The allocated identifier, immutable for the connection's lifetime.
    pub id: i32,
    /// Where in its lifecycle this connection stands.
    pub state: ConnState,
    /// Messages queued for the peer, oldest first, drained by the
    /// connection's own worker.
    pub outbound: Vec<OutboundMessage>,
}

impl Connection {
    /// A fresh connection for a newly accepted stream, still handshaking.
    pub fn new(id: i32) -> (c: Connection)
        ensures
            c.id == id,
            c.state == ConnState::Handshaking,
            c.outbound@.len() == 0,
    {
        Connection { id, state: ConnState::Handshaking, outbound: Vec::new() }
    }

    /// Queue a message for the peer. On a closed connection this is a
    /// silent no-op; otherwise the message goes to the back of the queue,
    /// so per-connection delivery order follows queueing order.
    pub fn send(&mut self, msg: OutboundMessage)
        ensures
            final(self).id == old(self).id,
            final(self).state == old(self).state,
            old(self).state == ConnState::Closed ==> *final(self) == *old(self),
            old(self).state != ConnState::Closed ==> final(self).outbound@ == old(self).outbound@.push(msg),
    {
        if matches!(self.state, ConnState::Closed) {
            return;
        }
        self.outbound.push(msg);
    }

    /// Delivery order per connection follows queueing order: two
    /// successive sends on an open connection leave the two messages at
    /// the back of the queue in the order they were sent — no reordering
    /// across the relay.
    pub proof fn lemma_send_order_preserved(
        c0: Connection,
        c1: Connection,
        c2: Connection,
        m1: OutboundMessage,
        m2: OutboundMessage,
    )
        requires
            c0.state != ConnState::Closed,
            c1.state == c0.state,
            c1.outbound@ == c0.outbound@.push(m1),
            c2.outbound@ == c1.outbound@.push(m2),
        ensures
            c2.outbound@ == c0.outbound@.push(m1).push(m2),
            c2.outbound@.len() >= 2,
            c2.outbound@[c2.outbound@.len() - 2] == m1,
            c2.outbound@[c2.outbound@.len() - 1] == m2,
    {
    }

    /// The handshake succeeded: the connection becomes active and may be
    /// registered.
    pub fn on_handshake_success(&mut self)
        requires
            old(self).state == ConnState::Handshaking,
        ensures
            *final(self) == (Connection { state: ConnState::Active, ..*old(self) }),
    {
        self.state = ConnState::Active;
    }

    /// The handshake failed: the connection closes without ever having been
    /// registered.
    pub fn on_handshake_failure(&mut self)
        requires
            old(self).state == ConnState::Handshaking,
        ensures
            *final(self) == (Connection { state: ConnState::Closed, ..*old(self) }),
    {
        self.state = ConnState::Closed;
    }

    /// A peer- or host-initiated stop: deregistration and flushing begin.
    pub fn begin_close(&mut self)
        requires
            old(self).state == ConnState::Active,
        ensures
            *final(self) == (Connection { state: ConnState::Closing, ..*old(self) }),
    {
        self.state = ConnState::Closing;
    }

    /// Flushing finished: the connection reaches its terminal state.
    pub fn finish_close(&mut self)
        requires
            old(self).state == ConnState::Closing,
        ensures
            *final(self) == (Connection { state: ConnState::Closed, ..*old(self) }),
    {
        self.state = ConnState::Closed;
    }
}

} // verus!
