//! Host-side session server core: the service registry / subscription engine
//! and the connection-establishment (handshake) decision logic of a
//! remote-control host.
//!
//! The registry owns the set of local capability services (screen, camera,
//! audio, clipboard, input mirroring) and the set of admitted peer
//! connections, allocates connection identifiers, and mediates every
//! subscription change. The handshake module classifies the peer's
//! key-exchange response and decides whether a fresh connection proceeds
//! encrypted, proceeds in the clear, or is rejected. The audio module holds
//! the capture-policy arithmetic (encoder rate selection, silence
//! suppression, input-device override) that drives the audio service.
//!
//! Transport sockets, codecs and platform capture backends are collaborators
//! outside this crate: they hand plain values in and take plain values back.

pub mod audio;
pub mod connection;
pub mod handshake;
pub mod registry;
pub mod service;
pub mod service_name;
