//! Peer-to-peer handshake core: offer/answer payload codec, transport state
//! machine, peer registry, and the signaling handshake orchestrator.
//!
//! The library is the decision logic of one handshake attempt: producing an
//! offer bound to a signing identity, serializing it for a text signaling
//! channel, classifying the remote answer, and registering the negotiated
//! transport under the remote peer's derived address. The surrounding I/O
//! (HTTP signaling, media-level negotiation, user interface) stays outside
//! and drives this library through plain values and events.

pub mod orchestrator;
pub mod payload;
pub mod registry;
pub mod transport;
