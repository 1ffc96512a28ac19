//! Signing identity, derived peer addresses, and the transport state machine.
//!
//! A transport progresses `Created -> OfferGenerated -> AnswerApplied`
//! (or `Failed`); only a transport whose answer has been applied may be
//! handed to the peer registry. The connectivity descriptors themselves are
//! opaque bytes produced and consumed by the media layer outside this crate.

use crate::payload::{HandshakePayload, Role};
use vstd::prelude::*;

verus! {

/// Constant mixed into the identity when deriving an address, standing in
/// for the one-way derivation performed by the identity subsystem.
pub const ADDRESS_TWEAK: u64 = 0x9e3779b97f4a7c15;

/// An opaque signing identity. Only its stable public identifier is
/// visible to the handshake logic.
#[derive(Clone, Copy, PartialEq, Eq, Structural, Debug)]
pub struct SigningKey {
    pub id: u64,
}

/// A peer address: the fixed-size identifier derived from a public signing
/// identity, used as the peer registry's key.
#[derive(Clone, Copy, PartialEq, Eq, Structural, Debug)]
pub struct Address {
    pub id: u64,
}

/// The address derived from a public identity. The derivation is
/// deterministic: equal identities always yield equal addresses.
pub open spec fn spec_address_of(key_id: u64) -> u64 {
    key_id ^ ADDRESS_TWEAK
}

/// Derive the peer address of an identity.
pub fn derive_address(key_id: u64) -> (a: Address)
    ensures
        a.id == spec_address_of(key_id),
{
    Address { id: key_id ^ ADDRESS_TWEAK }
}

/// The lifecycle of a transport during one handshake attempt.
#[derive(Clone, Copy, PartialEq, Eq, Structural, Debug)]
pub enum TransportState {
    Created,
    OfferGenerated,
    AnswerApplied,
    Connected,
    Failed,
}

/// A not-yet-connected or connected channel to one remote peer.
///
/// `local` is the identity the offer was bound to; `remote` is the identity
/// learned from the answer. Both are filled in as the state advances.
#[derive(Clone, Copy, Debug)]
pub struct Transport {
    pub state: TransportState,
    pub local: Option<u64>,
    pub remote: Option<u64>,
}

impl Transport {
    /// The state machine's well-formedness: identities are present exactly
    /// when the state says they have been learned.
    pub open spec fn wf(self) -> bool {
        match self.state {
            TransportState::Created => self.local is None && self.remote is None,
            TransportState::OfferGenerated => self.local is Some && self.remote is None,
            TransportState::AnswerApplied => self.local is Some && self.remote is Some,
            TransportState::Connected => self.local is Some && self.remote is Some,
            TransportState::Failed => true,
        }
    }

    /// Only a transport whose answer has been applied may be registered.
    pub open spec fn registrable(self) -> bool {
        self.state == TransportState::AnswerApplied || self.state == TransportState::Connected
    }

    /// A fresh, unconnected transport.
    pub fn new() -> (t: Transport)
        ensures
            t.wf(),
            t.state == TransportState::Created,
    {
        Transport { state: TransportState::Created, local: None, remote: None }
    }

    /// Bind this transport to a signing identity and produce the local offer
    /// payload around the connectivity descriptor gathered by the media
    /// layer.
    pub fn generate_offer(&mut self, key: &SigningKey, local_desc: Vec<u8>) -> (p:
        HandshakePayload)
        requires
            old(self).wf(),
            old(self).state == TransportState::Created,
        ensures
            final(self).wf(),
            final(self).state == TransportState::OfferGenerated,
            final(self).local == Some(key.id),
            p.role == Role::Offer,
            p.sender == key.id,
            p.body@ == local_desc@,
    {
        self.state = TransportState::OfferGenerated;
        self.local = Some(key.id);
        HandshakePayload { role: Role::Offer, sender: key.id, body: local_desc }
    }

    /// Apply a remote answer. On success the transport is finalized and the
    /// remote peer's address is derived from the answer's sender. An answer
    /// that echoes the local identity back is a protocol violation and is
    /// rejected, failing the transport.
    pub fn apply_answer(&mut self, answer: &HandshakePayload) -> (r: Result<Address, ()>)
        requires
            old(self).wf(),
            old(self).state == TransportState::OfferGenerated,
            answer.role == Role::Answer,
        ensures
            final(self).wf(),
            old(self).local == Some(answer.sender) ==> ({
                &&& r is Err
                &&& final(self).state == TransportState::Failed
            }),
            old(self).local != Some(answer.sender) ==> ({
                &&& r == Ok::<Address, ()>(Address { id: spec_address_of(answer.sender) })
                &&& final(self).state == TransportState::AnswerApplied
                &&& final(self).local == old(self).local
                &&& final(self).remote == Some(answer.sender)
            }),
    {
        let local_id = match self.local {
            Some(id) => id,
            None => {
                // unreachable under the precondition: OfferGenerated implies
                // a bound local identity
                self.state = TransportState::Failed;
                return Err(());
            },
        };
        if local_id == answer.sender {
            self.state = TransportState::Failed;
            Err(())
        } else {
            self.state = TransportState::AnswerApplied;
            self.remote = Some(answer.sender);
            Ok(derive_address(answer.sender))
        }
    }
}

} // verus!
