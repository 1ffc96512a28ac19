//! The handshake orchestrator: one handshake attempt driven end to end.
//!
//! The attempt suspends three times for work the library cannot do itself —
//! allocating a transport, gathering the local connectivity descriptor, and
//! the signaling round trip. The caller performs the action the orchestrator
//! asks for and hands the outcome back as an event; every decision between
//! those suspension points is made here, synchronously. The peer registry is
//! touched exactly once, after all I/O has completed, and only when the
//! handshake succeeds.

use crate::payload::{parse_payload, serialize_payload, spec_parse, spec_serialize, Role};
use crate::registry::Registry;
use crate::transport::{spec_address_of, SigningKey, Transport, TransportState};
use vstd::prelude::*;

verus! {

/// The longest response body the orchestrator accepts; anything longer is a
/// malformed answer, not a network error.
pub const MAX_ANSWER_LEN: usize = 65536;

/// Why the signaling exchange failed, kept for diagnostics.
#[derive(Clone, Copy, PartialEq, Eq, Structural, Debug)]
pub enum SignalingCause {
    ConnectionRefused,
    Timeout,
    NonSuccessStatus(u16),
    DecodeFailure,
}

/// The single terminal failure of one handshake attempt. No failure is
/// retried internally, and none leaves a registry entry behind.
#[derive(Clone, Copy, PartialEq, Eq, Structural, Debug)]
pub enum HandshakeError {
    /// Local resource or setup failure before any network activity.
    TransportCreationFailed,
    /// Local failure producing the offer.
    OfferGenerationFailed,
    /// Network-level failure, timeout, or non-success signaling response.
    SignalingUnreachable(SignalingCause),
    /// A response arrived but is not a well-formed answer payload.
    MalformedAnswer,
    /// The transport rejected a well-formed answer.
    AnswerApplicationFailed,
}

/// The outcome of an outside step, handed back by the caller.
pub enum HandshakeEvent {
    /// The transport factory produced a transport.
    TransportCreated,
    /// The transport factory could not allocate a transport.
    TransportFailed,
    /// The media layer gathered the local connectivity descriptor.
    OfferReady { local_desc: Vec<u8> },
    /// The media layer could not produce an offer.
    OfferFailed,
    /// The signaling exchange returned a response body.
    SignalingResponse { body: Vec<u8> },
    /// The signaling exchange failed.
    SignalingFailed { cause: SignalingCause },
}

/// The outside work the orchestrator asks for next. A fresh task asks for
/// nothing yet: its first pending request is the transport factory, so its
/// first event is the factory's outcome.
pub enum HandshakeAction {
    /// Gather the local connectivity descriptor for the offer.
    ProduceOffer,
    /// Perform one signaling round trip: send `text` to `endpoint` and hand
    /// back the response body.
    SendOffer { endpoint: Vec<u8>, text: Vec<u8> },
}

/// What one step of the orchestrator produced: the next action to perform,
/// or the attempt's single terminal outcome.
pub enum StepOutcome {
    Next { action: HandshakeAction },
    Done { result: Result<&'static str, HandshakeError> },
}

/// Where the attempt stands between events.
#[derive(Clone, Copy)]
pub enum Phase {
    /// Waiting for the transport factory.
    AwaitTransport,
    /// Waiting for the local connectivity descriptor.
    AwaitOffer { transport: Transport },
    /// Offer sent; waiting for the signaling response.
    AwaitAnswer { transport: Transport },
    /// The attempt has reported its terminal outcome.
    Complete,
}

/// One handshake attempt: the signing identity, the signaling endpoint, and
/// the attempt's phase.
pub struct HandshakeTask {
    pub key: SigningKey,
    pub endpoint: Vec<u8>,
    pub phase: Phase,
}

/// The body parses as an answer payload of acceptable size; yields its
/// sender and descriptor.
pub open spec fn spec_answer_of(body: Seq<u8>) -> Option<(u64, Seq<u8>)> {
    if body.len() <= MAX_ANSWER_LEN {
        match spec_parse(body) {
            Some((Role::Answer, sender, desc)) => Some((sender, desc)),
            _ => None,
        }
    } else {
        None
    }
}

/// The event answers the outside request pending in this phase.
pub open spec fn event_fits(phase: Phase, event: HandshakeEvent) -> bool {
    match phase {
        Phase::AwaitTransport => event is TransportCreated || event is TransportFailed,
        Phase::AwaitOffer { .. } => event is OfferReady || event is OfferFailed,
        Phase::AwaitAnswer { .. } => event is SignalingResponse || event is SignalingFailed,
        Phase::Complete => false,
    }
}

/// The transition on a signaling response mutates the registry: the body is
/// a well-formed answer from a peer other than the local identity.
pub open spec fn response_succeeds(task: HandshakeTask, event: HandshakeEvent) -> bool {
    &&& task.phase is AwaitAnswer
    &&& event matches HandshakeEvent::SignalingResponse { body }
    &&& spec_answer_of(body@) matches Some((sender, _)) && sender != task.key.id
}

impl HandshakeTask {
    /// The attempt's invariant: the transport it owns is exactly as far
    /// along as the phase says.
    pub open spec fn wf(self) -> bool {
        &&& self.endpoint@.len() > 0
        &&& (self.phase matches Phase::AwaitOffer { transport } ==> transport.wf()
            && transport.state == TransportState::Created)
        &&& (self.phase matches Phase::AwaitAnswer { transport } ==> transport.wf()
            && transport.state == TransportState::OfferGenerated && transport.local == Some(
            self.key.id,
        ))
    }

    /// Begin one handshake attempt toward a signaling endpoint. The first
    /// action to perform is requesting a transport.
    pub fn new(key: SigningKey, endpoint: Vec<u8>) -> (task: HandshakeTask)
        requires
            endpoint@.len() > 0,
        ensures
            task.wf(),
            task.phase is AwaitTransport,
            task.key == key,
            task.endpoint@ == endpoint@,
    {
        HandshakeTask { key, endpoint, phase: Phase::AwaitTransport }
    }

    /// Advance the attempt by one event.
    ///
    /// Every decision of the handshake is made here: a factory or media
    /// failure ends the attempt with its own error; a signaling failure ends
    /// it as unreachable; a response that is not a well-formed answer of
    /// acceptable size is a malformed answer; an answer echoing the local
    /// identity is rejected by the transport; and a good answer finalizes
    /// the transport and registers it under the remote peer's derived
    /// address — the single registry mutation of the whole attempt.
    pub fn step(&mut self, registry: &mut Registry, event: HandshakeEvent) -> (r: StepOutcome)
        requires
            old(self).wf(),
            old(registry).wf(),
            event_fits(old(self).phase, event),
        ensures
            final(self).wf(),
            final(registry).wf(),
            final(self).key == old(self).key,
            final(self).endpoint@ == old(self).endpoint@,
            !response_succeeds(*old(self), event) ==> final(registry)@ == old(registry)@,
            match (old(self).phase, event) {
                (Phase::AwaitTransport, HandshakeEvent::TransportCreated) => {
                    &&& r matches StepOutcome::Next { action: HandshakeAction::ProduceOffer }
                    &&& final(self).phase matches Phase::AwaitOffer { transport } && transport.state
                        == TransportState::Created
                },
                (Phase::AwaitTransport, HandshakeEvent::TransportFailed) => {
                    &&& r matches StepOutcome::Done { result } && result == Err::<
                        &'static str,
                        HandshakeError,
                    >(HandshakeError::TransportCreationFailed)
                    &&& final(self).phase is Complete
                },
                (Phase::AwaitOffer { .. }, HandshakeEvent::OfferReady { local_desc }) => {
                    &&& r matches StepOutcome::Next {
                        action: HandshakeAction::SendOffer { endpoint, text },
                    } && endpoint@ == old(self).endpoint@ && text@ == spec_serialize(
                        Role::Offer,
                        old(self).key.id,
                        local_desc@,
                    )
                    &&& final(self).phase is AwaitAnswer
                },
                (Phase::AwaitOffer { .. }, HandshakeEvent::OfferFailed) => {
                    &&& r matches StepOutcome::Done { result } && result == Err::<
                        &'static str,
                        HandshakeError,
                    >(HandshakeError::OfferGenerationFailed)
                    &&& final(self).phase is Complete
                },
                (Phase::AwaitAnswer { .. }, HandshakeEvent::SignalingFailed { cause }) => {
                    &&& r matches StepOutcome::Done { result } && result == Err::<
                        &'static str,
                        HandshakeError,
                    >(HandshakeError::SignalingUnreachable(cause))
                    &&& final(self).phase is Complete
                },
                (Phase::AwaitAnswer { .. }, HandshakeEvent::SignalingResponse { body }) => {
                    &&& spec_answer_of(body@) is None ==> (r matches StepOutcome::Done { result }
                        && result == Err::<&'static str, HandshakeError>(
                        HandshakeError::MalformedAnswer,
                    ))
                    &&& spec_answer_of(body@) matches Some((sender, _)) ==> (if sender == old(
                        self,
                    ).key.id {
                        r matches StepOutcome::Done { result } && result == Err::<
                            &'static str,
                            HandshakeError,
                        >(HandshakeError::AnswerApplicationFailed)
                    } else {
                        &&& r matches StepOutcome::Done { result } && result matches Ok(c) && c@
                            == "ok"@
                        &&& final(registry)@ == old(registry)@.insert(
                            spec_address_of(sender),
                            (Transport {
                                state: TransportState::AnswerApplied,
                                local: Some(old(self).key.id),
                                remote: Some(sender),
                            }),
                        )
                    })
                    &&& final(self).phase is Complete
                },
                _ => false,
            },
    {
        let phase = self.phase;
        self.phase = Phase::Complete;
        match (phase, event) {
            (Phase::AwaitTransport, HandshakeEvent::TransportCreated) => {
                let transport = Transport::new();
                self.phase = Phase::AwaitOffer { transport };
                StepOutcome::Next { action: HandshakeAction::ProduceOffer }
            },
            (Phase::AwaitTransport, HandshakeEvent::TransportFailed) => {
                StepOutcome::Done { result: Err(HandshakeError::TransportCreationFailed) }
            },
            (Phase::AwaitOffer { transport }, HandshakeEvent::OfferReady { local_desc }) => {
                let mut transport = transport;
                let offer = transport.generate_offer(&self.key, local_desc);
                let text = serialize_payload(&offer);
                let endpoint = clone_bytes(&self.endpoint);
                self.phase = Phase::AwaitAnswer { transport };
                StepOutcome::Next { action: HandshakeAction::SendOffer { endpoint, text } }
            },
            (Phase::AwaitOffer { .. }, HandshakeEvent::OfferFailed) => {
                StepOutcome::Done { result: Err(HandshakeError::OfferGenerationFailed) }
            },
            (Phase::AwaitAnswer { .. }, HandshakeEvent::SignalingFailed { cause }) => {
                StepOutcome::Done { result: Err(HandshakeError::SignalingUnreachable(cause)) }
            },
            (Phase::AwaitAnswer { transport }, HandshakeEvent::SignalingResponse { body }) => {
                if body.len() > MAX_ANSWER_LEN {
                    return StepOutcome::Done { result: Err(HandshakeError::MalformedAnswer) };
                }
                let answer = match parse_payload(&body) {
                    Some(p) => p,
                    None => {
                        return StepOutcome::Done { result: Err(HandshakeError::MalformedAnswer) };
                    },
                };
                if answer.role != Role::Answer {
                    return StepOutcome::Done { result: Err(HandshakeError::MalformedAnswer) };
                }
                let mut transport = transport;
                match transport.apply_answer(&answer) {
                    Ok(addr) => {
                        registry.register(addr, transport);
                        StepOutcome::Done { result: Ok("ok") }
                    },
                    Err(_) => {
                        StepOutcome::Done { result: Err(HandshakeError::AnswerApplicationFailed) }
                    },
                }
            },
            _ => {
                // unreachable: the precondition ties each event to its phase
                StepOutcome::Done { result: Err(HandshakeError::TransportCreationFailed) }
            },
        }
    }
}

/// Copy a byte vector.
fn clone_bytes(v: &Vec<u8>) -> (out: Vec<u8>)
    ensures
        out@ == v@,
{
    let mut out: Vec<u8> = Vec::new();
    out.extend_from_slice(v.as_slice());
    proof {
        assert(out@ =~= v@);
    }
    out
}

/// Execute exactly one handshake attempt and report its single terminal
/// outcome, given the outcomes of the three outside steps: whether the
/// factory produced a transport, the gathered local descriptor if the media
/// layer produced one, and the result of the signaling round trip.
///
/// The registry gains exactly the one entry for the remote peer's derived
/// address when the attempt succeeds, and is untouched on every failure.
pub fn connect_via_signaling(
    registry: &mut Registry,
    key: &SigningKey,
    endpoint: Vec<u8>,
    transport_created: bool,
    local_desc: Option<Vec<u8>>,
    response: Result<Vec<u8>, SignalingCause>,
) -> (r: Result<&'static str, HandshakeError>)
    requires
        old(registry).wf(),
        endpoint@.len() > 0,
    ensures
        final(registry).wf(),
        !transport_created ==> r == Err::<&'static str, HandshakeError>(
            HandshakeError::TransportCreationFailed,
        ) && final(registry)@ == old(registry)@,
        transport_created && local_desc is None ==> r == Err::<&'static str, HandshakeError>(
            HandshakeError::OfferGenerationFailed,
        ) && final(registry)@ == old(registry)@,
        transport_created && local_desc is Some ==> (response matches Err(cause) ==> r == Err::<
            &'static str,
            HandshakeError,
        >(HandshakeError::SignalingUnreachable(cause)) && final(registry)@ == old(registry)@),
        transport_created && local_desc is Some ==> (response matches Ok(body) ==> {
            &&& spec_answer_of(body@) is None ==> r == Err::<&'static str, HandshakeError>(
                HandshakeError::MalformedAnswer,
            ) && final(registry)@ == old(registry)@
            &&& spec_answer_of(body@) matches Some((sender, _)) ==> (if sender == key.id {
                r == Err::<&'static str, HandshakeError>(HandshakeError::AnswerApplicationFailed)
                    && final(registry)@ == old(registry)@
            } else {
                &&& r matches Ok(c) && c@ == "ok"@
                &&& final(registry)@ == old(registry)@.insert(
                    spec_address_of(sender),
                    (Transport {
                        state: TransportState::AnswerApplied,
                        local: Some(key.id),
                        remote: Some(sender),
                    }),
                )
            })
        }),
{
    let mut task = HandshakeTask::new(*key, endpoint);
    let first = if transport_created {
        HandshakeEvent::TransportCreated
    } else {
        HandshakeEvent::TransportFailed
    };
    match task.step(registry, first) {
        StepOutcome::Done { result } => {
            return result;
        },
        StepOutcome::Next { .. } => {},
    }
    let second = match local_desc {
        Some(desc) => HandshakeEvent::OfferReady { local_desc: desc },
        None => HandshakeEvent::OfferFailed,
    };
    match task.step(registry, second) {
        StepOutcome::Done { result } => {
            return result;
        },
        StepOutcome::Next { .. } => {},
    }
    let third = match response {
        Ok(body) => HandshakeEvent::SignalingResponse { body },
        Err(cause) => HandshakeEvent::SignalingFailed { cause },
    };
    match task.step(registry, third) {
        StepOutcome::Done { result } => result,
        StepOutcome::Next { .. } => {
            // unreachable: the third event always completes the attempt
            Err(HandshakeError::MalformedAnswer)
        },
    }
}

} // verus!
