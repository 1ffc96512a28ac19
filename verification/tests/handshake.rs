use trickle_handshake::orchestrator::{
    connect_via_signaling, HandshakeAction, HandshakeError, HandshakeEvent, HandshakeTask,
    SignalingCause, StepOutcome,
};
use trickle_handshake::payload::{parse_payload, serialize_payload, HandshakePayload, Role};
use trickle_handshake::registry::Registry;
use trickle_handshake::transport::{derive_address, SigningKey, TransportState};

fn endpoint() -> Vec<u8> {
    b"http://relay/x".to_vec()
}

/// The text form of a valid answer from `remote`.
fn answer_body(remote: u64, desc: &[u8]) -> Vec<u8> {
    serialize_payload(&HandshakePayload {
        role: Role::Answer,
        sender: remote,
        body: desc.to_vec(),
    })
}

/// Drive one attempt through the step machine, answering `SendOffer` with
/// `respond(offer_text)`.
fn run_attempt(
    registry: &mut Registry,
    key: SigningKey,
    respond: impl Fn(&[u8]) -> HandshakeEvent,
) -> Result<&'static str, HandshakeError> {
    let mut task = HandshakeTask::new(key, endpoint());
    let mut event = HandshakeEvent::TransportCreated;
    loop {
        match task.step(registry, event) {
            StepOutcome::Done { result } => return result,
            StepOutcome::Next { action } => {
                event = match action {
                    HandshakeAction::ProduceOffer => HandshakeEvent::OfferReady {
                        local_desc: b"local-candidates".to_vec(),
                    },
                    HandshakeAction::SendOffer { text, .. } => respond(&text),
                };
            }
        }
    }
}

#[test]
fn happy_path_registers_remote_peer() {
    let mut reg = Registry::new();
    let key = SigningKey { id: 1 };
    let remote = 2u64;
    let result = run_attempt(&mut reg, key, |offer_text| {
        // the relay forwards a well-formed offer and returns the remote answer
        let offer = parse_payload(&offer_text.to_vec()).expect("offer text must parse");
        assert_eq!(offer.role, Role::Offer);
        assert_eq!(offer.sender, 1);
        assert_eq!(offer.body, b"local-candidates".to_vec());
        HandshakeEvent::SignalingResponse { body: answer_body(remote, b"remote-candidates") }
    });
    assert_eq!(result, Ok("ok"));
    assert_eq!(reg.len(), 1);
    let addr = derive_address(remote);
    let t = reg.get(&addr).expect("the derived address must resolve");
    assert_eq!(t.state, TransportState::AnswerApplied);
    assert_eq!(t.local, Some(1));
    assert_eq!(t.remote, Some(remote));
}

#[test]
fn unreachable_relay_leaves_registry_empty() {
    let mut reg = Registry::new();
    let key = SigningKey { id: 1 };
    let result = run_attempt(&mut reg, key, |_| HandshakeEvent::SignalingFailed {
        cause: SignalingCause::ConnectionRefused,
    });
    assert_eq!(
        result,
        Err(HandshakeError::SignalingUnreachable(SignalingCause::ConnectionRefused))
    );
    assert_eq!(reg.len(), 0);
}

#[test]
fn timeout_and_bad_status_are_unreachable() {
    for cause in [
        SignalingCause::Timeout,
        SignalingCause::NonSuccessStatus(500),
        SignalingCause::DecodeFailure,
    ] {
        let mut reg = Registry::new();
        let key = SigningKey { id: 1 };
        let result = run_attempt(&mut reg, key, |_| HandshakeEvent::SignalingFailed { cause });
        assert_eq!(result, Err(HandshakeError::SignalingUnreachable(cause)));
        assert_eq!(reg.len(), 0);
    }
}

#[test]
fn corrupt_relay_is_malformed_answer() {
    let mut reg = Registry::new();
    let key = SigningKey { id: 1 };
    let result = run_attempt(&mut reg, key, |_| HandshakeEvent::SignalingResponse {
        body: b"not-an-answer".to_vec(),
    });
    assert_eq!(result, Err(HandshakeError::MalformedAnswer));
    assert_eq!(reg.len(), 0);
}

#[test]
fn malformed_bodies_leave_registry_unchanged() {
    let valid = answer_body(9, b"desc");
    let mut truncated = valid.clone();
    truncated.truncate(10);
    let wrong_role = serialize_payload(&HandshakePayload {
        role: Role::Offer,
        sender: 9,
        body: b"desc".to_vec(),
    });
    let oversized = vec![0x61u8; 65537];
    let bodies: Vec<Vec<u8>> = vec![Vec::new(), truncated, wrong_role, oversized];
    for body in bodies {
        let mut reg = Registry::new();
        reg.register(derive_address(5), trickle_handshake::transport::Transport {
            state: TransportState::AnswerApplied,
            local: Some(1),
            remote: Some(5),
        });
        let before = reg.len();
        let key = SigningKey { id: 1 };
        let result = run_attempt(&mut reg, key, |_| HandshakeEvent::SignalingResponse {
            body: body.clone(),
        });
        assert_eq!(result, Err(HandshakeError::MalformedAnswer));
        assert_eq!(reg.len(), before);
        assert!(reg.contains(&derive_address(5)));
        assert!(!reg.contains(&derive_address(9)));
    }
}

#[test]
fn echoed_answer_is_rejected_by_transport() {
    let mut reg = Registry::new();
    let key = SigningKey { id: 1 };
    let result = run_attempt(&mut reg, key, |_| HandshakeEvent::SignalingResponse {
        // a well-formed answer, but from the local identity itself
        body: answer_body(1, b"echo"),
    });
    assert_eq!(result, Err(HandshakeError::AnswerApplicationFailed));
    assert_eq!(reg.len(), 0);
}

#[test]
fn factory_failure_reports_transport_creation() {
    let mut reg = Registry::new();
    let key = SigningKey { id: 1 };
    let mut task = HandshakeTask::new(key, endpoint());
    match task.step(&mut reg, HandshakeEvent::TransportFailed) {
        StepOutcome::Done { result } => {
            assert_eq!(result, Err(HandshakeError::TransportCreationFailed))
        }
        StepOutcome::Next { .. } => panic!("a factory failure must end the attempt"),
    }
    assert_eq!(reg.len(), 0);
}

#[test]
fn offer_failure_reports_offer_generation() {
    let mut reg = Registry::new();
    let key = SigningKey { id: 1 };
    let mut task = HandshakeTask::new(key, endpoint());
    match task.step(&mut reg, HandshakeEvent::TransportCreated) {
        StepOutcome::Next { action } => assert!(matches!(action, HandshakeAction::ProduceOffer)),
        StepOutcome::Done { .. } => panic!("transport creation must continue the attempt"),
    }
    match task.step(&mut reg, HandshakeEvent::OfferFailed) {
        StepOutcome::Done { result } => {
            assert_eq!(result, Err(HandshakeError::OfferGenerationFailed))
        }
        StepOutcome::Next { .. } => panic!("an offer failure must end the attempt"),
    }
    assert_eq!(reg.len(), 0);
}

#[test]
fn concurrent_attempts_to_one_peer_leave_one_entry() {
    let mut reg = Registry::new();
    let remote = 2u64;
    // several attempts, possibly from different local identities, all
    // resolving to the same remote address
    for local in [1u64, 3, 4] {
        let key = SigningKey { id: local };
        let result = run_attempt(&mut reg, key, |_| HandshakeEvent::SignalingResponse {
            body: answer_body(remote, b"remote-candidates"),
        });
        assert_eq!(result, Ok("ok"));
    }
    assert_eq!(reg.len(), 1);
    let t = reg.get(&derive_address(remote)).expect("the shared address must resolve");
    // the last registration won
    assert_eq!(t.local, Some(4));
}

#[test]
fn one_shot_happy_path() {
    let mut reg = Registry::new();
    let key = SigningKey { id: 1 };
    let result = connect_via_signaling(
        &mut reg,
        &key,
        endpoint(),
        true,
        Some(b"local-candidates".to_vec()),
        Ok(answer_body(2, b"remote-candidates")),
    );
    assert_eq!(result, Ok("ok"));
    assert_eq!(reg.len(), 1);
    assert!(reg.contains(&derive_address(2)));
}

#[test]
fn one_shot_failures() {
    let mut reg = Registry::new();
    let key = SigningKey { id: 1 };
    let desc = || Some(b"local-candidates".to_vec());

    let r = connect_via_signaling(&mut reg, &key, endpoint(), false, desc(), Ok(Vec::new()));
    assert_eq!(r, Err(HandshakeError::TransportCreationFailed));

    let r = connect_via_signaling(&mut reg, &key, endpoint(), true, None, Ok(Vec::new()));
    assert_eq!(r, Err(HandshakeError::OfferGenerationFailed));

    let r = connect_via_signaling(
        &mut reg,
        &key,
        endpoint(),
        true,
        desc(),
        Err(SignalingCause::Timeout),
    );
    assert_eq!(r, Err(HandshakeError::SignalingUnreachable(SignalingCause::Timeout)));

    let r = connect_via_signaling(
        &mut reg,
        &key,
        endpoint(),
        true,
        desc(),
        Ok(b"not-an-answer".to_vec()),
    );
    assert_eq!(r, Err(HandshakeError::MalformedAnswer));

    let r = connect_via_signaling(&mut reg, &key, endpoint(), true, desc(), Ok(answer_body(1, b"")));
    assert_eq!(r, Err(HandshakeError::AnswerApplicationFailed));

    assert_eq!(reg.len(), 0);
}
