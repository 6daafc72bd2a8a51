use pvf_host::handshake::{looks_like_handshake, on_frame, HandshakeState, Received};
use pvf_host::job::Response;
use pvf_host::security::{SecurityStatus, WorkerHandshake};

#[test]
fn the_first_frame_must_be_the_handshake() {
    let status = SecurityStatus::from_probes(true, true, true, true);
    let hello = WorkerHandshake::new(status).encode();
    assert!(looks_like_handshake(&hello));
    assert_eq!(
        on_frame(HandshakeState::AwaitingHandshake, &hello),
        (Some(HandshakeState::Ready), Received::Handshake(status))
    );
}

#[test]
fn a_job_shaped_frame_before_the_handshake_is_a_violation() {
    let response = Response::Done(b"output".to_vec()).encode();
    assert!(!looks_like_handshake(&response));
    assert_eq!(on_frame(HandshakeState::AwaitingHandshake, &response), (None, Received::Violation));
    assert_eq!(on_frame(HandshakeState::AwaitingHandshake, &[]), (None, Received::Violation));
    assert_eq!(
        on_frame(HandshakeState::AwaitingHandshake, &[1, 1, 1]),
        (None, Received::Violation)
    );
    assert_eq!(
        on_frame(HandshakeState::AwaitingHandshake, &[1, 1, 1, 1, 0]),
        (None, Received::Violation)
    );
    assert_eq!(
        on_frame(HandshakeState::AwaitingHandshake, &[1, 1, 2, 1]),
        (None, Received::Violation)
    );
}

#[test]
fn after_the_handshake_every_frame_is_a_response() {
    let hello = WorkerHandshake::new(SecurityStatus::default()).encode();
    assert_eq!(
        on_frame(HandshakeState::Ready, &hello),
        (Some(HandshakeState::Ready), Received::JobResponse)
    );
    assert_eq!(
        on_frame(HandshakeState::Ready, b"anything"),
        (Some(HandshakeState::Ready), Received::JobResponse)
    );
    assert_eq!(
        on_frame(HandshakeState::Ready, &[]),
        (Some(HandshakeState::Ready), Received::JobResponse)
    );
}
