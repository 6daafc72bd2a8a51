use pvf_host::framing::{framed_recv_blocking, framed_send_blocking, ByteChannel, FrameError};
use pvf_host::handshake::{on_frame, HandshakeState, Received};
use pvf_host::job::Response;
use pvf_host::security::{ConfigError, SecurityStatus};
use pvf_host::worker::{WorkerError, WorkerPhase, WorkerRuntime};

#[test]
fn a_worker_that_cannot_meet_secure_mode_sends_nothing() {
    for (landlock, seccomp, unshare) in
        [(false, true, true), (true, false, true), (true, true, false), (false, false, false)]
    {
        let mut to_host = ByteChannel::new(64);
        let status = SecurityStatus::from_probes(true, landlock, seccomp, unshare);
        let res = WorkerRuntime::start(status, &mut to_host);
        assert!(matches!(res, Err(WorkerError::Config(ConfigError::SecureModeUnavailable))));
        assert_eq!(to_host.pending_len(), 0);
        assert!(!to_host.closed());
    }
}

#[test]
fn a_worker_sends_its_handshake_first() {
    let mut to_host = ByteChannel::new(64);
    let status = SecurityStatus::from_probes(false, true, false, true);
    let worker = WorkerRuntime::start(status, &mut to_host).unwrap();
    assert_eq!(worker.current_phase(), WorkerPhase::Idle);
    assert_eq!(worker.security_status(), status);
    let hello = framed_recv_blocking(&mut to_host).unwrap();
    assert_eq!(hello, vec![0, 1, 0, 1]);
    assert_eq!(
        on_frame(HandshakeState::AwaitingHandshake, &hello),
        (Some(HandshakeState::Ready), Received::Handshake(status))
    );
    assert_eq!(to_host.pending_len(), 0);
}

#[test]
fn a_worker_takes_one_job_and_gives_one_result_at_a_time() {
    let mut to_host = ByteChannel::new(256);
    let mut from_host = ByteChannel::new(256);
    let status = SecurityStatus::from_probes(true, true, true, true);
    let mut worker = WorkerRuntime::start(status, &mut to_host).unwrap();
    framed_recv_blocking(&mut to_host).unwrap();

    // No result is owed before a job has come.
    assert_eq!(worker.send_result(&mut to_host, b"early"), Err(WorkerError::OutOfTurn));
    assert_eq!(to_host.pending_len(), 0);

    framed_send_blocking(&mut from_host, b"job one").unwrap();
    framed_send_blocking(&mut from_host, b"job two").unwrap();
    assert_eq!(worker.next_job(&mut from_host).unwrap(), Some(b"job one".to_vec()));
    assert_eq!(worker.current_phase(), WorkerPhase::Working);
    // The second job stays on the channel until the first is answered.
    assert!(matches!(worker.next_job(&mut from_host), Err(WorkerError::OutOfTurn)));
    let answer = Response::Done(b"one".to_vec()).encode();
    assert_eq!(worker.send_result(&mut to_host, &answer), Ok(()));
    assert_eq!(worker.current_phase(), WorkerPhase::Idle);
    assert_eq!(worker.send_result(&mut to_host, &answer), Err(WorkerError::OutOfTurn));
    assert_eq!(framed_recv_blocking(&mut to_host), Ok(answer));
    assert_eq!(to_host.pending_len(), 0);

    assert_eq!(worker.next_job(&mut from_host).unwrap(), Some(b"job two".to_vec()));
    assert_eq!(worker.send_result(&mut to_host, b""), Ok(()));

    // The channel has ended between two frames: the worker stops.
    assert_eq!(worker.next_job(&mut from_host).unwrap(), None);
    assert_eq!(worker.current_phase(), WorkerPhase::Stopped);
    assert!(matches!(worker.next_job(&mut from_host), Err(WorkerError::OutOfTurn)));
}

#[test]
fn a_worker_stops_when_its_channel_fails() {
    let mut to_host = ByteChannel::new(64);
    let mut worker = WorkerRuntime::start(SecurityStatus::default(), &mut to_host).unwrap();
    let mut broken = ByteChannel::with_bytes(vec![5, 0, 0], 0);
    assert!(matches!(
        worker.next_job(&mut broken),
        Err(WorkerError::Channel(FrameError::UnexpectedEof))
    ));
    assert_eq!(worker.current_phase(), WorkerPhase::Stopped);
    assert!(broken.closed());

    let mut to_host = ByteChannel::new(64);
    let mut from_host = ByteChannel::new(64);
    let mut worker = WorkerRuntime::start(SecurityStatus::default(), &mut to_host).unwrap();
    framed_send_blocking(&mut from_host, b"job").unwrap();
    worker.next_job(&mut from_host).unwrap();
    assert_eq!(
        worker.send_result(&mut to_host, &[0; 100]),
        Err(WorkerError::Channel(FrameError::ShortWrite))
    );
    assert_eq!(worker.current_phase(), WorkerPhase::Stopped);

    let mut closed = ByteChannel::new(64);
    closed.close();
    assert!(matches!(
        WorkerRuntime::start(SecurityStatus::default(), &mut closed),
        Err(WorkerError::Channel(FrameError::Closed))
    ));
    let mut tiny = ByteChannel::new(3);
    assert!(matches!(
        WorkerRuntime::start(SecurityStatus::default(), &mut tiny),
        Err(WorkerError::Channel(FrameError::ShortWrite))
    ));
}
