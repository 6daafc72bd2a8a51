//! The host's side of the worker handshake.
//!
//! A fresh channel awaits exactly one handshake frame. Once it has come the
//! channel is ready and every later frame answers a job. A frame of any
//! other shape on a channel that still awaits its handshake is a protocol
//! violation, and the channel is torn down.

use crate::security::{bytes_status, SecurityStatus, WorkerHandshake, STATUS_ENCODED_LEN};
use vstd::prelude::*;

verus! {

/// Where a channel stands in the handshake.
#[derive(Debug, Clone, Copy, PartialEq, Eq, Structural)]
pub enum HandshakeState {
    /// Nothing has been read from the worker yet.
    AwaitingHandshake,
    /// The handshake has been read; job responses may follow.
    Ready,
}

/// What a frame read from a worker means to the host.
#[derive(Debug, Clone, Copy, PartialEq, Eq, Structural)]
pub enum Received {
    /// The worker's handshake, with the status it reports.
    Handshake(SecurityStatus),
    /// The response to the job that the worker was given.
    JobResponse,
    /// A frame that the protocol does not allow at this point.
    Violation,
}

/// Whether a payload has the shape of a handshake: the four flag bytes of a
/// security status and nothing else.
pub open spec fn is_handshake_frame(payload: Seq<u8>) -> bool {
    payload.len() == 4 && bytes_status(payload).is_some()
}

/// What `payload` means on a channel in `state`.
pub open spec fn meaning(state: HandshakeState, payload: Seq<u8>) -> Received {
    match state {
        HandshakeState::AwaitingHandshake => if is_handshake_frame(payload) {
            Received::Handshake(bytes_status(payload).unwrap())
        } else {
            Received::Violation
        },
        HandshakeState::Ready => Received::JobResponse,
    }
}

/// The channel's state after `payload`, or `None` where the channel is torn
/// down.
pub open spec fn state_after(state: HandshakeState, payload: Seq<u8>) -> Option<HandshakeState> {
    match meaning(state, payload) {
        Received::Violation => None,
        _ => Some(HandshakeState::Ready),
    }
}

/// Whether `payload` has the shape of a handshake.
pub fn looks_like_handshake(payload: &[u8]) -> (yes: bool)
    ensures
        yes == is_handshake_frame(payload@),
{
    payload.len() == STATUS_ENCODED_LEN && WorkerHandshake::decode(payload).is_some()
}

/// Takes one frame read from a worker: says what it means in `state`, and
/// what state the channel is in afterwards (`None`: torn down).
pub fn on_frame(state: HandshakeState, payload: &[u8]) -> (res: (Option<HandshakeState>, Received))
    ensures
        res.0 == state_after(state, payload@),
        res.1 == meaning(state, payload@),
{
    match state {
        HandshakeState::Ready => (Some(HandshakeState::Ready), Received::JobResponse),
        HandshakeState::AwaitingHandshake => {
            if payload.len() != STATUS_ENCODED_LEN {
                return (None, Received::Violation);
            }
            match WorkerHandshake::decode(payload) {
                Some(handshake) => (
                    Some(HandshakeState::Ready),
                    Received::Handshake(handshake.security_status),
                ),
                None => (None, Received::Violation),
            }
        },
    }
}

/// Before the handshake no frame is ever taken for a job response, and a
/// frame that is no handshake tears the channel down.
pub proof fn lemma_no_response_before_handshake(payload: Seq<u8>)
    ensures
        meaning(HandshakeState::AwaitingHandshake, payload) != Received::JobResponse,
        !is_handshake_frame(payload) ==> state_after(HandshakeState::AwaitingHandshake, payload)
            == None::<HandshakeState>,
{
}

/// The handshake happens once: a channel that is ready stays ready, and no
/// frame on it is read as a handshake again.
pub proof fn lemma_handshake_happens_once(payload: Seq<u8>)
    ensures
        state_after(HandshakeState::Ready, payload) == Some(HandshakeState::Ready),
        meaning(HandshakeState::Ready, payload) == Received::JobResponse,
{
}

} // verus!
