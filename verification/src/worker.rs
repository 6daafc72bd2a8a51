//! The worker's side of the protocol.
//!
//! A worker checks its security status, sends its handshake, and then takes
//! jobs in turn: one framed job in, one framed result out. It never retries
//! a job, and it stops at the first failure of its channel.

use crate::framing::{
    framed_recv_blocking, framed_send_blocking, recv_post, send_post, ByteChannel, FrameError,
};
use crate::security::{status_bytes, ConfigError, SecurityStatus, WorkerHandshake};
use vstd::prelude::*;

verus! {

/// Where a worker stands between jobs.
#[derive(Debug, Clone, Copy, PartialEq, Eq, Structural)]
pub enum WorkerPhase {
    /// The handshake is sent and no job is in hand.
    Idle,
    /// A job was received and its result is owed.
    Working,
    /// The worker takes no more jobs.
    Stopped,
}

/// Why a worker did not do what it was asked.
#[derive(Debug, Clone, Copy, PartialEq, Eq, Structural)]
pub enum WorkerError {
    /// The security status does not allow the worker to start.
    Config(ConfigError),
    /// The channel to the host failed.
    Channel(FrameError),
    /// The call does not fit the worker's phase: a result with no job in
    /// hand, or a new job while a result is owed.
    OutOfTurn,
}

/// The channel is open and holds nothing: the host has ended it between
/// two frames.
pub open spec fn ended_cleanly(channel: ByteChannel) -> bool {
    !channel.is_closed() && channel.pending().len() == 0
}

/// The channel's part of what a sending call returned.
pub open spec fn sent_as<T>(res: Result<T, WorkerError>) -> Result<(), FrameError> {
    match res {
        Err(WorkerError::Channel(e)) => Err(e),
        _ => Ok(()),
    }
}

/// The channel's part of what `next_job` returned.
pub open spec fn received_as(res: Result<Option<Vec<u8>>, WorkerError>) -> Result<
    Vec<u8>,
    FrameError,
> {
    match res {
        Ok(Some(job)) => Ok(job),
        Err(WorkerError::Channel(e)) => Err(e),
        _ => Err(FrameError::Closed),
    }
}

/// `res` is a success, or a failure of the channel.
pub open spec fn ok_or_channel<T>(res: Result<T, WorkerError>) -> bool {
    match res {
        Ok(_) => true,
        Err(WorkerError::Channel(_)) => true,
        Err(_) => false,
    }
}

/// A worker that has started.
#[derive(Debug)]
pub struct WorkerRuntime {
    phase: WorkerPhase,
    status: SecurityStatus,
}

impl WorkerRuntime {
    /// The worker's phase.
    pub closed spec fn phase(&self) -> WorkerPhase {
        self.phase
    }

    /// The status that the worker reported in its handshake.
    pub closed spec fn status(&self) -> SecurityStatus {
        self.status
    }

    /// Starts a worker with the probed `status`.
    ///
    /// Where the status does not allow a start, nothing is written and the
    /// error says so. Otherwise the handshake is sent as one frame; the
    /// worker is idle if that went well, and the channel's error is handed
    /// on if it did not.
    pub fn start(status: SecurityStatus, to_host: &mut ByteChannel) -> (res: Result<
        WorkerRuntime,
        WorkerError,
    >)
        requires
            old(to_host).wf(),
        ensures
            final(to_host).wf(),
            !status.may_start() ==> res.is_err() && res.unwrap_err() == WorkerError::Config(
                ConfigError::SecureModeUnavailable,
            ) && *final(to_host) == *old(to_host),
            status.may_start() ==> ok_or_channel(res) && send_post(
                *old(to_host),
                *final(to_host),
                status_bytes(status),
                sent_as(res),
            ),
            res.is_ok() ==> res.unwrap().phase() == WorkerPhase::Idle && res.unwrap().status()
                == status,
    {
        match status.check_startup() {
            Err(e) => {
                return Err(WorkerError::Config(e));
            },
            Ok(()) => {},
        }
        let hello: Vec<u8> = WorkerHandshake::new(status).encode();
        match framed_send_blocking(to_host, hello.as_slice()) {
            Ok(()) => Ok(WorkerRuntime { phase: WorkerPhase::Idle, status }),
            Err(e) => Err(WorkerError::Channel(e)),
        }
    }

    /// The worker's phase.
    pub fn current_phase(&self) -> (phase: WorkerPhase)
        ensures
            phase == self.phase(),
    {
        self.phase
    }

    /// The status that the worker reported in its handshake.
    pub fn security_status(&self) -> (status: SecurityStatus)
        ensures
            status == self.status(),
    {
        self.status
    }

    /// Takes the next job from the host.
    ///
    /// Only an idle worker takes a job. An open channel with nothing in it
    /// has ended between two frames: the worker stops and there is no job.
    /// Otherwise one frame is read: its payload is the job and the worker
    /// is working, or the read failed and the worker stops.
    pub fn next_job(&mut self, from_host: &mut ByteChannel) -> (res: Result<
        Option<Vec<u8>>,
        WorkerError,
    >)
        requires
            old(from_host).wf(),
        ensures
            final(from_host).wf(),
            final(self).status() == old(self).status(),
            old(self).phase() != WorkerPhase::Idle ==> ({
                &&& res.is_err() && res.unwrap_err() == WorkerError::OutOfTurn
                &&& *final(self) == *old(self)
                &&& *final(from_host) == *old(from_host)
            }),
            old(self).phase() == WorkerPhase::Idle && ended_cleanly(*old(from_host)) ==> ({
                &&& res.is_ok() && res.unwrap().is_none()
                &&& final(self).phase() == WorkerPhase::Stopped
                &&& *final(from_host) == *old(from_host)
            }),
            old(self).phase() == WorkerPhase::Idle && !ended_cleanly(*old(from_host)) ==> ({
                &&& ok_or_channel(res)
                &&& recv_post(*old(from_host), *final(from_host), received_as(res))
                &&& res.is_ok() ==> res.unwrap().is_some()
                &&& final(self).phase() == if res.is_ok() {
                    WorkerPhase::Working
                } else {
                    WorkerPhase::Stopped
                }
            }),
    {
        match self.phase {
            WorkerPhase::Idle => {},
            _ => {
                return Err(WorkerError::OutOfTurn);
            },
        }
        if !from_host.closed() && from_host.pending_len() == 0 {
            self.phase = WorkerPhase::Stopped;
            return Ok(None);
        }
        match framed_recv_blocking(from_host) {
            Ok(job) => {
                self.phase = WorkerPhase::Working;
                Ok(Some(job))
            },
            Err(e) => {
                self.phase = WorkerPhase::Stopped;
                Err(WorkerError::Channel(e))
            },
        }
    }

    /// Sends the result of the job in hand, as one frame.
    ///
    /// Only a working worker owes a result. After the frame is sent the
    /// worker is idle again; where the send fails it stops.
    pub fn send_result(&mut self, to_host: &mut ByteChannel, result: &[u8]) -> (res: Result<
        (),
        WorkerError,
    >)
        requires
            old(to_host).wf(),
        ensures
            final(to_host).wf(),
            final(self).status() == old(self).status(),
            old(self).phase() != WorkerPhase::Working ==> ({
                &&& res == Err::<(), WorkerError>(WorkerError::OutOfTurn)
                &&& *final(self) == *old(self)
                &&& *final(to_host) == *old(to_host)
            }),
            old(self).phase() == WorkerPhase::Working ==> ({
                &&& ok_or_channel(res)
                &&& send_post(*old(to_host), *final(to_host), result@, sent_as(res))
                &&& final(self).phase() == if res.is_ok() {
                    WorkerPhase::Idle
                } else {
                    WorkerPhase::Stopped
                }
            }),
    {
        match self.phase {
            WorkerPhase::Working => {},
            _ => {
                return Err(WorkerError::OutOfTurn);
            },
        }
        match framed_send_blocking(to_host, result) {
            Ok(()) => {
                self.phase = WorkerPhase::Idle;
                Ok(())
            },
            Err(e) => {
                self.phase = WorkerPhase::Stopped;
                Err(WorkerError::Channel(e))
            },
        }
    }
}

} // verus!
