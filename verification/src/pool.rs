//! The rules by which the host assigns jobs to workers.
//!
//! Everything here is a statement about values: the workers of both pools,
//! the jobs that wait, and what each event does to them. The host follows
//! these rules step by step.

use crate::handshake::is_handshake_frame;
use crate::job::{bytes_response, JobKind};
use crate::security::{bytes_status, SecurityStatus};
use vstd::prelude::*;

verus! {

/// The life of a worker, from the moment its process is asked for.
#[derive(Debug, Clone, Copy, PartialEq, Eq, Structural)]
pub enum WorkerState {
    /// The process has been asked for and has not come up yet.
    Spawning,
    /// The process is up; its handshake is awaited.
    Handshaking,
    /// The handshake is done and no job is assigned.
    Idle,
    /// One job is assigned and its response is awaited.
    Busy,
    /// The worker is gone and has left its pool.
    Dead,
}

/// A job in the host's hands.
#[derive(Debug)]
pub struct Job {
    /// The number that the host gave the job when it was submitted.
    pub id: u64,
    /// What the caller asked for.
    pub goal: JobKind,
    /// What the job needs next: an execute job whose artifact is missing
    /// is prepared first.
    pub stage: JobKind,
    /// Hash of the source bytes.
    pub code_hash: u64,
    /// The logical version that the job was submitted under.
    pub version: String,
    /// Whether only a worker with every security feature may answer it.
    pub secure_mode_required: bool,
    /// How many workers have failed on the job so far.
    pub failures: u32,
}

/// A worker in one of the two pools.
#[derive(Debug)]
pub struct Worker {
    /// The number that the host gave the worker when it asked for it.
    pub id: u64,
    /// The pool that the worker belongs to.
    pub kind: JobKind,
    /// Where the worker stands.
    pub state: WorkerState,
    /// The status from the worker's handshake; meaningful once the worker
    /// has been idle.
    pub status: SecurityStatus,
    /// The job that a busy worker holds.
    pub job: Option<Job>,
}

/// The host's settings.
#[derive(Debug, Clone, Copy, PartialEq, Eq, Structural)]
pub struct HostConfig {
    /// The most prepare workers alive at once.
    pub prepare_workers: usize,
    /// The most execute workers alive at once.
    pub execute_workers: usize,
    /// How many worker failures a job survives; the next one fails the job.
    pub retry_bound: u32,
    /// How long a prepare worker may take over one job, in milliseconds.
    pub prepare_timeout_ms: u64,
    /// How long an execute worker may take over one job, in milliseconds.
    pub execute_timeout_ms: u64,
}

/// Why the host gave a job up.
#[derive(Debug, Clone, Copy, PartialEq, Eq, Structural)]
pub enum HostError {
    /// Too many workers in a row failed on the job.
    RetriesExhausted,
    /// The caller withdrew the job.
    Cancelled,
    /// The worker for the job refused to start: Secure Validator Mode is
    /// asked for and the system lacks a feature that it needs.
    SecureModeUnavailable,
}

/// How a job ended in a worker's hands.
#[derive(Debug, Clone, Copy, PartialEq, Eq, Structural)]
pub enum Outcome {
    /// The source was compiled; the artifact is recorded.
    Prepared,
    /// The source did not compile.
    PrepareFailed,
    /// The artifact ran to its end.
    Executed,
    /// The artifact trapped or gave no valid output.
    ExecutionFailed,
}

/// What the host asks of the code around it.
#[derive(Debug, Clone, Copy, PartialEq, Eq, Structural)]
pub enum Action {
    /// Start a worker process for the pool `kind`, to be known as `worker`.
    Spawn { worker: u64, kind: JobKind },
    /// Send the job to the worker and arm a timer of `timeout_ms`.
    Send { worker: u64, job: u64, stage: JobKind, timeout_ms: u64 },
    /// Terminate the worker's process.
    Kill { worker: u64 },
    /// Hand the response that was just read to the job's caller.
    Deliver { job: u64, outcome: Outcome },
    /// Tell the job's caller that the job failed.
    Fail { job: u64, error: HostError },
}

/// The workers and the waiting jobs.
pub struct Pool {
    /// The live workers of both pools, oldest first.
    pub workers: Seq<Worker>,
    /// The jobs that wait for a worker, in the order they are served.
    pub queue: Seq<Job>,
    /// The number that the next worker gets.
    pub next_worker: u64,
}

/// A pool after an event, and what the event asks for.
pub struct Step {
    pub pool: Pool,
    pub actions: Seq<Action>,
}

/// The most workers of a kind alive at once.
pub open spec fn ceiling(config: HostConfig, kind: JobKind) -> nat {
    match kind {
        JobKind::Prepare => config.prepare_workers as nat,
        JobKind::Execute => config.execute_workers as nat,
    }
}

/// The time a worker of a kind may take over one job.
pub open spec fn timeout_of(config: HostConfig, kind: JobKind) -> u64 {
    match kind {
        JobKind::Prepare => config.prepare_timeout_ms,
        JobKind::Execute => config.execute_timeout_ms,
    }
}

/// Number of workers of a kind.
pub open spec fn count_kind(workers: Seq<Worker>, kind: JobKind) -> nat
    decreases workers.len(),
{
    if workers.len() == 0 {
        0
    } else {
        count_kind(workers.drop_last(), kind) + if workers.last().kind == kind {
            1nat
        } else {
            0nat
        }
    }
}

/// Index of the first idle worker of a kind at or after `from`, or the
/// number of workers.
pub open spec fn first_idle(workers: Seq<Worker>, kind: JobKind, from: int) -> int
    decreases workers.len() - from,
{
    if from < 0 || from >= workers.len() {
        workers.len() as int
    } else if workers[from].kind == kind && workers[from].state == WorkerState::Idle {
        from
    } else {
        first_idle(workers, kind, from + 1)
    }
}

/// Index of the first waiting job at a stage at or after `from`, or the
/// number of waiting jobs.
pub open spec fn first_queued(queue: Seq<Job>, stage: JobKind, from: int) -> int
    decreases queue.len() - from,
{
    if from < 0 || from >= queue.len() {
        queue.len() as int
    } else if queue[from].stage == stage {
        from
    } else {
        first_queued(queue, stage, from + 1)
    }
}

/// Index of the first worker with the given number at or after `from`, or
/// the number of workers.
pub open spec fn find_worker(workers: Seq<Worker>, id: u64, from: int) -> int
    decreases workers.len() - from,
{
    if from < 0 || from >= workers.len() {
        workers.len() as int
    } else if workers[from].id == id {
        from
    } else {
        find_worker(workers, id, from + 1)
    }
}

/// Index of the first waiting job with the given number at or after
/// `from`, or the number of waiting jobs.
pub open spec fn find_queued(queue: Seq<Job>, id: u64, from: int) -> int
    decreases queue.len() - from,
{
    if from < 0 || from >= queue.len() {
        queue.len() as int
    } else if queue[from].id == id {
        from
    } else {
        find_queued(queue, id, from + 1)
    }
}

/// Index of the first worker that holds the job with the given number at
/// or after `from`, or the number of workers.
pub open spec fn find_holder(workers: Seq<Worker>, job: u64, from: int) -> int
    decreases workers.len() - from,
{
    if from < 0 || from >= workers.len() {
        workers.len() as int
    } else if workers[from].job.is_some() && workers[from].job.unwrap().id == job {
        from
    } else {
        find_holder(workers, job, from + 1)
    }
}

/// The worker `w` with a job in hand.
pub open spec fn busy_with(w: Worker, job: Job) -> Worker {
    Worker { state: WorkerState::Busy, job: Some(job), ..w }
}

/// The worker `w` with no job, after a handshake that reported `status`.
pub open spec fn idle_with(w: Worker, status: SecurityStatus) -> Worker {
    Worker { state: WorkerState::Idle, status, job: None, ..w }
}

/// A worker that has just been asked for.
pub open spec fn fresh_worker(id: u64, kind: JobKind) -> Worker {
    Worker {
        id,
        kind,
        state: WorkerState::Spawning,
        status: SecurityStatus {
            secure_validator_mode: false,
            can_enable_landlock: false,
            can_enable_seccomp: false,
            can_unshare_user_namespace_and_change_root: false,
        },
        job: None,
    }
}

/// The action that sends `job` to `worker`.
pub open spec fn send_to(config: HostConfig, worker: u64, job: Job) -> Action {
    Action::Send { worker, job: job.id, stage: job.stage, timeout_ms: timeout_of(config, job.stage) }
}

/// Whether one more worker of a kind may be asked for.
pub open spec fn may_spawn(pool: Pool, config: HostConfig, kind: JobKind) -> bool {
    count_kind(pool.workers, kind) < ceiling(config, kind) && pool.next_worker < u64::MAX
}

/// Finds a place for a job. The first idle worker of the job's stage takes
/// it at once. With no such worker the job waits at the end of the queue,
/// and a new worker is asked for if the pool is below its ceiling.
pub open spec fn place(pool: Pool, config: HostConfig, job: Job) -> Step {
    let i = first_idle(pool.workers, job.stage, 0);
    if i < pool.workers.len() {
        Step {
            pool: Pool { workers: pool.workers.update(i, busy_with(pool.workers[i], job)), ..pool },
            actions: seq![send_to(config, pool.workers[i].id, job)],
        }
    } else if may_spawn(pool, config, job.stage) {
        Step {
            pool: Pool {
                workers: pool.workers.push(fresh_worker(pool.next_worker, job.stage)),
                queue: pool.queue.push(job),
                next_worker: (pool.next_worker + 1) as u64,
            },
            actions: seq![Action::Spawn { worker: pool.next_worker, kind: job.stage }],
        }
    } else {
        Step { pool: Pool { queue: pool.queue.push(job), ..pool }, actions: Seq::empty() }
    }
}

/// Gives the idle worker at `idx` the first waiting job of its kind, if
/// there is one.
pub open spec fn feed(pool: Pool, config: HostConfig, idx: int) -> Step {
    let w = pool.workers[idx];
    let q = first_queued(pool.queue, w.kind, 0);
    if q < pool.queue.len() {
        Step {
            pool: Pool {
                workers: pool.workers.update(idx, busy_with(w, pool.queue[q])),
                queue: pool.queue.remove(q),
                ..pool
            },
            actions: seq![send_to(config, w.id, pool.queue[q])],
        }
    } else {
        Step { pool, actions: Seq::empty() }
    }
}

/// Asks for one more worker of a kind if a job of that kind waits and the
/// pool is below its ceiling.
pub open spec fn replenish(pool: Pool, config: HostConfig, kind: JobKind) -> Step {
    if first_queued(pool.queue, kind, 0) < pool.queue.len() && may_spawn(pool, config, kind) {
        Step {
            pool: Pool {
                workers: pool.workers.push(fresh_worker(pool.next_worker, kind)),
                next_worker: (pool.next_worker + 1) as u64,
                ..pool
            },
            actions: seq![Action::Spawn { worker: pool.next_worker, kind }],
        }
    } else {
        Step { pool, actions: Seq::empty() }
    }
}

/// Counts one more failed worker against a job. A job that has used up its
/// retries fails, and the jobs that wait behind it get a new worker if they
/// need one. Any other job is placed again, with the failure recorded.
pub open spec fn charge(pool: Pool, config: HostConfig, job: Job) -> Step {
    if job.failures >= config.retry_bound {
        let then = replenish(pool, config, job.stage);
        Step {
            pool: then.pool,
            actions: seq![Action::Fail { job: job.id, error: HostError::RetriesExhausted }]
                + then.actions,
        }
    } else {
        place(pool, config, Job { failures: (job.failures + 1) as u32, ..job })
    }
}

/// The job that the loss of the worker at `idx` is counted against: the
/// job it holds, or else the first waiting job of its kind.
pub open spec fn victim_of(pool: Pool, idx: int) -> Option<Job> {
    let w = pool.workers[idx];
    let q = first_queued(pool.queue, w.kind, 0);
    if w.job.is_some() {
        w.job
    } else if q < pool.queue.len() {
        Some(pool.queue[q])
    } else {
        None
    }
}

/// The pool without the worker at `idx`, and without the waiting job that
/// its loss is counted against.
pub open spec fn without_worker(pool: Pool, idx: int) -> Pool {
    let w = pool.workers[idx];
    let q = first_queued(pool.queue, w.kind, 0);
    Pool {
        workers: pool.workers.remove(idx),
        queue: if w.job.is_none() && q < pool.queue.len() {
            pool.queue.remove(q)
        } else {
            pool.queue
        },
        ..pool
    }
}

/// The worker at `idx` is lost. It leaves its pool, and is killed first if
/// `kill` says so. The loss is counted against its victim, if it has one.
pub open spec fn lose_worker(pool: Pool, config: HostConfig, idx: int, kill: bool) -> Step {
    let w = pool.workers[idx];
    let first = if kill {
        seq![Action::Kill { worker: w.id }]
    } else {
        Seq::empty()
    };
    match victim_of(pool, idx) {
        None => Step { pool: without_worker(pool, idx), actions: first },
        Some(job) => {
            let then = charge(without_worker(pool, idx), config, job);
            Step { pool: then.pool, actions: first + then.actions }
        },
    }
}

/// The worker with the given number has come up: it now owes its
/// handshake. Nothing happens for a number that is not spawning.
pub open spec fn after_spawned(pool: Pool, id: u64) -> Pool {
    let idx = find_worker(pool.workers, id, 0);
    if idx < pool.workers.len() && pool.workers[idx].state == WorkerState::Spawning {
        Pool {
            workers: pool.workers.update(
                idx,
                Worker { state: WorkerState::Handshaking, ..pool.workers[idx] },
            ),
            ..pool
        }
    } else {
        pool
    }
}

/// Whether a payload is a handshake that lets its worker into the pool.
pub open spec fn admits(payload: Seq<u8>) -> bool {
    is_handshake_frame(payload) && bytes_status(payload).unwrap().may_start()
}

/// Whether the host takes a payload as the response to the job that the
/// worker holds: the worker holds one, the payload is a well-formed
/// response, and the worker's status meets what the job requires.
pub open spec fn accepts(w: Worker, payload: Seq<u8>) -> bool {
    w.job.is_some() && bytes_response(payload).is_some() && w.status.meets(
        w.job.unwrap().secure_mode_required,
    )
}

/// How a job at a stage ended.
pub open spec fn outcome_of(stage: JobKind, done: bool) -> Outcome {
    match stage {
        JobKind::Prepare => if done {
            Outcome::Prepared
        } else {
            Outcome::PrepareFailed
        },
        JobKind::Execute => if done {
            Outcome::Executed
        } else {
            Outcome::ExecutionFailed
        },
    }
}

/// Whether a response moves its job on to the execute stage rather than
/// ending it: the job was being prepared for an execution, and it compiled.
pub open spec fn moves_on(job: Job, done: bool) -> bool {
    job.stage == JobKind::Prepare && job.goal == JobKind::Execute && done
}

/// The busy worker at `idx` has answered its job. The worker is idle again
/// and takes the next waiting job of its kind. The answered job is handed
/// to its caller, or moves on to the execute stage and is placed there.
pub open spec fn settle(pool: Pool, config: HostConfig, idx: int, done: bool) -> Step {
    let w = pool.workers[idx];
    let job = w.job.unwrap();
    let fed = feed(
        Pool { workers: pool.workers.update(idx, idle_with(w, w.status)), ..pool },
        config,
        idx,
    );
    if moves_on(job, done) {
        let then = place(fed.pool, config, Job { stage: JobKind::Execute, ..job });
        Step { pool: then.pool, actions: fed.actions + then.actions }
    } else {
        Step {
            pool: fed.pool,
            actions: seq![Action::Deliver { job: job.id, outcome: outcome_of(job.stage, done) }]
                + fed.actions,
        }
    }
}

/// One frame has been read from the worker with the given number.
///
/// A frame from a worker that is not in the pool is dropped. A worker that
/// owes its handshake is admitted by one, and takes the first waiting job
/// of its kind. A busy worker's frame is the response to its job, if the
/// host accepts it. Every other frame breaks the protocol: the worker is
/// killed and lost.
pub open spec fn after_frame(pool: Pool, config: HostConfig, id: u64, payload: Seq<u8>) -> Step {
    let idx = find_worker(pool.workers, id, 0);
    if idx >= pool.workers.len() {
        Step { pool, actions: Seq::empty() }
    } else {
        let w = pool.workers[idx];
        if w.state == WorkerState::Handshaking && admits(payload) {
            feed(
                Pool {
                    workers: pool.workers.update(idx, idle_with(w, bytes_status(payload).unwrap())),
                    ..pool
                },
                config,
                idx,
            )
        } else if w.state == WorkerState::Busy && accepts(w, payload) {
            settle(pool, config, idx, bytes_response(payload).unwrap().done)
        } else {
            lose_worker(pool, config, idx, true)
        }
    }
}

/// The job whose artifact a frame brings, if it brings one: the frame is
/// an accepted response of a busy worker to a job at the prepare stage,
/// and the source compiled. The artifact is the response's body.
pub open spec fn prepared_by(pool: Pool, id: u64, payload: Seq<u8>) -> Option<Job> {
    let idx = find_worker(pool.workers, id, 0);
    if idx < pool.workers.len() && pool.workers[idx].state == WorkerState::Busy && accepts(
        pool.workers[idx],
        payload,
    ) && pool.workers[idx].job.unwrap().stage == JobKind::Prepare && bytes_response(
        payload,
    ).unwrap().done {
        pool.workers[idx].job
    } else {
        None
    }
}

/// The timer of the worker with the given number has run out. A busy
/// worker is killed and lost; a timer that outlived its job does nothing.
pub open spec fn after_timeout(pool: Pool, config: HostConfig, id: u64) -> Step {
    let idx = find_worker(pool.workers, id, 0);
    if idx < pool.workers.len() && pool.workers[idx].state == WorkerState::Busy {
        lose_worker(pool, config, idx, true)
    } else {
        Step { pool, actions: Seq::empty() }
    }
}

/// The process of the worker with the given number has ended by itself.
/// The worker is lost; there is nothing left to kill.
pub open spec fn after_exit(pool: Pool, config: HostConfig, id: u64) -> Step {
    let idx = find_worker(pool.workers, id, 0);
    if idx < pool.workers.len() {
        lose_worker(pool, config, idx, false)
    } else {
        Step { pool, actions: Seq::empty() }
    }
}

/// The worker with the given number has refused to start, because the
/// system cannot give what Secure Validator Mode asks for. Another worker
/// would fare no better, so nothing is tried again: the worker leaves its
/// pool, and the first waiting job of its kind fails at once. The jobs
/// behind it get a worker of their own to learn the same. Only a worker
/// that has not been admitted yet can refuse to start; for any other, and
/// for a number that is in no pool, nothing happens.
pub open spec fn after_refusal(pool: Pool, config: HostConfig, id: u64) -> Step {
    let idx = find_worker(pool.workers, id, 0);
    if idx < pool.workers.len() && (pool.workers[idx].state == WorkerState::Spawning
        || pool.workers[idx].state == WorkerState::Handshaking) && pool.workers[idx].job.is_none() {
        match victim_of(pool, idx) {
            None => Step { pool: without_worker(pool, idx), actions: Seq::empty() },
            Some(job) => {
                let then = replenish(without_worker(pool, idx), config, job.stage);
                Step {
                    pool: then.pool,
                    actions: seq![
                        Action::Fail { job: job.id, error: HostError::SecureModeUnavailable },
                    ] + then.actions,
                }
            },
        }
    } else {
        Step { pool, actions: Seq::empty() }
    }
}

/// The caller withdraws a job. A waiting job just leaves the queue. A job
/// in a worker's hands can only be stopped with the worker: the worker is
/// killed and leaves its pool, and the jobs that wait behind it get a new
/// worker if they need one. A job that the host does not hold changes
/// nothing.
pub open spec fn after_cancel(pool: Pool, config: HostConfig, job: u64) -> Step {
    let q = find_queued(pool.queue, job, 0);
    let h = find_holder(pool.workers, job, 0);
    let failed = Action::Fail { job, error: HostError::Cancelled };
    if q < pool.queue.len() {
        Step { pool: Pool { queue: pool.queue.remove(q), ..pool }, actions: seq![failed] }
    } else if h < pool.workers.len() {
        let then = replenish(
            Pool { workers: pool.workers.remove(h), ..pool },
            config,
            pool.workers[h].kind,
        );
        Step {
            pool: then.pool,
            actions: seq![Action::Kill { worker: pool.workers[h].id }, failed] + then.actions,
        }
    } else {
        Step { pool, actions: Seq::empty() }
    }
}

/// The job that a submission makes. An execute job whose artifact is not
/// usable starts at the prepare stage; every other job starts at the stage
/// of its goal.
pub open spec fn new_job(
    id: u64,
    goal: JobKind,
    code_hash: u64,
    version: String,
    secure_mode_required: bool,
    usable: bool,
) -> Job {
    Job {
        id,
        goal,
        stage: if goal == JobKind::Execute && usable {
            JobKind::Execute
        } else {
            JobKind::Prepare
        },
        code_hash,
        version,
        secure_mode_required,
        failures: 0,
    }
}

/// A job has been submitted; `usable` says whether the artifact for its
/// source can be used under its version. A prepare job whose artifact is
/// usable is answered at once and touches no worker. Every other job is
/// placed.
pub open spec fn after_submit(pool: Pool, config: HostConfig, job: Job, usable: bool) -> Step {
    if job.goal == JobKind::Prepare && usable {
        Step { pool, actions: seq![Action::Deliver { job: job.id, outcome: Outcome::Prepared }] }
    } else {
        place(pool, config, job)
    }
}

/// Where the worker with the given number stands in a pool.
pub open spec fn worker_state_in(pool: Pool, worker: u64) -> Option<WorkerState> {
    let idx = find_worker(pool.workers, worker, 0);
    if idx < pool.workers.len() {
        Some(pool.workers[idx].state)
    } else if worker < pool.next_worker {
        Some(WorkerState::Dead)
    } else {
        None
    }
}

/// The status of an admitted worker in a pool.
pub open spec fn worker_status_in(pool: Pool, worker: u64) -> Option<SecurityStatus> {
    let idx = find_worker(pool.workers, worker, 0);
    if idx < pool.workers.len() && (pool.workers[idx].state == WorkerState::Idle
        || pool.workers[idx].state == WorkerState::Busy) {
        Some(pool.workers[idx].status)
    } else {
        None
    }
}

/// The number of the worker that holds a job in a pool.
pub open spec fn holder_in(pool: Pool, job: u64) -> Option<u64> {
    let idx = find_holder(pool.workers, job, 0);
    if idx < pool.workers.len() {
        Some(pool.workers[idx].id)
    } else {
        None
    }
}

} // verus!
