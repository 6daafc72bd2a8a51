//! The host: the trusted side that owns the two worker pools.
//!
//! The host does no I/O of its own. Each of its methods takes one event,
//! moves the pools by the rules of [`crate::pool`], and returns what the
//! code around it is to do: spawn, send, kill, deliver or fail.

use crate::artifacts::ArtifactCache;
use crate::handshake::looks_like_handshake;
use crate::job::{JobKind, Response};
use crate::pool::{
    accepts, admits, after_cancel, after_exit, after_frame, after_refusal, after_spawned,
    after_submit,
    after_timeout, busy_with, charge, count_kind, feed, find_holder, find_queued, find_worker,
    first_idle, first_queued, fresh_worker, holder_in, idle_with, lose_worker, may_spawn, new_job,
    place, prepared_by, replenish, send_to, settle, timeout_of, worker_state_in, worker_status_in,
    Action, HostConfig, HostError, Job, Outcome, Pool, Worker, WorkerState,
};
use crate::pool_proofs::{
    lemma_cancel_keeps_order, lemma_exit_keeps_order, lemma_frame_keeps_order,
    lemma_refusal_keeps_order, lemma_spawned_keeps_order, lemma_submit_keeps_order, lemma_timeout_keeps_order, pool_ok,
};
use crate::security::SecurityStatus;
use vstd::prelude::*;

verus! {

/// The host's state.
#[derive(Debug)]
pub struct Host {
    config: HostConfig,
    workers: Vec<Worker>,
    queue: Vec<Job>,
    next_worker: u64,
    next_job: u64,
    cache: ArtifactCache,
}

impl Host {
    /// The workers and the waiting jobs.
    pub closed spec fn pool(&self) -> Pool {
        Pool { workers: self.workers@, queue: self.queue@, next_worker: self.next_worker }
    }

    /// The host's settings.
    pub closed spec fn settings(&self) -> HostConfig {
        self.config
    }

    /// The number that the next job gets.
    pub closed spec fn upcoming_job(&self) -> u64 {
        self.next_job
    }

    /// The compiled bytes that the host holds for a source hash under a
    /// version.
    pub closed spec fn artifact(&self, code_hash: u64, version: Seq<char>) -> Option<Seq<u8>> {
        self.cache.get(code_hash, version)
    }

    /// Whether an artifact for the hash can be used under `version`: one
    /// is held that was compiled under exactly that version.
    pub open spec fn usable(&self, code_hash: u64, version: Seq<char>) -> bool {
        self.artifact(code_hash, version).is_some()
    }

    /// The pools are in order (see [`pool_ok`]). A new host is, and every
    /// event leaves it so.
    pub open spec fn in_order(&self) -> bool {
        pool_ok(self.pool(), self.settings())
    }

    /// Settings, job numbers and artifacts are those of `other`.
    pub open spec fn same_books(&self, other: &Host) -> bool {
        &&& self.settings() == other.settings()
        &&& self.upcoming_job() == other.upcoming_job()
        &&& forall|h: u64, v: Seq<char>| self.artifact(h, v) == other.artifact(h, v)
    }

    /// Number of workers of a kind.
    fn count_of(&self, kind: JobKind) -> (n: usize)
        ensures
            n == count_kind(self.workers@, kind),
    {
        let mut n: usize = 0;
        let mut i: usize = 0;
        while i < self.workers.len()
            invariant
                i <= self.workers@.len(),
                n <= i,
                n == count_kind(self.workers@.subrange(0, i as int), kind),
            decreases self.workers@.len() - i,
        {
            assert(self.workers@.subrange(0, i + 1).drop_last() =~= self.workers@.subrange(
                0,
                i as int,
            ));
            if self.workers[i].kind == kind {
                n += 1;
            }
            i += 1;
        }
        assert(self.workers@.subrange(0, i as int) =~= self.workers@);
        n
    }

    /// Index of the first idle worker of a kind, or the number of workers.
    fn idle_index(&self, kind: JobKind) -> (i: usize)
        ensures
            i == first_idle(self.workers@, kind, 0),
            i <= self.workers@.len(),
    {
        let mut i: usize = 0;
        while i < self.workers.len()
            invariant
                i <= self.workers@.len(),
                first_idle(self.workers@, kind, i as int) == first_idle(self.workers@, kind, 0),
            decreases self.workers@.len() - i,
        {
            if self.workers[i].kind == kind && self.workers[i].state == WorkerState::Idle {
                return i;
            }
            i += 1;
        }
        i
    }

    /// Index of the first waiting job at a stage, or the number of them.
    fn queued_index(&self, stage: JobKind) -> (i: usize)
        ensures
            i == first_queued(self.queue@, stage, 0),
            i <= self.queue@.len(),
    {
        let mut i: usize = 0;
        while i < self.queue.len()
            invariant
                i <= self.queue@.len(),
                first_queued(self.queue@, stage, i as int) == first_queued(self.queue@, stage, 0),
            decreases self.queue@.len() - i,
        {
            if self.queue[i].stage == stage {
                return i;
            }
            i += 1;
        }
        i
    }

    /// Index of the worker with the given number, or the number of workers.
    fn worker_index(&self, id: u64) -> (i: usize)
        ensures
            i == find_worker(self.workers@, id, 0),
            i <= self.workers@.len(),
    {
        let mut i: usize = 0;
        while i < self.workers.len()
            invariant
                i <= self.workers@.len(),
                find_worker(self.workers@, id, i as int) == find_worker(self.workers@, id, 0),
            decreases self.workers@.len() - i,
        {
            if self.workers[i].id == id {
                return i;
            }
            i += 1;
        }
        i
    }

    /// Index of the waiting job with the given number, or the number of
    /// waiting jobs.
    fn waiting_index(&self, id: u64) -> (i: usize)
        ensures
            i == find_queued(self.queue@, id, 0),
            i <= self.queue@.len(),
    {
        let mut i: usize = 0;
        while i < self.queue.len()
            invariant
                i <= self.queue@.len(),
                find_queued(self.queue@, id, i as int) == find_queued(self.queue@, id, 0),
            decreases self.queue@.len() - i,
        {
            if self.queue[i].id == id {
                return i;
            }
            i += 1;
        }
        i
    }

    /// Index of the worker that holds the job with the given number, or the
    /// number of workers.
    fn holder_index(&self, job: u64) -> (i: usize)
        ensures
            i == find_holder(self.workers@, job, 0),
            i <= self.workers@.len(),
    {
        let mut i: usize = 0;
        while i < self.workers.len()
            invariant
                i <= self.workers@.len(),
                find_holder(self.workers@, job, i as int) == find_holder(self.workers@, job, 0),
            decreases self.workers@.len() - i,
        {
            let held: bool = match &self.workers[i].job {
                Some(j) => j.id == job,
                None => false,
            };
            if held {
                return i;
            }
            i += 1;
        }
        i
    }

    /// The time a worker of a kind may take over one job.
    fn timeout_for(&self, kind: JobKind) -> (ms: u64)
        ensures
            ms == timeout_of(self.config, kind),
    {
        match kind {
            JobKind::Prepare => self.config.prepare_timeout_ms,
            JobKind::Execute => self.config.execute_timeout_ms,
        }
    }

    /// Whether one more worker of a kind may be asked for.
    fn can_spawn(&self, kind: JobKind) -> (yes: bool)
        ensures
            yes == may_spawn(self.pool(), self.config, kind),
    {
        let limit: usize = match kind {
            JobKind::Prepare => self.config.prepare_workers,
            JobKind::Execute => self.config.execute_workers,
        };
        self.count_of(kind) < limit && self.next_worker < u64::MAX
    }

    /// Asks for one more worker of a kind.
    fn spawn(&mut self, kind: JobKind, actions: &mut Vec<Action>)
        requires
            may_spawn(old(self).pool(), old(self).settings(), kind),
        ensures
            final(self).same_books(old(self)),
            final(self).pool() == (Pool {
                workers: old(self).pool().workers.push(
                    fresh_worker(old(self).pool().next_worker, kind),
                ),
                next_worker: (old(self).pool().next_worker + 1) as u64,
                ..old(self).pool()
            }),
            final(actions)@ == old(actions)@.push(
                Action::Spawn { worker: old(self).pool().next_worker, kind },
            ),
    {
        let id: u64 = self.next_worker;
        self.workers.push(
            Worker {
                id,
                kind,
                state: WorkerState::Spawning,
                status: SecurityStatus::from_probes(false, false, false, false),
                job: None,
            },
        );
        self.next_worker = id + 1;
        actions.push(Action::Spawn { worker: id, kind });
    }

    /// Hands `job` to the worker at `idx`, which becomes busy.
    fn assign(&mut self, idx: usize, job: Job, actions: &mut Vec<Action>)
        requires
            idx < old(self).pool().workers.len(),
        ensures
            final(self).same_books(old(self)),
            final(self).pool() == (Pool {
                workers: old(self).pool().workers.update(
                    idx as int,
                    busy_with(old(self).pool().workers[idx as int], job),
                ),
                ..old(self).pool()
            }),
            final(actions)@ == old(actions)@.push(
                send_to(
                    old(self).settings(),
                    old(self).pool().workers[idx as int].id,
                    job,
                ),
            ),
    {
        let ghost before = self.workers@;
        let timeout_ms: u64 = self.timeout_for(job.stage);
        let mut w: Worker = self.workers.remove(idx);
        actions.push(Action::Send { worker: w.id, job: job.id, stage: job.stage, timeout_ms });
        w.state = WorkerState::Busy;
        w.job = Some(job);
        self.workers.insert(idx, w);
        assert(self.workers@ =~= before.update(
            idx as int,
            busy_with(before[idx as int], job),
        ));
    }

    /// Finds a place for a job.
    fn place(&mut self, job: Job, actions: &mut Vec<Action>)
        ensures
            final(self).same_books(old(self)),
            final(self).pool() == place(old(self).pool(), old(self).settings(), job).pool,
            final(actions)@ == old(actions)@ + place(
                old(self).pool(),
                old(self).settings(),
                job,
            ).actions,
    {
        let ghost step = place(self.pool(), self.settings(), job);
        let i: usize = self.idle_index(job.stage);
        if i < self.workers.len() {
            self.assign(i, job, actions);
        } else if self.can_spawn(job.stage) {
            let stage: JobKind = job.stage;
            self.queue.push(job);
            self.spawn(stage, actions);
        } else {
            self.queue.push(job);
        }
        assert(actions@ =~= old(actions)@ + step.actions);
    }

    /// Gives the idle worker at `idx` the first waiting job of its kind.
    fn feed(&mut self, idx: usize, actions: &mut Vec<Action>)
        requires
            idx < old(self).pool().workers.len(),
        ensures
            final(self).same_books(old(self)),
            final(self).pool() == feed(old(self).pool(), old(self).settings(), idx as int).pool,
            final(actions)@ == old(actions)@ + feed(
                old(self).pool(),
                old(self).settings(),
                idx as int,
            ).actions,
    {
        let ghost step = feed(self.pool(), self.settings(), idx as int);
        let q: usize = self.queued_index(self.workers[idx].kind);
        if q < self.queue.len() {
            let job: Job = self.queue.remove(q);
            self.assign(idx, job, actions);
        }
        assert(actions@ =~= old(actions)@ + step.actions);
    }

    /// Asks for one more worker of a kind if a job of that kind waits.
    fn replenish(&mut self, kind: JobKind, actions: &mut Vec<Action>)
        ensures
            final(self).same_books(old(self)),
            final(self).pool() == replenish(old(self).pool(), old(self).settings(), kind).pool,
            final(actions)@ == old(actions)@ + replenish(
                old(self).pool(),
                old(self).settings(),
                kind,
            ).actions,
    {
        let ghost step = replenish(self.pool(), self.settings(), kind);
        if self.queued_index(kind) < self.queue.len() && self.can_spawn(kind) {
            self.spawn(kind, actions);
        }
        assert(actions@ =~= old(actions)@ + step.actions);
    }

    /// Counts one more failed worker against a job.
    fn charge(&mut self, job: Job, actions: &mut Vec<Action>)
        ensures
            final(self).same_books(old(self)),
            final(self).pool() == charge(old(self).pool(), old(self).settings(), job).pool,
            final(actions)@ == old(actions)@ + charge(
                old(self).pool(),
                old(self).settings(),
                job,
            ).actions,
    {
        let ghost step = charge(self.pool(), self.settings(), job);
        if job.failures >= self.config.retry_bound {
            actions.push(Action::Fail { job: job.id, error: HostError::RetriesExhausted });
            self.replenish(job.stage, actions);
        } else {
            let mut again: Job = job;
            again.failures = again.failures + 1;
            self.place(again, actions);
        }
        assert(actions@ =~= old(actions)@ + step.actions);
    }

    /// The worker at `idx` is lost.
    fn lose_worker(&mut self, idx: usize, kill: bool, actions: &mut Vec<Action>)
        requires
            idx < old(self).pool().workers.len(),
        ensures
            final(self).same_books(old(self)),
            final(self).pool() == lose_worker(
                old(self).pool(),
                old(self).settings(),
                idx as int,
                kill,
            ).pool,
            final(actions)@ == old(actions)@ + lose_worker(
                old(self).pool(),
                old(self).settings(),
                idx as int,
                kill,
            ).actions,
    {
        let ghost step = lose_worker(self.pool(), self.settings(), idx as int, kill);
        let w: Worker = self.workers.remove(idx);
        if kill {
            actions.push(Action::Kill { worker: w.id });
        }
        let Worker { id: _, kind, state: _, status: _, job } = w;
        match job {
            Some(job) => {
                self.charge(job, actions);
            },
            None => {
                let q: usize = self.queued_index(kind);
                if q < self.queue.len() {
                    let job: Job = self.queue.remove(q);
                    self.charge(job, actions);
                }
            },
        }
        assert(actions@ =~= old(actions)@ + step.actions);
    }

    /// The busy worker at `idx` has answered its job.
    fn settle(&mut self, idx: usize, done: bool, actions: &mut Vec<Action>)
        requires
            idx < old(self).pool().workers.len(),
            old(self).pool().workers[idx as int].job.is_some(),
        ensures
            final(self).same_books(old(self)),
            final(self).pool() == settle(
                old(self).pool(),
                old(self).settings(),
                idx as int,
                done,
            ).pool,
            final(actions)@ == old(actions)@ + settle(
                old(self).pool(),
                old(self).settings(),
                idx as int,
                done,
            ).actions,
    {
        let ghost step = settle(self.pool(), self.settings(), idx as int, done);
        let ghost before = self.workers@;
        let w: Worker = self.workers.remove(idx);
        let Worker { id, kind, state: _, status, job } = w;
        self.workers.insert(idx, Worker { id, kind, state: WorkerState::Idle, status, job: None });
        assert(self.workers@ =~= before.update(
            idx as int,
            idle_with(before[idx as int], before[idx as int].status),
        ));
        match job {
            Some(job) => {
                let moves_on: bool = job.stage == JobKind::Prepare && job.goal == JobKind::Execute
                    && done;
                if moves_on {
                    self.feed(idx, actions);
                    let mut next: Job = job;
                    next.stage = JobKind::Execute;
                    self.place(next, actions);
                } else {
                    let outcome: Outcome = match job.stage {
                        JobKind::Prepare => if done {
                            Outcome::Prepared
                        } else {
                            Outcome::PrepareFailed
                        },
                        JobKind::Execute => if done {
                            Outcome::Executed
                        } else {
                            Outcome::ExecutionFailed
                        },
                    };
                    actions.push(Action::Deliver { job: job.id, outcome });
                    self.feed(idx, actions);
                }
            },
            None => {},
        }
        assert(actions@ =~= old(actions)@ + step.actions);
    }

    /// A host with the given settings, no workers, no jobs and no artifacts.
    pub fn new(config: HostConfig) -> (host: Host)
        ensures
            host.settings() == config,
            host.upcoming_job() == 0,
            host.pool() == (Pool {
                workers: Seq::<Worker>::empty(),
                queue: Seq::<Job>::empty(),
                next_worker: 0,
            }),
            forall|h: u64, v: Seq<char>| host.artifact(h, v).is_none(),
            host.in_order(),
    {
        Host {
            config,
            workers: Vec::new(),
            queue: Vec::new(),
            next_worker: 0,
            next_job: 0,
            cache: ArtifactCache::new(),
        }
    }

    /// The worker with the given number has come up.
    pub fn on_spawned(&mut self, worker: u64)
        ensures
            final(self).same_books(old(self)),
            final(self).pool() == after_spawned(old(self).pool(), worker),
            old(self).in_order() ==> final(self).in_order(),
    {
        proof {
            if self.in_order() {
                lemma_spawned_keeps_order(self.pool(), self.settings(), worker);
            }
        }
        let idx: usize = self.worker_index(worker);
        if idx < self.workers.len() && self.workers[idx].state == WorkerState::Spawning {
            let ghost before = self.workers@;
            let mut w: Worker = self.workers.remove(idx);
            w.state = WorkerState::Handshaking;
            self.workers.insert(idx, w);
            assert(self.workers@ =~= before.update(
                idx as int,
                Worker { state: WorkerState::Handshaking, ..before[idx as int] },
            ));
        }
    }

    /// The timer of the worker with the given number has run out.
    pub fn on_timeout(&mut self, worker: u64) -> (actions: Vec<Action>)
        ensures
            final(self).same_books(old(self)),
            final(self).pool() == after_timeout(old(self).pool(), old(self).settings(), worker).pool,
            actions@ == after_timeout(old(self).pool(), old(self).settings(), worker).actions,
            old(self).in_order() ==> final(self).in_order(),
    {
        proof {
            if self.in_order() {
                lemma_timeout_keeps_order(self.pool(), self.settings(), worker);
            }
        }
        let mut actions: Vec<Action> = Vec::new();
        let idx: usize = self.worker_index(worker);
        if idx < self.workers.len() && self.workers[idx].state == WorkerState::Busy {
            self.lose_worker(idx, true, &mut actions);
        }
        assert(actions@ =~= after_timeout(old(self).pool(), old(self).settings(), worker).actions);
        actions
    }

    /// The process of the worker with the given number has ended by itself.
    pub fn on_exit(&mut self, worker: u64) -> (actions: Vec<Action>)
        ensures
            final(self).same_books(old(self)),
            final(self).pool() == after_exit(old(self).pool(), old(self).settings(), worker).pool,
            actions@ == after_exit(old(self).pool(), old(self).settings(), worker).actions,
            old(self).in_order() ==> final(self).in_order(),
    {
        proof {
            if self.in_order() {
                lemma_exit_keeps_order(self.pool(), self.settings(), worker);
            }
        }
        let mut actions: Vec<Action> = Vec::new();
        let idx: usize = self.worker_index(worker);
        if idx < self.workers.len() {
            self.lose_worker(idx, false, &mut actions);
        }
        assert(actions@ =~= after_exit(old(self).pool(), old(self).settings(), worker).actions);
        actions
    }

    /// The worker with the given number has refused to start under Secure
    /// Validator Mode.
    pub fn on_startup_refused(&mut self, worker: u64) -> (actions: Vec<Action>)
        ensures
            final(self).same_books(old(self)),
            final(self).pool() == after_refusal(old(self).pool(), old(self).settings(), worker).pool,
            actions@ == after_refusal(old(self).pool(), old(self).settings(), worker).actions,
            old(self).in_order() ==> final(self).in_order(),
    {
        proof {
            if self.in_order() {
                lemma_refusal_keeps_order(self.pool(), self.settings(), worker);
            }
        }
        let mut actions: Vec<Action> = Vec::new();
        let idx: usize = self.worker_index(worker);
        if idx < self.workers.len() && (self.workers[idx].state == WorkerState::Spawning
            || self.workers[idx].state == WorkerState::Handshaking)
            && self.workers[idx].job.is_none() {
            let w: Worker = self.workers.remove(idx);
            let q: usize = self.queued_index(w.kind);
            if q < self.queue.len() {
                let job: Job = self.queue.remove(q);
                actions.push(
                    Action::Fail { job: job.id, error: HostError::SecureModeUnavailable },
                );
                self.replenish(job.stage, &mut actions);
            }
        }
        assert(actions@ =~= after_refusal(old(self).pool(), old(self).settings(), worker).actions);
        actions
    }

    /// The caller withdraws the job with the given number.
    pub fn cancel(&mut self, job: u64) -> (actions: Vec<Action>)
        ensures
            final(self).same_books(old(self)),
            final(self).pool() == after_cancel(old(self).pool(), old(self).settings(), job).pool,
            actions@ == after_cancel(old(self).pool(), old(self).settings(), job).actions,
            old(self).in_order() ==> final(self).in_order(),
    {
        proof {
            if self.in_order() {
                lemma_cancel_keeps_order(self.pool(), self.settings(), job);
            }
        }
        let mut actions: Vec<Action> = Vec::new();
        let q: usize = self.waiting_index(job);
        if q < self.queue.len() {
            let _ = self.queue.remove(q);
            actions.push(Action::Fail { job, error: HostError::Cancelled });
        } else {
            let h: usize = self.holder_index(job);
            if h < self.workers.len() {
                let w: Worker = self.workers.remove(h);
                actions.push(Action::Kill { worker: w.id });
                actions.push(Action::Fail { job, error: HostError::Cancelled });
                self.replenish(w.kind, &mut actions);
            }
        }
        assert(actions@ =~= after_cancel(old(self).pool(), old(self).settings(), job).actions);
        actions
    }

    /// Takes a job from a caller and gives it a number.
    ///
    /// `None` is returned, and nothing changes, only where the job numbers
    /// have run out. Otherwise the result is the job's number and what is
    /// to be done for it.
    pub fn submit(
        &mut self,
        goal: JobKind,
        code_hash: u64,
        version: String,
        secure_mode_required: bool,
    ) -> (res: Option<(u64, Vec<Action>)>)
        ensures
            final(self).settings() == old(self).settings(),
            forall|h: u64, v: Seq<char>| final(self).artifact(h, v) == old(self).artifact(h, v),
            old(self).upcoming_job() == u64::MAX ==> res.is_none() && final(self).pool() == old(
                self,
            ).pool() && final(self).upcoming_job() == old(self).upcoming_job(),
            old(self).upcoming_job() < u64::MAX ==> ({
                let job = new_job(
                    old(self).upcoming_job(),
                    goal,
                    code_hash,
                    version,
                    secure_mode_required,
                    old(self).usable(code_hash, version@),
                );
                let step = after_submit(
                    old(self).pool(),
                    old(self).settings(),
                    job,
                    old(self).usable(code_hash, version@),
                );
                &&& res.is_some()
                &&& res.unwrap().0 == old(self).upcoming_job()
                &&& res.unwrap().1@ == step.actions
                &&& final(self).pool() == step.pool
                &&& final(self).upcoming_job() == old(self).upcoming_job() + 1
            }),
            old(self).in_order() ==> final(self).in_order(),
    {
        proof {
            if self.in_order() && self.upcoming_job() < u64::MAX {
                let usable = self.usable(code_hash, version@);
                lemma_submit_keeps_order(
                    self.pool(),
                    self.settings(),
                    new_job(
                        self.upcoming_job(),
                        goal,
                        code_hash,
                        version,
                        secure_mode_required,
                        usable,
                    ),
                    usable,
                );
            }
        }
        if self.next_job == u64::MAX {
            return None;
        }
        let id: u64 = self.next_job;
        self.next_job = id + 1;
        let usable: bool = self.cache.contains(code_hash, version.as_str());
        let mut actions: Vec<Action> = Vec::new();
        if goal == JobKind::Prepare && usable {
            actions.push(Action::Deliver { job: id, outcome: Outcome::Prepared });
            return Some((id, actions));
        }
        let stage: JobKind = if goal == JobKind::Execute && usable {
            JobKind::Execute
        } else {
            JobKind::Prepare
        };
        let job = Job { id, goal, stage, code_hash, version, secure_mode_required, failures: 0 };
        self.place(job, &mut actions);
        assert(actions@ =~= place(old(self).pool(), old(self).settings(), job).actions);
        Some((id, actions))
    }

    /// One frame has been read from the worker with the given number.
    ///
    /// Where the frame brings the artifact of a prepared job, the artifact
    /// is recorded under the job's source hash and version; otherwise the
    /// artifacts stay as they are.
    pub fn on_frame(&mut self, worker: u64, payload: &[u8]) -> (actions: Vec<Action>)
        ensures
            final(self).settings() == old(self).settings(),
            final(self).upcoming_job() == old(self).upcoming_job(),
            final(self).pool() == after_frame(
                old(self).pool(),
                old(self).settings(),
                worker,
                payload@,
            ).pool,
            actions@ == after_frame(old(self).pool(), old(self).settings(), worker, payload@).actions,
            (match prepared_by(old(self).pool(), worker, payload@) {
                Some(job) => final(self).artifact(job.code_hash, job.version@) == Some(
                    payload@.skip(1),
                ) && forall|h: u64, v: Seq<char>|
                    !(h == job.code_hash && v == job.version@) ==> final(self).artifact(h, v)
                        == old(self).artifact(h, v),
                None => forall|h: u64, v: Seq<char>|
                    final(self).artifact(h, v) == old(self).artifact(h, v),
            }),
            old(self).in_order() ==> final(self).in_order(),
    {
        proof {
            if self.in_order() {
                lemma_frame_keeps_order(self.pool(), self.settings(), worker, payload@);
            }
        }
        let ghost step = after_frame(self.pool(), self.settings(), worker, payload@);
        let mut actions: Vec<Action> = Vec::new();
        let idx: usize = self.worker_index(worker);
        if idx >= self.workers.len() {
            return actions;
        }
        let state: WorkerState = self.workers[idx].state;
        let admitted: Option<SecurityStatus> = if state == WorkerState::Handshaking
            && looks_like_handshake(payload) {
            match SecurityStatus::decode(payload) {
                Some(status) => if status.check_startup().is_ok() {
                    Some(status)
                } else {
                    None
                },
                None => None,
            }
        } else {
            None
        };
        assert(admitted.is_some() == (state == WorkerState::Handshaking && admits(payload@)));
        match admitted {
            Some(status) => {
                let ghost before = self.workers@;
                let mut w: Worker = self.workers.remove(idx);
                w.state = WorkerState::Idle;
                w.status = status;
                w.job = None;
                self.workers.insert(idx, w);
                assert(self.workers@ =~= before.update(
                    idx as int,
                    idle_with(before[idx as int], status),
                ));
                self.feed(idx, &mut actions);
            },
            None => {
                let response: Option<Response> = if state == WorkerState::Busy {
                    Response::decode(payload)
                } else {
                    None
                };
                let allowed: bool = match &self.workers[idx].job {
                    Some(job) => self.workers[idx].status.satisfies(job.secure_mode_required),
                    None => false,
                };
                match response {
                    Some(response) if allowed => {
                        assert(accepts(self.workers@[idx as int], payload@));
                        let (done, body): (bool, Vec<u8>) = match response {
                            Response::Done(body) => (true, body),
                            Response::Failed(body) => (false, body),
                        };
                        let key: Option<(u64, String)> = match &self.workers[idx].job {
                            Some(job) => if done && job.stage == JobKind::Prepare {
                                Some((job.code_hash, job.version.clone()))
                            } else {
                                None
                            },
                            None => None,
                        };
                        match key {
                            Some((code_hash, version)) => {
                                self.cache.store(code_hash, version, body);
                            },
                            None => {},
                        }
                        self.settle(idx, done, &mut actions);
                    },
                    _ => {
                        self.lose_worker(idx, true, &mut actions);
                    },
                }
            },
        }
        assert(actions@ =~= step.actions);
        actions
    }

    /// The host's settings.
    pub fn config(&self) -> (config: HostConfig)
        ensures
            config == self.settings(),
    {
        self.config
    }

    /// Number of live workers of a kind.
    pub fn worker_count(&self, kind: JobKind) -> (n: usize)
        ensures
            n == count_kind(self.pool().workers, kind),
    {
        self.count_of(kind)
    }

    /// Number of jobs that wait for a worker.
    pub fn queue_len(&self) -> (n: usize)
        ensures
            n == self.pool().queue.len(),
    {
        self.queue.len()
    }

    /// Where the worker with the given number stands: its state while it is
    /// in a pool, `Dead` once it has left, and `None` for a number that no
    /// worker has had yet.
    pub fn worker_state(&self, worker: u64) -> (state: Option<WorkerState>)
        ensures
            state == worker_state_in(self.pool(), worker),
    {
        let idx: usize = self.worker_index(worker);
        if idx < self.workers.len() {
            Some(self.workers[idx].state)
        } else if worker < self.next_worker {
            Some(WorkerState::Dead)
        } else {
            None
        }
    }

    /// The status that the worker with the given number reported in its
    /// handshake, once it has been admitted and while it is in a pool.
    pub fn worker_status(&self, worker: u64) -> (status: Option<SecurityStatus>)
        ensures
            status == worker_status_in(self.pool(), worker),
    {
        let idx: usize = self.worker_index(worker);
        if idx < self.workers.len() && (self.workers[idx].state == WorkerState::Idle
            || self.workers[idx].state == WorkerState::Busy) {
            Some(self.workers[idx].status)
        } else {
            None
        }
    }

    /// The number of the worker that holds the job with the given number.
    pub fn holder_of(&self, job: u64) -> (worker: Option<u64>)
        ensures
            worker == holder_in(self.pool(), job),
    {
        let idx: usize = self.holder_index(job);
        if idx < self.workers.len() {
            Some(self.workers[idx].id)
        } else {
            None
        }
    }

    /// Drops every artifact that was compiled under another version than
    /// `current`. Pools and jobs stay as they are.
    pub fn drop_stale_artifacts(&mut self, current: &str)
        ensures
            final(self).pool() == old(self).pool(),
            final(self).settings() == old(self).settings(),
            final(self).upcoming_job() == old(self).upcoming_job(),
            forall|h: u64, v: Seq<char>|
                final(self).artifact(h, v) == if v == current@ {
                    old(self).artifact(h, v)
                } else {
                    None
                },
    {
        self.cache.prune(current);
    }

    /// The artifact for a source hash, where it is usable under `version`.
    pub fn artifact_for(&self, code_hash: u64, version: &str) -> (found: Option<&Vec<u8>>)
        ensures
            found.is_some() == self.usable(code_hash, version@),
            found.is_some() ==> found.unwrap()@ == self.artifact(code_hash, version@).unwrap(),
    {
        self.cache.lookup(code_hash, version)
    }
}

} // verus!
