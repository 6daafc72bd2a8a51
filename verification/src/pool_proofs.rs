//! What holds of the pools in every state, and what follows from the rules
//! about handshakes, retries and timeouts.

use crate::job::JobKind;
use crate::pool::{
    accepts, admits, after_cancel, after_exit, after_frame, after_refusal, after_spawned,
    after_submit,
    after_timeout, busy_with, ceiling, charge, count_kind, feed, find_holder, find_queued,
    find_worker, first_idle, first_queued, fresh_worker, idle_with, lose_worker, may_spawn,
    moves_on, place, replenish, settle, timeout_of, victim_of, without_worker, worker_state_in,
    Action, HostConfig, HostError, Job, Pool, Worker, WorkerState,
};
use crate::security::bytes_status;
use crate::job::bytes_response;
use vstd::prelude::*;

verus! {

/// A job has not failed more often than the retry bound allows.
pub open spec fn job_ok(job: Job, config: HostConfig) -> bool {
    job.failures <= config.retry_bound
}

/// A worker is alive, holds a job exactly while it is busy, and the job it
/// holds is at the stage of the worker's pool.
pub open spec fn worker_ok(w: Worker, config: HostConfig) -> bool {
    &&& w.state != WorkerState::Dead
    &&& (w.state == WorkerState::Busy <==> w.job.is_some())
    &&& w.job.is_some() ==> w.job.unwrap().stage == w.kind && job_ok(w.job.unwrap(), config)
}

/// No job waits while a worker that could take it is idle.
pub open spec fn nobody_idles(pool: Pool) -> bool {
    forall|i: int, j: int|
        0 <= i < pool.workers.len() && 0 <= j < pool.queue.len() && (
        #[trigger] pool.workers[i]).state == WorkerState::Idle ==> (#[trigger] pool.queue[j]).stage
            != pool.workers[i].kind
}

/// The pools are in order: every worker and every waiting job is; worker
/// numbers rise along the list and are all used up; neither pool is over
/// its ceiling; and no job waits while a worker that could take it is
/// idle.
pub open spec fn pool_ok(pool: Pool, config: HostConfig) -> bool {
    &&& nobody_idles(pool)
    &&& forall|i: int| 0 <= i < pool.workers.len() ==> worker_ok(#[trigger] pool.workers[i], config)
    &&& forall|i: int, j: int|
        0 <= i < j < pool.workers.len() ==> pool.workers[i].id < pool.workers[j].id
    &&& forall|i: int| 0 <= i < pool.workers.len() ==> (#[trigger] pool.workers[i]).id < pool.next_worker
    &&& forall|i: int| 0 <= i < pool.queue.len() ==> job_ok(#[trigger] pool.queue[i], config)
    &&& count_kind(pool.workers, JobKind::Prepare) <= ceiling(config, JobKind::Prepare)
    &&& count_kind(pool.workers, JobKind::Execute) <= ceiling(config, JobKind::Execute)
}

/// One more worker at the end counts for its own kind.
pub proof fn lemma_count_push(workers: Seq<Worker>, w: Worker, kind: JobKind)
    ensures
        count_kind(workers.push(w), kind) == count_kind(workers, kind) + if w.kind == kind {
            1nat
        } else {
            0nat
        },
{
    assert(workers.push(w).drop_last() =~= workers);
}

/// Replacing a worker by one of the same kind changes no count.
pub proof fn lemma_count_update(workers: Seq<Worker>, i: int, w: Worker, kind: JobKind)
    requires
        0 <= i < workers.len(),
        w.kind == workers[i].kind,
    ensures
        count_kind(workers.update(i, w), kind) == count_kind(workers, kind),
    decreases workers.len(),
{
    let updated = workers.update(i, w);
    if i == workers.len() - 1 {
        assert(updated.drop_last() =~= workers.drop_last());
    } else {
        assert(updated.drop_last() =~= workers.drop_last().update(i, w));
        lemma_count_update(workers.drop_last(), i, w, kind);
    }
}

/// Taking a worker out takes one off the count of its kind.
pub proof fn lemma_count_remove(workers: Seq<Worker>, i: int, kind: JobKind)
    requires
        0 <= i < workers.len(),
    ensures
        count_kind(workers.remove(i), kind) + (if workers[i].kind == kind {
            1nat
        } else {
            0nat
        }) == count_kind(workers, kind),
    decreases workers.len(),
{
    let removed = workers.remove(i);
    if i == workers.len() - 1 {
        assert(removed =~= workers.drop_last());
    } else {
        assert(removed.drop_last() =~= workers.drop_last().remove(i));
        assert(removed.last() == workers.last());
        lemma_count_remove(workers.drop_last(), i, kind);
    }
}

/// What the search for an idle worker finds is an idle worker of the
/// kind that was asked for, and where it finds nothing, no worker of that
/// kind is idle.
pub proof fn lemma_first_idle_found(workers: Seq<Worker>, kind: JobKind, from: int)
    requires
        0 <= from <= workers.len(),
    ensures
        from <= first_idle(workers, kind, from) <= workers.len(),
        first_idle(workers, kind, from) < workers.len() ==> ({
            let w = workers[first_idle(workers, kind, from)];
            w.kind == kind && w.state == WorkerState::Idle
        }),
        first_idle(workers, kind, from) == workers.len() ==> forall|k: int|
            from <= k < workers.len() ==> !((#[trigger] workers[k]).kind == kind
                && workers[k].state == WorkerState::Idle),
    decreases workers.len() - from,
{
    if from < workers.len() && !(workers[from].kind == kind && workers[from].state
        == WorkerState::Idle) {
        lemma_first_idle_found(workers, kind, from + 1);
    }
}

/// What the search for a waiting job finds is a job at the stage that
/// was asked for, and where it finds nothing, no job waits at that stage.
pub proof fn lemma_first_queued_found(queue: Seq<Job>, stage: JobKind, from: int)
    requires
        0 <= from <= queue.len(),
    ensures
        from <= first_queued(queue, stage, from) <= queue.len(),
        first_queued(queue, stage, from) < queue.len() ==> queue[first_queued(
            queue,
            stage,
            from,
        )].stage == stage,
        first_queued(queue, stage, from) == queue.len() ==> forall|k: int|
            from <= k < queue.len() ==> (#[trigger] queue[k]).stage != stage,
    decreases queue.len() - from,
{
    if from < queue.len() && queue[from].stage != stage {
        lemma_first_queued_found(queue, stage, from + 1);
    }
}

/// Placing a job that is in order keeps the pools in order.
pub proof fn lemma_place_keeps_order(pool: Pool, config: HostConfig, job: Job)
    requires
        pool_ok(pool, config),
        job_ok(job, config),
    ensures
        pool_ok(place(pool, config, job).pool, config),
{
    let after = place(pool, config, job).pool;
    let i = first_idle(pool.workers, job.stage, 0);
    lemma_first_idle_found(pool.workers, job.stage, 0);
    if i < pool.workers.len() {
        let w = busy_with(pool.workers[i], job);
        lemma_count_update(pool.workers, i, w, JobKind::Prepare);
        lemma_count_update(pool.workers, i, w, JobKind::Execute);
    } else if may_spawn(pool, config, job.stage) {
        let w = fresh_worker(pool.next_worker, job.stage);
        lemma_count_push(pool.workers, w, JobKind::Prepare);
        lemma_count_push(pool.workers, w, JobKind::Execute);
    }
}

/// A worker that becomes idle and is fed at once keeps the pools in
/// order: whether it was admitted by its handshake or has answered its
/// job, it takes the first waiting job of its kind, or none waits.
pub proof fn lemma_idle_and_fed_keeps_order(pool: Pool, config: HostConfig, idx: int, w: Worker)
    requires
        pool_ok(pool, config),
        0 <= idx < pool.workers.len(),
        w.id == pool.workers[idx].id,
        w.kind == pool.workers[idx].kind,
        w.state == WorkerState::Idle,
        w.job.is_none(),
    ensures
        pool_ok(
            feed(Pool { workers: pool.workers.update(idx, w), ..pool }, config, idx).pool,
            config,
        ),
{
    let freed = Pool { workers: pool.workers.update(idx, w), ..pool };
    let q = first_queued(pool.queue, w.kind, 0);
    lemma_first_queued_found(pool.queue, w.kind, 0);
    lemma_count_update(pool.workers, idx, w, JobKind::Prepare);
    lemma_count_update(pool.workers, idx, w, JobKind::Execute);
    if q < pool.queue.len() {
        let busy = busy_with(w, pool.queue[q]);
        lemma_count_update(freed.workers, idx, busy, JobKind::Prepare);
        lemma_count_update(freed.workers, idx, busy, JobKind::Execute);
        let after = feed(freed, config, idx).pool;
        assert forall|i: int, j: int|
            0 <= i < after.workers.len() && 0 <= j < after.queue.len() && (
            #[trigger] after.workers[i]).state == WorkerState::Idle implies (
        #[trigger] after.queue[j]).stage != after.workers[i].kind by {
            assert(after.workers[i] == pool.workers[i]);
            if j < q {
                assert(after.queue[j] == pool.queue[j]);
            } else {
                assert(after.queue[j] == pool.queue[j + 1]);
            }
        }
    }
}

/// Asking for a replacement keeps the pools in order.
pub proof fn lemma_replenish_keeps_order(pool: Pool, config: HostConfig, kind: JobKind)
    requires
        pool_ok(pool, config),
    ensures
        pool_ok(replenish(pool, config, kind).pool, config),
{
    let w = fresh_worker(pool.next_worker, kind);
    lemma_count_push(pool.workers, w, JobKind::Prepare);
    lemma_count_push(pool.workers, w, JobKind::Execute);
}

/// Counting a failure against a job keeps the pools in order.
pub proof fn lemma_charge_keeps_order(pool: Pool, config: HostConfig, job: Job)
    requires
        pool_ok(pool, config),
        job_ok(job, config),
    ensures
        pool_ok(charge(pool, config, job).pool, config),
{
    if job.failures >= config.retry_bound {
        lemma_replenish_keeps_order(pool, config, job.stage);
    } else {
        lemma_place_keeps_order(pool, config, Job { failures: (job.failures + 1) as u32, ..job });
    }
}

/// Taking a worker out keeps the pools in order, and so does taking out
/// the waiting job that its loss is counted against.
pub proof fn lemma_without_worker_keeps_order(pool: Pool, config: HostConfig, idx: int)
    requires
        pool_ok(pool, config),
        0 <= idx < pool.workers.len(),
    ensures
        pool_ok(without_worker(pool, idx), config),
        victim_of(pool, idx).is_some() ==> job_ok(victim_of(pool, idx).unwrap(), config),
{
    lemma_count_remove(pool.workers, idx, JobKind::Prepare);
    lemma_count_remove(pool.workers, idx, JobKind::Execute);
    lemma_first_queued_found(pool.queue, pool.workers[idx].kind, 0);
}

/// Losing a worker keeps the pools in order.
pub proof fn lemma_lose_worker_keeps_order(pool: Pool, config: HostConfig, idx: int, kill: bool)
    requires
        pool_ok(pool, config),
        0 <= idx < pool.workers.len(),
    ensures
        pool_ok(lose_worker(pool, config, idx, kill).pool, config),
{
    lemma_without_worker_keeps_order(pool, config, idx);
    match victim_of(pool, idx) {
        None => {},
        Some(job) => {
            lemma_charge_keeps_order(without_worker(pool, idx), config, job);
        },
    }
}

/// Settling an answered job keeps the pools in order.
pub proof fn lemma_settle_keeps_order(pool: Pool, config: HostConfig, idx: int, done: bool)
    requires
        pool_ok(pool, config),
        0 <= idx < pool.workers.len(),
        pool.workers[idx].job.is_some(),
    ensures
        pool_ok(settle(pool, config, idx, done).pool, config),
{
    let w = pool.workers[idx];
    let job = w.job.unwrap();
    let freed = Pool { workers: pool.workers.update(idx, idle_with(w, w.status)), ..pool };
    lemma_idle_and_fed_keeps_order(pool, config, idx, idle_with(w, w.status));
    if moves_on(job, done) {
        lemma_place_keeps_order(
            feed(freed, config, idx).pool,
            config,
            Job { stage: JobKind::Execute, ..job },
        );
    }
}

/// What the search for a worker finds has the number that was asked for,
/// and where it finds nothing, no worker has that number.
pub proof fn lemma_find_worker_found(workers: Seq<Worker>, id: u64, from: int)
    requires
        0 <= from <= workers.len(),
    ensures
        from <= find_worker(workers, id, from) <= workers.len(),
        find_worker(workers, id, from) < workers.len() ==> workers[find_worker(
            workers,
            id,
            from,
        )].id == id,
        find_worker(workers, id, from) == workers.len() ==> forall|k: int|
            from <= k < workers.len() ==> workers[k].id != id,
    decreases workers.len() - from,
{
    if from < workers.len() && workers[from].id != id {
        lemma_find_worker_found(workers, id, from + 1);
    }
}

/// The search for the holder of a job ends inside the list or at its end.
pub proof fn lemma_find_holder_found(workers: Seq<Worker>, job: u64, from: int)
    requires
        0 <= from <= workers.len(),
    ensures
        from <= find_holder(workers, job, from) <= workers.len(),
    decreases workers.len() - from,
{
    if from < workers.len() && !(workers[from].job.is_some() && workers[from].job.unwrap().id
        == job) {
        lemma_find_holder_found(workers, job, from + 1);
    }
}

/// The search for a waiting job ends inside the queue or at its end.
pub proof fn lemma_find_queued_found(queue: Seq<Job>, id: u64, from: int)
    requires
        0 <= from <= queue.len(),
    ensures
        from <= find_queued(queue, id, from) <= queue.len(),
    decreases queue.len() - from,
{
    if from < queue.len() && queue[from].id != id {
        lemma_find_queued_found(queue, id, from + 1);
    }
}

/// A worker coming up keeps the pools in order.
pub proof fn lemma_spawned_keeps_order(pool: Pool, config: HostConfig, worker: u64)
    requires
        pool_ok(pool, config),
    ensures
        pool_ok(after_spawned(pool, worker), config),
{
    let idx = find_worker(pool.workers, worker, 0);
    lemma_find_worker_found(pool.workers, worker, 0);
    if idx < pool.workers.len() && pool.workers[idx].state == WorkerState::Spawning {
        let up = Worker { state: WorkerState::Handshaking, ..pool.workers[idx] };
        lemma_count_update(pool.workers, idx, up, JobKind::Prepare);
        lemma_count_update(pool.workers, idx, up, JobKind::Execute);
    }
}

/// A frame keeps the pools in order, whatever it holds.
pub proof fn lemma_frame_keeps_order(
    pool: Pool,
    config: HostConfig,
    worker: u64,
    payload: Seq<u8>,
)
    requires
        pool_ok(pool, config),
    ensures
        pool_ok(after_frame(pool, config, worker, payload).pool, config),
{
    let idx = find_worker(pool.workers, worker, 0);
    lemma_find_worker_found(pool.workers, worker, 0);
    if idx < pool.workers.len() {
        let w = pool.workers[idx];
        if w.state == WorkerState::Handshaking && admits(payload) {
            let admitted = idle_with(w, bytes_status(payload).unwrap());
            lemma_idle_and_fed_keeps_order(pool, config, idx, admitted);
        } else if w.state == WorkerState::Busy && accepts(w, payload) {
            lemma_settle_keeps_order(pool, config, idx, bytes_response(payload).unwrap().done);
        } else {
            lemma_lose_worker_keeps_order(pool, config, idx, true);
        }
    }
}

/// A timer running out keeps the pools in order.
pub proof fn lemma_timeout_keeps_order(pool: Pool, config: HostConfig, worker: u64)
    requires
        pool_ok(pool, config),
    ensures
        pool_ok(after_timeout(pool, config, worker).pool, config),
{
    let idx = find_worker(pool.workers, worker, 0);
    lemma_find_worker_found(pool.workers, worker, 0);
    if idx < pool.workers.len() {
        lemma_lose_worker_keeps_order(pool, config, idx, true);
    }
}

/// A worker's exit keeps the pools in order.
pub proof fn lemma_exit_keeps_order(pool: Pool, config: HostConfig, worker: u64)
    requires
        pool_ok(pool, config),
    ensures
        pool_ok(after_exit(pool, config, worker).pool, config),
{
    let idx = find_worker(pool.workers, worker, 0);
    lemma_find_worker_found(pool.workers, worker, 0);
    if idx < pool.workers.len() {
        lemma_lose_worker_keeps_order(pool, config, idx, false);
    }
}

/// A worker's refusal to start keeps the pools in order.
pub proof fn lemma_refusal_keeps_order(pool: Pool, config: HostConfig, worker: u64)
    requires
        pool_ok(pool, config),
    ensures
        pool_ok(after_refusal(pool, config, worker).pool, config),
{
    let idx = find_worker(pool.workers, worker, 0);
    lemma_find_worker_found(pool.workers, worker, 0);
    if idx < pool.workers.len() {
        lemma_without_worker_keeps_order(pool, config, idx);
        match victim_of(pool, idx) {
            None => {},
            Some(job) => {
                lemma_replenish_keeps_order(without_worker(pool, idx), config, job.stage);
            },
        }
    }
}

/// A withdrawal keeps the pools in order.
pub proof fn lemma_cancel_keeps_order(pool: Pool, config: HostConfig, job: u64)
    requires
        pool_ok(pool, config),
    ensures
        pool_ok(after_cancel(pool, config, job).pool, config),
{
    let q = find_queued(pool.queue, job, 0);
    let h = find_holder(pool.workers, job, 0);
    lemma_find_queued_found(pool.queue, job, 0);
    lemma_find_holder_found(pool.workers, job, 0);
    if q >= pool.queue.len() && h < pool.workers.len() {
        lemma_count_remove(pool.workers, h, JobKind::Prepare);
        lemma_count_remove(pool.workers, h, JobKind::Execute);
        lemma_replenish_keeps_order(
            Pool { workers: pool.workers.remove(h), ..pool },
            config,
            pool.workers[h].kind,
        );
    }
}

/// The submission of a job that has not failed keeps the pools in order.
pub proof fn lemma_submit_keeps_order(pool: Pool, config: HostConfig, job: Job, usable: bool)
    requires
        pool_ok(pool, config),
        job.failures == 0,
    ensures
        pool_ok(after_submit(pool, config, job, usable).pool, config),
{
    lemma_place_keeps_order(pool, config, job);
}

/// A host that has seen nothing yet is in order.
pub proof fn lemma_empty_pool_in_order(config: HostConfig)
    ensures
        pool_ok(
            Pool { workers: Seq::<Worker>::empty(), queue: Seq::<Job>::empty(), next_worker: 0 },
            config,
        ),
{
}

/// Some action hands a response to a caller.
pub open spec fn delivers(actions: Seq<Action>) -> bool {
    exists|k: int| 0 <= k < actions.len() && #[trigger] actions[k] is Deliver
}

/// Some action sends a job to the worker with the given number.
pub open spec fn sends_to(actions: Seq<Action>, worker: u64) -> bool {
    exists|k: int|
        0 <= k < actions.len() && (#[trigger] actions[k] is Send) && actions[k]->Send_worker
            == worker
}

/// Some worker in the list has the given number.
pub open spec fn has_worker(workers: Seq<Worker>, id: u64) -> bool {
    exists|k: int| 0 <= k < workers.len() && #[trigger] workers[k].id == id
}

/// The job with the given number waits or is held, with `failures`
/// failures on record.
pub open spec fn carried(pool: Pool, job: u64, failures: u32) -> bool {
    ||| exists|k: int|
        0 <= k < pool.queue.len() && #[trigger] pool.queue[k].id == job && pool.queue[k].failures
            == failures
    ||| exists|k: int|
        0 <= k < pool.workers.len() && (#[trigger] pool.workers[k]).job.is_some()
            && pool.workers[k].job.unwrap().id == job && pool.workers[k].job.unwrap().failures
            == failures
}

/// The search for a number that no worker has finds nothing.
pub proof fn lemma_find_worker_absent(workers: Seq<Worker>, id: u64, from: int)
    requires
        0 <= from <= workers.len(),
        !has_worker(workers, id),
    ensures
        find_worker(workers, id, from) == workers.len(),
    decreases workers.len() - from,
{
    if from < workers.len() {
        assert(workers[from].id != id);
        lemma_find_worker_absent(workers, id, from + 1);
    }
}

/// Placing a job hands nothing to a caller, brings back no worker number
/// that was used before, and carries the job.
pub proof fn lemma_place_effects(pool: Pool, config: HostConfig, job: Job, gone: u64)
    requires
        !has_worker(pool.workers, gone),
        gone < pool.next_worker,
    ensures
        !delivers(place(pool, config, job).actions),
        !sends_to(place(pool, config, job).actions, gone),
        !has_worker(place(pool, config, job).pool.workers, gone),
        gone < place(pool, config, job).pool.next_worker,
        carried(place(pool, config, job).pool, job.id, job.failures),
        forall|k: int|
            0 <= k < place(pool, config, job).actions.len() ==> !(#[trigger] place(
                pool,
                config,
                job,
            ).actions[k] is Fail),
{
    let step = place(pool, config, job);
    let i = first_idle(pool.workers, job.stage, 0);
    lemma_first_idle_found(pool.workers, job.stage, 0);
    if i < pool.workers.len() {
        assert(pool.workers[i].id != gone);
        assert(step.pool.workers[i].job.unwrap().id == job.id);
        assert forall|k: int| 0 <= k < step.pool.workers.len() implies step.pool.workers[k].id
            != gone by {
            assert(pool.workers[k].id != gone);
        }
    } else {
        assert(step.pool.queue[pool.queue.len() as int].id == job.id);
        assert forall|k: int| 0 <= k < step.pool.workers.len() implies step.pool.workers[k].id
            != gone by {
            if k < pool.workers.len() {
                assert(pool.workers[k].id != gone);
            }
        }
    }
}

/// Asking for a replacement hands nothing to a caller and brings back no
/// worker number that was used before.
pub proof fn lemma_replenish_effects(pool: Pool, config: HostConfig, kind: JobKind, gone: u64)
    requires
        !has_worker(pool.workers, gone),
        gone < pool.next_worker,
    ensures
        !delivers(replenish(pool, config, kind).actions),
        !sends_to(replenish(pool, config, kind).actions, gone),
        !has_worker(replenish(pool, config, kind).pool.workers, gone),
        gone < replenish(pool, config, kind).pool.next_worker,
{
    let step = replenish(pool, config, kind);
    assert forall|k: int| 0 <= k < step.pool.workers.len() implies step.pool.workers[k].id
        != gone by {
        if k < pool.workers.len() {
            assert(pool.workers[k].id != gone);
        }
    }
}

/// What the loss of a worker comes to. The worker is gone for good: its
/// number is in no pool and stands for a dead worker, and no job is sent
/// to it. Nothing is handed to a caller. A kill comes first where one was asked for. The job that the
/// loss is counted against fails if it had used up its retries, and is
/// carried on with one more failure on record if it had not.
pub proof fn lemma_lose_worker_effects(pool: Pool, config: HostConfig, idx: int, kill: bool)
    requires
        pool_ok(pool, config),
        0 <= idx < pool.workers.len(),
    ensures
        ({
            let step = lose_worker(pool, config, idx, kill);
            let id = pool.workers[idx].id;
            let first: int = if kill {
                1
            } else {
                0
            };
            &&& !delivers(step.actions)
            &&& !sends_to(step.actions, id)
            &&& worker_state_in(step.pool, id) == Some(WorkerState::Dead)
            &&& kill ==> step.actions.len() >= 1 && step.actions[0] == Action::Kill { worker: id }
            &&& match victim_of(pool, idx) {
                None => step.actions.len() == first,
                Some(job) => if job.failures >= config.retry_bound {
                    step.actions.len() > first && step.actions[first] == Action::Fail {
                        job: job.id,
                        error: HostError::RetriesExhausted,
                    }
                } else {
                    carried(step.pool, job.id, (job.failures + 1) as u32) && forall|k: int|
                        0 <= k < step.actions.len() ==> !(#[trigger] step.actions[k] is Fail)
                },
            }
        }),
{
    let step = lose_worker(pool, config, idx, kill);
    let id = pool.workers[idx].id;
    let rest = without_worker(pool, idx);
    assert forall|k: int| 0 <= k < rest.workers.len() implies rest.workers[k].id != id by {
        if k < idx {
            assert(rest.workers[k] == pool.workers[k]);
        } else {
            assert(rest.workers[k] == pool.workers[k + 1]);
        }
    }
    assert(!has_worker(rest.workers, id));
    match victim_of(pool, idx) {
        None => {
            lemma_find_worker_absent(step.pool.workers, id, 0);
        },
        Some(job) => {
            if job.failures >= config.retry_bound {
                lemma_replenish_effects(rest, config, job.stage, id);
            } else {
                lemma_place_effects(
                    rest,
                    config,
                    Job { failures: (job.failures + 1) as u32, ..job },
                    id,
                );
            }
            lemma_find_worker_absent(step.pool.workers, id, 0);
        },
    }
}

/// A worker that owes its handshake and sends anything but a handshake
/// that admits it is discarded: it is killed, its number stands for a dead
/// worker from then on, no job is sent to it, and the frame is handed to
/// no caller. A handshake under Secure Validator Mode that reports a
/// missing feature admits no worker.
pub proof fn lemma_no_delivery_before_handshake(
    pool: Pool,
    config: HostConfig,
    worker: u64,
    payload: Seq<u8>,
)
    requires
        pool_ok(pool, config),
        worker_state_in(pool, worker) == Some(WorkerState::Spawning) || worker_state_in(
            pool,
            worker,
        ) == Some(WorkerState::Handshaking),
        !admits(payload),
    ensures
        !delivers(after_frame(pool, config, worker, payload).actions),
        !sends_to(after_frame(pool, config, worker, payload).actions, worker),
        after_frame(pool, config, worker, payload).actions[0] == (Action::Kill { worker }),
        worker_state_in(after_frame(pool, config, worker, payload).pool, worker) == Some(
            WorkerState::Dead,
        ),
{
    let idx = find_worker(pool.workers, worker, 0);
    lemma_find_worker_found(pool.workers, worker, 0);
    lemma_lose_worker_effects(pool, config, idx, true);
}

/// Only the frame of a busy worker is ever handed to a caller, and a
/// worker is busy only after its handshake.
pub proof fn lemma_delivery_needs_busy_worker(
    pool: Pool,
    config: HostConfig,
    worker: u64,
    payload: Seq<u8>,
)
    requires
        pool_ok(pool, config),
        delivers(after_frame(pool, config, worker, payload).actions),
    ensures
        worker_state_in(pool, worker) == Some(WorkerState::Busy),
{
    let idx = find_worker(pool.workers, worker, 0);
    lemma_find_worker_found(pool.workers, worker, 0);
    if idx < pool.workers.len() {
        let w = pool.workers[idx];
        if w.state == WorkerState::Handshaking && admits(payload) {
            let admitted = Pool {
                workers: pool.workers.update(idx, idle_with(w, bytes_status(payload).unwrap())),
                ..pool
            };
            assert(!delivers(feed(admitted, config, idx).actions));
        } else if !(w.state == WorkerState::Busy && accepts(w, payload)) {
            lemma_lose_worker_effects(pool, config, idx, true);
        }
    }
}

/// How many more workers may fail on a job before the job fails with them.
pub open spec fn attempts_left(job: Job, config: HostConfig) -> nat {
    (config.retry_bound - job.failures + 1) as nat
}

/// The longest that a job can keep workers busy before the host gives it
/// up, if every worker it is sent to runs into its timeout.
pub open spec fn longest_wait(job: Job, config: HostConfig) -> nat {
    attempts_left(job, config) * timeout_of(config, job.stage) as nat
}

proof fn lemma_one_more_round(fewer: nat, more: nat, each: nat)
    by (nonlinear_arith)
    requires
        fewer + 1 == more,
    ensures
        fewer * each + each == more * each,
{
}

proof fn lemma_product_commutes(a: nat, b: nat)
    by (nonlinear_arith)
    ensures
        a * b == b * a,
{
}

/// When the timer of a busy worker runs out, the worker is killed and its
/// number stands for a dead worker from then on. If its job had used up
/// its retries, the job's failure is reported right after the kill.
/// Otherwise the job is carried on with one more failure on record, and
/// the longest that it can still wait is shorter by one timeout. For a job
/// that has not failed before, that longest wait is the timeout times one
/// more than the retry bound.
pub proof fn lemma_timeouts_are_bounded(pool: Pool, config: HostConfig, worker: u64)
    requires
        pool_ok(pool, config),
        worker_state_in(pool, worker) == Some(WorkerState::Busy),
    ensures
        ({
            let idx = find_worker(pool.workers, worker, 0);
            let job = pool.workers[idx].job.unwrap();
            let again = Job { failures: (job.failures + 1) as u32, ..job };
            let fresh = Job { failures: 0, ..job };
            let step = after_timeout(pool, config, worker);
            &&& pool.workers[idx].job.is_some()
            &&& step.actions[0] == Action::Kill { worker }
            &&& worker_state_in(step.pool, worker) == Some(WorkerState::Dead)
            &&& !delivers(step.actions)
            &&& !sends_to(step.actions, worker)
            &&& attempts_left(job, config) == 1 ==> step.actions[1] == Action::Fail {
                job: job.id,
                error: HostError::RetriesExhausted,
            }
            &&& attempts_left(job, config) > 1 ==> carried(step.pool, job.id, again.failures)
                && longest_wait(again, config) + timeout_of(config, job.stage) == longest_wait(
                job,
                config,
            )
            &&& longest_wait(fresh, config) == timeout_of(config, job.stage) * (config.retry_bound
                + 1)
        }),
{
    let idx = find_worker(pool.workers, worker, 0);
    lemma_find_worker_found(pool.workers, worker, 0);
    lemma_lose_worker_effects(pool, config, idx, true);
    let job = pool.workers[idx].job.unwrap();
    let again = Job { failures: (job.failures + 1) as u32, ..job };
    let t = timeout_of(config, job.stage) as nat;
    if attempts_left(job, config) > 1 {
        assert(attempts_left(again, config) + 1 == attempts_left(job, config));
        lemma_one_more_round(attempts_left(again, config), attempts_left(job, config), t);
    }
    let fresh = Job { failures: 0, ..job };
    lemma_product_commutes(attempts_left(fresh, config), t);
}

/// A handshake that asks for Secure Validator Mode and reports a missing
/// feature admits no worker, whatever else it says.
pub proof fn lemma_unmet_secure_mode_admits_nobody(payload: Seq<u8>)
    requires
        bytes_status(payload).is_some(),
        bytes_status(payload).unwrap().secure_validator_mode,
        !bytes_status(payload).unwrap().all_features(),
    ensures
        !admits(payload),
{
}

/// A worker's refusal to start is never answered with another try of the
/// same job: the job that waited for the worker fails at once, with the
/// refusal as its reason, and is carried no further.
pub proof fn lemma_refusal_is_final(pool: Pool, config: HostConfig, worker: u64)
    requires
        pool_ok(pool, config),
        worker_state_in(pool, worker) == Some(WorkerState::Spawning) || worker_state_in(
            pool,
            worker,
        ) == Some(WorkerState::Handshaking),
    ensures
        ({
            let idx = find_worker(pool.workers, worker, 0);
            let step = after_refusal(pool, config, worker);
            &&& worker_state_in(step.pool, worker) == Some(WorkerState::Dead)
            &&& !delivers(step.actions)
            &&& !sends_to(step.actions, worker)
            &&& match victim_of(pool, idx) {
                None => step.actions.len() == 0,
                Some(job) => step.actions[0] == Action::Fail {
                    job: job.id,
                    error: HostError::SecureModeUnavailable,
                } && step.pool.queue.len() + 1 == pool.queue.len(),
            }
        }),
{
    let idx = find_worker(pool.workers, worker, 0);
    lemma_find_worker_found(pool.workers, worker, 0);
    let rest = without_worker(pool, idx);
    assert forall|k: int| 0 <= k < rest.workers.len() implies rest.workers[k].id != worker by {
        if k < idx {
            assert(rest.workers[k] == pool.workers[k]);
        } else {
            assert(rest.workers[k] == pool.workers[k + 1]);
        }
    }
    assert(!has_worker(rest.workers, worker));
    lemma_first_queued_found(pool.queue, pool.workers[idx].kind, 0);
    match victim_of(pool, idx) {
        None => {},
        Some(job) => {
            lemma_replenish_effects(rest, config, job.stage, worker);
        },
    }
    lemma_find_worker_absent(after_refusal(pool, config, worker).pool.workers, worker, 0);
}

/// The worker with the given number is busy with the job with the given
/// number.
pub open spec fn holds(pool: Pool, worker: u64, job: u64) -> bool {
    exists|k: int|
        0 <= k < pool.workers.len() && (#[trigger] pool.workers[k]).id == worker
            && pool.workers[k].state == WorkerState::Busy && pool.workers[k].job.is_some()
            && pool.workers[k].job.unwrap().id == job
}

/// Every job that the actions send is held, in the pool, by the worker
/// that it is sent to.
pub open spec fn sends_are_held(actions: Seq<Action>, pool: Pool) -> bool {
    forall|k: int|
        0 <= k < actions.len() && (#[trigger] actions[k] is Send) ==> holds(
            pool,
            actions[k]->Send_worker,
            actions[k]->Send_job,
        )
}

/// Placing a job sends it only to the worker that then holds it, and
/// takes no job out of a worker's hands.
pub proof fn lemma_place_sends(pool: Pool, config: HostConfig, job: Job, worker: u64, held: u64)
    requires
        pool_ok(pool, config),
    ensures
        sends_are_held(place(pool, config, job).actions, place(pool, config, job).pool),
        holds(pool, worker, held) ==> holds(place(pool, config, job).pool, worker, held),
{
    let step = place(pool, config, job);
    let i = first_idle(pool.workers, job.stage, 0);
    lemma_first_idle_found(pool.workers, job.stage, 0);
    if i < pool.workers.len() {
        assert(step.pool.workers[i].id == pool.workers[i].id);
        assert(holds(step.pool, pool.workers[i].id, job.id));
    }
    if holds(pool, worker, held) {
        let k = choose|k: int|
            0 <= k < pool.workers.len() && (#[trigger] pool.workers[k]).id == worker
                && pool.workers[k].state == WorkerState::Busy && pool.workers[k].job.is_some()
                && pool.workers[k].job.unwrap().id == held;
        assert(step.pool.workers[k] == pool.workers[k]);
    }
}

/// Feeding an idle worker sends a job only to that worker, which then
/// holds it.
pub proof fn lemma_feed_sends(pool: Pool, config: HostConfig, idx: int)
    requires
        0 <= idx < pool.workers.len(),
    ensures
        sends_are_held(feed(pool, config, idx).actions, feed(pool, config, idx).pool),
{
    let step = feed(pool, config, idx);
    let q = first_queued(pool.queue, pool.workers[idx].kind, 0);
    lemma_first_queued_found(pool.queue, pool.workers[idx].kind, 0);
    if q < pool.queue.len() {
        assert(step.pool.workers[idx].id == pool.workers[idx].id);
        assert(holds(step.pool, pool.workers[idx].id, pool.queue[q].id));
    }
}

/// Losing a worker sends a job only to a worker that then holds it.
pub proof fn lemma_lose_worker_sends(pool: Pool, config: HostConfig, idx: int, kill: bool)
    requires
        pool_ok(pool, config),
        0 <= idx < pool.workers.len(),
    ensures
        sends_are_held(
            lose_worker(pool, config, idx, kill).actions,
            lose_worker(pool, config, idx, kill).pool,
        ),
{
    let step = lose_worker(pool, config, idx, kill);
    lemma_without_worker_keeps_order(pool, config, idx);
    match victim_of(pool, idx) {
        None => {},
        Some(job) => {
            if job.failures < config.retry_bound {
                let again = Job { failures: (job.failures + 1) as u32, ..job };
                let placed = place(without_worker(pool, idx), config, again);
                lemma_place_sends(without_worker(pool, idx), config, again, 0, 0);
                assert forall|k: int|
                    0 <= k < step.actions.len() && (#[trigger] step.actions[k] is Send) implies holds(
                    step.pool,
                    step.actions[k]->Send_worker,
                    step.actions[k]->Send_job,
                ) by {
                    if kill {
                        assert(step.actions[k] == placed.actions[k - 1]);
                    } else {
                        assert(step.actions[k] == placed.actions[k]);
                    }
                }
            }
        },
    }
}

/// No worker is sent a job while another is outstanding: whatever the
/// event, each job that it sends goes to a worker that holds exactly that
/// job afterwards, and a worker holds one job at a time.
pub proof fn lemma_sends_are_held(
    pool: Pool,
    config: HostConfig,
    worker: u64,
    payload: Seq<u8>,
    job: u64,
    submitted: Job,
    usable: bool,
)
    requires
        pool_ok(pool, config),
        submitted.failures == 0,
    ensures
        sends_are_held(
            after_frame(pool, config, worker, payload).actions,
            after_frame(pool, config, worker, payload).pool,
        ),
        sends_are_held(
            after_timeout(pool, config, worker).actions,
            after_timeout(pool, config, worker).pool,
        ),
        sends_are_held(after_exit(pool, config, worker).actions, after_exit(pool, config, worker).pool),
        sends_are_held(
            after_refusal(pool, config, worker).actions,
            after_refusal(pool, config, worker).pool,
        ),
        sends_are_held(after_cancel(pool, config, job).actions, after_cancel(pool, config, job).pool),
        sends_are_held(
            after_submit(pool, config, submitted, usable).actions,
            after_submit(pool, config, submitted, usable).pool,
        ),
{
    let idx = find_worker(pool.workers, worker, 0);
    lemma_find_worker_found(pool.workers, worker, 0);
    lemma_place_sends(pool, config, submitted, 0, 0);
    if idx < pool.workers.len() {
        let w = pool.workers[idx];
        lemma_lose_worker_sends(pool, config, idx, true);
        lemma_lose_worker_sends(pool, config, idx, false);
        if w.state == WorkerState::Handshaking && admits(payload) {
            let admitted = Pool {
                workers: pool.workers.update(idx, idle_with(w, bytes_status(payload).unwrap())),
                ..pool
            };
            lemma_feed_sends(admitted, config, idx);
        } else if w.state == WorkerState::Busy && accepts(w, payload) {
            let done = bytes_response(payload).unwrap().done;
            let held = w.job.unwrap();
            let freed = Pool { workers: pool.workers.update(idx, idle_with(w, w.status)), ..pool };
            let fed = feed(freed, config, idx);
            let step = settle(pool, config, idx, done);
            lemma_feed_sends(freed, config, idx);
            lemma_idle_and_fed_keeps_order(pool, config, idx, idle_with(w, w.status));
            if moves_on(held, done) {
                let next = Job { stage: JobKind::Execute, ..held };
                let placed = place(fed.pool, config, next);
                assert forall|k: int|
                    0 <= k < step.actions.len() && (#[trigger] step.actions[k] is Send) implies holds(
                    step.pool,
                    step.actions[k]->Send_worker,
                    step.actions[k]->Send_job,
                ) by {
                    if k < fed.actions.len() {
                        assert(step.actions[k] == fed.actions[k]);
                        lemma_place_sends(
                            fed.pool,
                            config,
                            next,
                            fed.actions[k]->Send_worker,
                            fed.actions[k]->Send_job,
                        );
                    } else {
                        assert(step.actions[k] == placed.actions[k - fed.actions.len()]);
                        lemma_place_sends(fed.pool, config, next, 0, 0);
                    }
                }
            } else {
                assert forall|k: int|
                    0 <= k < step.actions.len() && (#[trigger] step.actions[k] is Send) implies holds(
                    step.pool,
                    step.actions[k]->Send_worker,
                    step.actions[k]->Send_job,
                ) by {
                    assert(step.actions[k] == fed.actions[k - 1]);
                }
            }
        }
    }
}

} // verus!
