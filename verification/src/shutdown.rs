//! The graceful-shutdown coordinator.
//!
//! The coordinator registers long-running tasks, each under a fresh
//! cooperative cancellation guard, and on shutdown signals every guard
//! and waits for every registered task within an overall deadline.  A
//! task is modelled by how long it takes to wind down once its guard
//! signals stop; a task that never observes its guard never finishes.
//! Cancellation is cooperative: a task that does not finish is reported
//! at the deadline, never force-killed, and never silently forgotten.

use vstd::prelude::*;

verus! {

/// A cooperative cancellation token, shared between the coordinator
/// (which signals it) and the task (which observes it).
#[derive(Clone, Copy, Debug, PartialEq, Eq, Structural)]
pub struct Guard {
    /// Whether stop has been signalled.
    pub cancelled: bool,
}

impl Guard {
    /// A fresh, unsignalled guard.
    pub fn new() -> (g: Guard)
        ensures
            !g.cancelled,
    {
        Guard { cancelled: false }
    }

    /// Signal stop.
    pub fn cancel(&mut self)
        ensures
            final(self).cancelled,
    {
        self.cancelled = true;
    }

    /// Whether stop has been signalled; tasks check this at least once
    /// per iteration of any loop they own.
    pub fn is_cancelled(&self) -> (b: bool)
        ensures
            b == self.cancelled,
    {
        self.cancelled
    }
}

/// One registered task: its identity and how long it takes to wind down
/// after the stop signal, if it ever does.
#[derive(Clone, Copy, Debug, PartialEq, Eq, Structural)]
pub struct Task {
    /// The task's identity in the registry.
    pub id: u64,
    /// The time, in milliseconds after the stop signal, at which the task
    /// finishes; `None` for a task that never observes its guard.
    pub winddown_ms: Option<u64>,
}

/// Whether a task finishes within the given deadline.
pub open spec fn finishes_by(t: Task, limit_ms: u64) -> bool {
    match t.winddown_ms {
        Some(w) => w <= limit_ms,
        None => false,
    }
}

/// The tasks of the registry still unfinished at the deadline, in
/// registration order.
pub open spec fn remaining(tasks: Seq<Task>, limit_ms: u64) -> Seq<Task>
    decreases tasks.len(),
{
    if tasks.len() == 0 {
        Seq::empty()
    } else {
        remaining(tasks.drop_last(), limit_ms) + (if finishes_by(tasks.last(), limit_ms) {
            Seq::empty()
        } else {
            seq![tasks.last()]
        })
    }
}

/// The identities of the tasks still unfinished at the deadline, in
/// registration order.
pub open spec fn unfinished_ids(tasks: Seq<Task>, limit_ms: u64) -> Seq<u64>
    decreases tasks.len(),
{
    if tasks.len() == 0 {
        Seq::empty()
    } else {
        unfinished_ids(tasks.drop_last(), limit_ms) + (if finishes_by(tasks.last(), limit_ms) {
            Seq::empty()
        } else {
            seq![tasks.last().id]
        })
    }
}

/// The time at which the last task finishing within the deadline does so.
pub open spec fn last_finish(tasks: Seq<Task>, limit_ms: u64) -> u64
    decreases tasks.len(),
{
    if tasks.len() == 0 {
        0
    } else {
        let m = last_finish(tasks.drop_last(), limit_ms);
        match tasks.last().winddown_ms {
            Some(w) => if w <= limit_ms && w > m {
                w
            } else {
                m
            },
            None => m,
        }
    }
}

/// The failure reported when the deadline elapses before every task has
/// finished.
#[derive(Clone, Debug)]
pub struct ShutdownError {
    /// The deadline that elapsed, in milliseconds.
    pub limit_ms: u64,
    /// The identities of the tasks that had not finished, in
    /// registration order.
    pub unfinished: Vec<u64>,
}

/// The registry plus bounded-wait mechanism for graceful shutdown.  Each
/// coordinator instance is independent.
#[derive(Debug)]
pub struct Shutdown {
    /// The identity the next spawned task will receive.
    pub next_id: u64,
    /// The registered, not yet finished tasks, in registration order.
    pub tasks: Vec<Task>,
}

/// Task identities strictly increase with registration order, so no two
/// tasks share one.
pub open spec fn sorted_ids(tasks: Seq<Task>) -> bool {
    forall|i: int, j: int|
        0 <= i < j < tasks.len() ==> #[trigger] tasks[i].id < #[trigger] tasks[j].id
}

impl Shutdown {
    /// Every registered identity was issued, and identities increase with
    /// registration order, so no two tasks share one.
    pub open spec fn wf(&self) -> bool {
        &&& forall|i: int| 0 <= i < self.tasks@.len() ==> #[trigger] self.tasks@[i].id < self.next_id
        &&& sorted_ids(self.tasks@)
    }

    /// A coordinator with no tasks registered.
    pub fn new() -> (s: Shutdown)
        ensures
            s.wf(),
            s.tasks@ == Seq::<Task>::empty(),
            s.next_id == 0,
    {
        let s = Shutdown { next_id: 0, tasks: Vec::new() };
        proof {
            assert(s.tasks@ =~= Seq::<Task>::empty());
        }
        s
    }

    /// Register a new task under a fresh guard and begin running it; the
    /// task is handed the guard and is expected to observe it.  Returns
    /// the task's identity and its guard.
    pub fn spawn(&mut self, winddown_ms: Option<u64>) -> (r: (u64, Guard))
        requires
            old(self).wf(),
            old(self).next_id < u64::MAX,
        ensures
            final(self).wf(),
            r.0 == old(self).next_id,
            !r.1.cancelled,
            final(self).tasks@ == old(self).tasks@.push(Task { id: r.0, winddown_ms }),
            final(self).next_id == old(self).next_id + 1,
    {
        let id = self.next_id;
        self.tasks.push(Task { id, winddown_ms });
        self.next_id = self.next_id + 1;
        proof {
            assert forall|i: int, j: int|
                0 <= i < j < self.tasks@.len() implies #[trigger] self.tasks@[i].id
                < #[trigger] self.tasks@[j].id by {
                if j == self.tasks@.len() - 1 {
                    assert(self.tasks@[i] == old(self).tasks@[i]);
                    assert(old(self).tasks@[i].id < id);
                } else {
                    assert(self.tasks@[i] == old(self).tasks@[i]);
                    assert(self.tasks@[j] == old(self).tasks@[j]);
                }
            }
        }
        (id, Guard::new())
    }

    /// Signal stop to every outstanding guard, then wait for every
    /// registered task up to `limit_ms`.  If all tasks finish in time,
    /// resolves successfully at the moment the last one finishes;
    /// otherwise resolves at the deadline with a failure naming every
    /// unfinished task.  Finished tasks are removed from the registry;
    /// unfinished ones remain registered.
    pub fn shutdown_with_limit(&mut self, limit_ms: u64) -> (r: Result<u64, ShutdownError>)
        requires
            old(self).wf(),
        ensures
            final(self).wf(),
            final(self).next_id == old(self).next_id,
            final(self).tasks@ == remaining(old(self).tasks@, limit_ms),
            match r {
                Ok(elapsed_ms) => {
                    &&& remaining(old(self).tasks@, limit_ms) == Seq::<Task>::empty()
                    &&& elapsed_ms == last_finish(old(self).tasks@, limit_ms)
                    &&& elapsed_ms <= limit_ms
                },
                Err(e) => {
                    &&& remaining(old(self).tasks@, limit_ms).len() > 0
                    &&& e.limit_ms == limit_ms
                    &&& e.unfinished@ == unfinished_ids(old(self).tasks@, limit_ms)
                },
            },
    {
        let ghost all = self.tasks@;
        let mut kept: Vec<Task> = Vec::new();
        let mut ids: Vec<u64> = Vec::new();
        let mut last_done: u64 = 0;
        let mut i: usize = 0;
        while i < self.tasks.len()
            invariant
                *self == *old(self),
                all == self.tasks@,
                i <= all.len(),
                kept@ == remaining(all.take(i as int), limit_ms),
                ids@ == unfinished_ids(all.take(i as int), limit_ms),
                last_done == last_finish(all.take(i as int), limit_ms),
                last_done <= limit_ms,
            decreases all.len() - i,
        {
            let t = self.tasks[i];
            proof {
                assert(all.take(i + 1 as int).drop_last() =~= all.take(i as int));
                assert(all.take(i + 1 as int).last() == t);
            }
            match t.winddown_ms {
                Some(w) => {
                    if w <= limit_ms {
                        if w > last_done {
                            last_done = w;
                        }
                    } else {
                        kept.push(t);
                        ids.push(t.id);
                    }
                },
                None => {
                    kept.push(t);
                    ids.push(t.id);
                },
            }
            i += 1;
            proof {
                assert(kept@ =~= remaining(all.take(i as int), limit_ms));
                assert(ids@ =~= unfinished_ids(all.take(i as int), limit_ms));
            }
        }
        proof {
            assert(all.take(all.len() as int) =~= all);
        }
        let failed = kept.len() > 0;
        self.tasks = kept;
        proof {
            lemma_remaining_sub(all, limit_ms);
            lemma_remaining_sorted(all, limit_ms);
            assert forall|j: int|
                0 <= j < self.tasks@.len() implies #[trigger] self.tasks@[j].id
                < self.next_id by {
                assert(all.contains(self.tasks@[j]));
                let k = choose|k: int| 0 <= k < all.len() && all[k] == self.tasks@[j];
                assert(all[k].id < self.next_id);
            }
        }
        if failed {
            Err(ShutdownError { limit_ms, unfinished: ids })
        } else {
            Ok(last_done)
        }
    }
}

impl Default for Shutdown {
    /// A coordinator with no tasks registered.
    fn default() -> (s: Shutdown)
        ensures
            s.wf(),
            s.tasks@ == Seq::<Task>::empty(),
            s.next_id == 0,
    {
        Shutdown::new()
    }
}

/// Every unfinished task of a registry appears in the registry, with its
/// position preserved relative to the other unfinished tasks.
proof fn lemma_remaining_sub(tasks: Seq<Task>, limit_ms: u64)
    ensures
        forall|j: int|
            0 <= j < remaining(tasks, limit_ms).len() ==> tasks.contains(
                #[trigger] remaining(tasks, limit_ms)[j],
            ) && !finishes_by(remaining(tasks, limit_ms)[j], limit_ms),
    decreases tasks.len(),
{
    if tasks.len() > 0 {
        lemma_remaining_sub(tasks.drop_last(), limit_ms);
        let pre = tasks.drop_last();
        assert forall|j: int|
            0 <= j < remaining(tasks, limit_ms).len() implies tasks.contains(
            #[trigger] remaining(tasks, limit_ms)[j],
        ) && !finishes_by(remaining(tasks, limit_ms)[j], limit_ms) by {
            if j < remaining(pre, limit_ms).len() {
                assert(remaining(tasks, limit_ms)[j] == remaining(pre, limit_ms)[j]);
                assert(pre.contains(remaining(pre, limit_ms)[j]));
                let k = choose|k: int|
                    0 <= k < pre.len() && pre[k] == remaining(pre, limit_ms)[j];
                assert(tasks[k] == remaining(tasks, limit_ms)[j]);
            } else {
                assert(remaining(tasks, limit_ms)[j] == tasks.last());
                assert(tasks[tasks.len() - 1] == tasks.last());
            }
        }
    }
}

/// Filtering a registry with strictly increasing identities keeps them
/// strictly increasing.
proof fn lemma_remaining_sorted(tasks: Seq<Task>, limit_ms: u64)
    requires
        sorted_ids(tasks),
    ensures
        sorted_ids(remaining(tasks, limit_ms)),
    decreases tasks.len(),
{
    if tasks.len() > 0 {
        let pre = tasks.drop_last();
        assert forall|i: int, j: int|
            0 <= i < j < pre.len() implies #[trigger] pre[i].id < #[trigger] pre[j].id by {
            assert(pre[i] == tasks[i]);
            assert(pre[j] == tasks[j]);
        }
        lemma_remaining_sorted(pre, limit_ms);
        lemma_remaining_sub(pre, limit_ms);
        let rem = remaining(tasks, limit_ms);
        let rp = remaining(pre, limit_ms);
        assert forall|i: int, j: int|
            0 <= i < j < rem.len() implies #[trigger] rem[i].id < #[trigger] rem[j].id by {
            if j < rp.len() {
                assert(rem[i] == rp[i]);
                assert(rem[j] == rp[j]);
            } else {
                assert(rem[i] == rp[i]);
                assert(pre.contains(rp[i]));
                let k = choose|k: int| 0 <= k < pre.len() && pre[k] == rp[i];
                assert(tasks[k] == pre[k]);
                assert(tasks[k].id < tasks[tasks.len() - 1].id);
                assert(rem[j] == tasks.last());
            }
        }
    }
}

/// The accounting law: once spawned, a task is always accounted for at
/// shutdown — it either finishes within the deadline, or it stands in
/// the registry of unfinished tasks that the failure reports; and that
/// registry holds nothing else.
pub proof fn lemma_tasks_accounted(tasks: Seq<Task>, limit_ms: u64)
    ensures
        forall|i: int|
            0 <= i < tasks.len() ==> finishes_by(#[trigger] tasks[i], limit_ms) || remaining(
                tasks,
                limit_ms,
            ).contains(tasks[i]),
        forall|j: int|
            0 <= j < remaining(tasks, limit_ms).len() ==> tasks.contains(
                #[trigger] remaining(tasks, limit_ms)[j],
            ) && !finishes_by(remaining(tasks, limit_ms)[j], limit_ms),
    decreases tasks.len(),
{
    lemma_remaining_sub(tasks, limit_ms);
    if tasks.len() > 0 {
        lemma_tasks_accounted(tasks.drop_last(), limit_ms);
        let pre = tasks.drop_last();
        assert forall|i: int|
            0 <= i < tasks.len() && !finishes_by(tasks[i], limit_ms) implies remaining(
            tasks,
            limit_ms,
        ).contains(tasks[i]) by {
            if i < tasks.len() - 1 {
                assert(pre[i] == tasks[i]);
                assert(remaining(pre, limit_ms).contains(pre[i]));
                let k = choose|k: int|
                    0 <= k < remaining(pre, limit_ms).len() && remaining(pre, limit_ms)[k]
                        == pre[i];
                assert(remaining(tasks, limit_ms)[k] == remaining(pre, limit_ms)[k]);
            } else {
                let n = remaining(tasks, limit_ms).len();
                assert(remaining(tasks, limit_ms)[n - 1] == tasks.last());
            }
        }
    }
}

} // verus!
