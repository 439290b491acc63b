//! The graceful accept loop of a listener.
//!
//! A listener accepts connections while its guard is unset; each
//! accepted connection is dispatched to its own task, registered with
//! the shutdown coordinator so that shutdown waits for in-flight
//! connections.  A transient accept failure is skipped and the loop
//! continues; the loop itself exits once the guard signals stop, while
//! already-dispatched connection tasks keep running under the
//! coordinator's deadline.

use vstd::prelude::*;

use crate::shutdown::{Shutdown, Task};

verus! {

/// One event seen by the accept loop, stamped with the time at which it
/// occurs.
#[derive(Clone, Copy, Debug, PartialEq, Eq, Structural)]
pub enum AcceptEvent {
    /// A connection arrives; once dispatched, its task winds down the
    /// given time after the stop signal, or never.
    Incoming { at_ms: u64, work_ms: Option<u64> },
    /// A transient accept failure: reported, then skipped.
    Transient { at_ms: u64 },
}

/// The wind-down times of the connections the loop dispatches: those
/// arriving strictly before the guard signals stop, in arrival order.
pub open spec fn dispatched(events: Seq<AcceptEvent>, stop_at_ms: u64) -> Seq<Option<u64>>
    decreases events.len(),
{
    if events.len() == 0 {
        Seq::empty()
    } else {
        dispatched(events.drop_last(), stop_at_ms) + (match events.last() {
            AcceptEvent::Incoming { at_ms, work_ms } => if at_ms < stop_at_ms {
                seq![work_ms]
            } else {
                Seq::empty()
            },
            AcceptEvent::Transient { .. } => Seq::empty(),
        })
    }
}

/// The tasks the coordinator registers for a run of dispatched
/// connections, identities issued in order from `base`.
pub open spec fn spawned(winddowns: Seq<Option<u64>>, base: u64) -> Seq<Task> {
    Seq::new(winddowns.len(), |k: int| Task { id: (base + k) as u64, winddown_ms: winddowns[k] })
}

/// Run the accept loop over a schedule of events: every connection
/// arriving strictly before `stop_at_ms` (the time the guard signals) is
/// dispatched and registered with the coordinator; transient failures
/// and late arrivals are not.  Returns how many connections were
/// dispatched.
pub fn serve_graceful(
    events: &Vec<AcceptEvent>,
    stop_at_ms: u64,
    coordinator: &mut Shutdown,
) -> (n: usize)
    requires
        old(coordinator).wf(),
        old(coordinator).next_id + events@.len() <= u64::MAX,
    ensures
        final(coordinator).wf(),
        n == dispatched(events@, stop_at_ms).len(),
        final(coordinator).next_id == old(coordinator).next_id + n,
        final(coordinator).tasks@ == old(coordinator).tasks@ + spawned(
            dispatched(events@, stop_at_ms),
            old(coordinator).next_id,
        ),
{
    let ghost base = old(coordinator).next_id;
    let mut n: usize = 0;
    let mut i: usize = 0;
    while i < events.len()
        invariant
            coordinator.wf(),
            i <= events@.len(),
            base + events@.len() <= u64::MAX,
            n == dispatched(events@.take(i as int), stop_at_ms).len(),
            n <= i,
            coordinator.next_id == base + n,
            coordinator.tasks@ == old(coordinator).tasks@ + spawned(
                dispatched(events@.take(i as int), stop_at_ms),
                base,
            ),
        decreases events@.len() - i,
    {
        proof {
            assert(events@.take(i + 1 as int).drop_last() =~= events@.take(i as int));
            assert(events@.take(i + 1 as int).last() == events@[i as int]);
        }
        let ghost before = dispatched(events@.take(i as int), stop_at_ms);
        let e = events[i];
        match e {
            AcceptEvent::Incoming { at_ms, work_ms } => {
                if at_ms < stop_at_ms {
                    let (id, _guard) = coordinator.spawn(work_ms);
                    n = n + 1;
                    proof {
                        assert(dispatched(events@.take(i + 1 as int), stop_at_ms) =~= before
                            + seq![work_ms]);
                        assert(coordinator.tasks@ =~= old(coordinator).tasks@ + spawned(
                            dispatched(events@.take(i + 1 as int), stop_at_ms),
                            base,
                        ));
                    }
                } else {
                    proof {
                        assert(dispatched(events@.take(i + 1 as int), stop_at_ms) =~= before);
                    }
                }
            },
            AcceptEvent::Transient { .. } => {
                proof {
                    assert(dispatched(events@.take(i + 1 as int), stop_at_ms) =~= before);
                }
            },
        }
        i += 1;
    }
    proof {
        assert(events@.take(events@.len() as int) =~= events@);
    }
    n
}

} // verus!
