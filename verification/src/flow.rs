//! The pool's queue as a whole, and the laws it obeys.
//!
//! Across all submitters and workers, the bounded channel is the single
//! shared resource: sends complete only below capacity (a full channel
//! suspends the submitter — the designed backpressure), workers drain it one
//! command at a time in arrival order, and shutdown closes the sending half
//! exactly once. This module states that machine over ghost traces — the
//! queue holds the identities of the commands in it — and proves the laws:
//! occupancy never exceeds the capacity; commands are dequeued exactly in
//! the order their sends completed; closing is permanent and no submission
//! completes after it; and a closed queue drains to empty, at which point
//! every worker's receive reports end-of-stream.
//!
//! The executable counterparts are `pool::submit` (a completed send is
//! `Submit`), `pool::worker_step` (a received command is `Dequeue`), and
//! `pool::close` (`Close`).

use vstd::prelude::*;

verus! {

/// The pool's queue as submitters and workers see it.
pub struct PoolState {
    /// The fixed capacity the bounded channel was created with.
    pub cap: nat,
    /// The commands the channel holds, oldest first, each by its identity.
    pub queue: Seq<nat>,
    /// Whether the sending half has been closed.
    pub closed: bool,
}

/// The events that change the pool's queue.
pub enum PoolEvent {
    /// A submitter's send of the identified command completed.
    Submit(nat),
    /// A worker dequeued the oldest command.
    Dequeue,
    /// Shutdown closed the sending half.
    Close,
}

/// Whether the event can happen in the state: a send completes only while
/// the channel is open and below capacity — when full, the submitter
/// suspends instead — a dequeue needs a queued command, and the channel is
/// closed exactly once.
pub open spec fn pool_valid_step(m: PoolState, e: PoolEvent) -> bool {
    match e {
        PoolEvent::Submit(id) => !m.closed && m.queue.len() < m.cap,
        PoolEvent::Dequeue => m.queue.len() > 0,
        PoolEvent::Close => !m.closed,
    }
}

/// The state the event leads to.
pub open spec fn pool_step(m: PoolState, e: PoolEvent) -> PoolState {
    match e {
        PoolEvent::Submit(id) => PoolState { queue: m.queue.push(id), ..m },
        PoolEvent::Dequeue => PoolState { queue: m.queue.drop_first(), ..m },
        PoolEvent::Close => PoolState { closed: true, ..m },
    }
}

/// The state a trace of events leads to.
pub open spec fn pool_run(m: PoolState, t: Seq<PoolEvent>) -> PoolState
    decreases t.len(),
{
    if t.len() == 0 {
        m
    } else {
        pool_run(pool_step(m, t[0]), t.subrange(1, t.len() as int))
    }
}

/// Every event of the trace is valid from the state it is taken in.
pub open spec fn pool_valid_trace(m: PoolState, t: Seq<PoolEvent>) -> bool
    decreases t.len(),
{
    t.len() == 0 || (pool_valid_step(m, t[0]) && pool_valid_trace(
        pool_step(m, t[0]),
        t.subrange(1, t.len() as int),
    ))
}

/// The identities whose sends completed, in completion order.
pub open spec fn submitted(t: Seq<PoolEvent>) -> Seq<nat>
    decreases t.len(),
{
    if t.len() == 0 {
        Seq::empty()
    } else {
        (match t[0] {
            PoolEvent::Submit(id) => seq![id],
            PoolEvent::Dequeue => Seq::empty(),
            PoolEvent::Close => Seq::empty(),
        }) + submitted(t.subrange(1, t.len() as int))
    }
}

/// The identities the workers dequeued, in dequeue order.
pub open spec fn dequeued(m: PoolState, t: Seq<PoolEvent>) -> Seq<nat>
    decreases t.len(),
{
    if t.len() == 0 {
        Seq::empty()
    } else {
        (match t[0] {
            PoolEvent::Submit(id) => Seq::empty(),
            PoolEvent::Dequeue => seq![m.queue.first()],
            PoolEvent::Close => Seq::empty(),
        }) + dequeued(pool_step(m, t[0]), t.subrange(1, t.len() as int))
    }
}

/// The channel holds no more than its capacity.
pub open spec fn occupancy_ok(m: PoolState) -> bool {
    m.queue.len() <= m.cap
}

/// Backpressure: from any state within capacity — a fresh pool starts empty —
/// every reachable state is within capacity. The queue's occupancy never
/// exceeds the bound the pool was built with.
pub proof fn lemma_backpressure(m: PoolState, t: Seq<PoolEvent>)
    requires
        occupancy_ok(m),
        pool_valid_trace(m, t),
    ensures
        occupancy_ok(pool_run(m, t)),
    decreases t.len(),
{
    if t.len() > 0 {
        lemma_backpressure(pool_step(m, t[0]), t.subrange(1, t.len() as int));
    }
}

/// Conservation and order: what the workers dequeue, followed by what is
/// still queued, is exactly what was queued at the start followed by what
/// the submitters enqueued — nothing is lost, duplicated, or reordered.
pub proof fn lemma_queue_conservation(m: PoolState, t: Seq<PoolEvent>)
    requires
        pool_valid_trace(m, t),
    ensures
        dequeued(m, t) + pool_run(m, t).queue == m.queue + submitted(t),
    decreases t.len(),
{
    if t.len() == 0 {
        assert(dequeued(m, t) + pool_run(m, t).queue =~= m.queue + submitted(t));
    } else {
        let rest = t.subrange(1, t.len() as int);
        let m2 = pool_step(m, t[0]);
        lemma_queue_conservation(m2, rest);
        match t[0] {
            PoolEvent::Submit(id) => {
                assert(m2.queue =~= m.queue.push(id));
                assert(dequeued(m, t) =~= dequeued(m2, rest));
                assert(m.queue.push(id) + submitted(rest) =~= m.queue + submitted(t));
                assert(dequeued(m, t) + pool_run(m, t).queue =~= m.queue + submitted(t));
            },
            PoolEvent::Dequeue => {
                let head = seq![m.queue.first()];
                assert(dequeued(m, t) =~= head + dequeued(m2, rest));
                assert(head + (m2.queue + submitted(rest)) =~= m.queue + submitted(t));
                assert(dequeued(m, t) + pool_run(m, t).queue =~= m.queue + submitted(t));
            },
            PoolEvent::Close => {
                assert(dequeued(m, t) =~= dequeued(m2, rest));
                assert(submitted(t) =~= submitted(rest));
                assert(dequeued(m, t) + pool_run(m, t).queue =~= m.queue + submitted(t));
            },
        }
    }
}

/// First in, first out: starting from an empty channel, the commands leave
/// in exactly the order their sends completed — the dequeued identities are
/// a prefix of the submitted ones.
pub proof fn lemma_fifo(m: PoolState, t: Seq<PoolEvent>)
    requires
        m.queue.len() == 0,
        pool_valid_trace(m, t),
    ensures
        dequeued(m, t) == submitted(t).take(dequeued(m, t).len() as int),
{
    lemma_queue_conservation(m, t);
    assert(m.queue + submitted(t) =~= submitted(t));
    assert(dequeued(m, t) =~= submitted(t).take(dequeued(m, t).len() as int));
}

/// Closing is permanent: once the sending half is closed, it stays closed
/// through every later event.
pub proof fn lemma_close_is_permanent(m: PoolState, t: Seq<PoolEvent>)
    requires
        m.closed,
        pool_valid_trace(m, t),
    ensures
        pool_run(m, t).closed,
    decreases t.len(),
{
    if t.len() > 0 {
        lemma_close_is_permanent(pool_step(m, t[0]), t.subrange(1, t.len() as int));
    }
}

/// No submission completes after close: a submit step is never valid in a
/// closed state, so a closed pool fails every further submission.
pub proof fn lemma_no_submit_after_close(m: PoolState, id: nat)
    requires
        m.closed,
    ensures
        !pool_valid_step(m, PoolEvent::Submit(id)),
{
}

/// After close the queue only drains: no later state holds more commands
/// than the state at close, and nothing new enters.
pub proof fn lemma_drains_after_close(m: PoolState, t: Seq<PoolEvent>)
    requires
        m.closed,
        pool_valid_trace(m, t),
    ensures
        pool_run(m, t).queue.len() <= m.queue.len(),
        submitted(t).len() == 0,
    decreases t.len(),
{
    if t.len() > 0 {
        lemma_drains_after_close(pool_step(m, t[0]), t.subrange(1, t.len() as int));
    }
}

/// One dequeue per remaining command.
pub open spec fn drain_trace(n: nat) -> Seq<PoolEvent> {
    Seq::new(n, |i| PoolEvent::Dequeue)
}

/// Shutdown completeness: from any closed state, dequeuing each remaining
/// command is a valid run that ends closed and empty — the point at which
/// every worker's blocking receive reports end-of-stream and the worker
/// terminates, letting shutdown join every worker thread.
pub proof fn lemma_shutdown_drains_to_empty(m: PoolState)
    requires
        m.closed,
    ensures
        pool_valid_trace(m, drain_trace(m.queue.len())),
        pool_run(m, drain_trace(m.queue.len())).queue.len() == 0,
        pool_run(m, drain_trace(m.queue.len())).closed,
    decreases m.queue.len(),
{
    let t = drain_trace(m.queue.len());
    if m.queue.len() > 0 {
        let m2 = pool_step(m, PoolEvent::Dequeue);
        lemma_shutdown_drains_to_empty(m2);
        assert(t.subrange(1, t.len() as int) =~= drain_trace(m2.queue.len()));
    }
}

} // verus!
