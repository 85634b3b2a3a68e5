//! The lifecycle of a single command, and the laws it obeys.
//!
//! A command moves `Constructed → Queued → Dispatched → {Cancelled,
//! Executing} → {Cancelled, Completed}`. This module states that machine
//! over ghost traces and proves the laws the executable path is built to
//! honour: along any run, the storage engine is asked at most once and at
//! most one result is delivered; when the worker observes the cancellation
//! at dispatch, the query is never issued at all; and the two terminal
//! states absorb the command.
//!
//! The executable counterpart is `pool::handle_get`: its cancellation fast
//! path is `ObserveCancel`, its blocking lookup is `BeginQuery`, and its
//! send on the command's own sender is `Deliver` or, when the send fails,
//! `DropMidQuery`.

use vstd::prelude::*;

verus! {

/// The states one command passes through.
#[derive(PartialEq, Eq, Structural, Clone, Copy, Debug)]
pub enum CmdState {
    /// Built by the submitter; the result slot is still empty.
    Constructed,
    /// Accepted by the bounded channel.
    Queued,
    /// Dequeued by a worker, cancellation not yet checked.
    Dispatched,
    /// The blocking storage call is running.
    Executing,
    /// The result was delivered to the submitter. Terminal.
    Completed,
    /// The submitter abandoned the command. Terminal.
    Cancelled,
}

/// The events that move one command between states.
#[derive(PartialEq, Eq, Structural, Clone, Copy, Debug)]
pub enum CmdEvent {
    /// The bounded channel accepted the command.
    Enqueue,
    /// A worker dequeued the command.
    Dequeue,
    /// The cancellation fast path: the worker found the receiver already
    /// dropped, before paying for the query.
    ObserveCancel,
    /// The worker found the receiver live and issued the blocking query.
    BeginQuery,
    /// The storage call returned and the result reached the submitter.
    Deliver,
    /// The receiver was dropped during the blocking call, detected when the
    /// send failed; the result was discarded.
    DropMidQuery,
}

/// Whether the event can happen in the state.
pub open spec fn valid_step(s: CmdState, e: CmdEvent) -> bool {
    match (s, e) {
        (CmdState::Constructed, CmdEvent::Enqueue) => true,
        (CmdState::Queued, CmdEvent::Dequeue) => true,
        (CmdState::Dispatched, CmdEvent::ObserveCancel) => true,
        (CmdState::Dispatched, CmdEvent::BeginQuery) => true,
        (CmdState::Executing, CmdEvent::Deliver) => true,
        (CmdState::Executing, CmdEvent::DropMidQuery) => true,
        _ => false,
    }
}

/// The state the event leads to.
pub open spec fn step(s: CmdState, e: CmdEvent) -> CmdState {
    match e {
        CmdEvent::Enqueue => CmdState::Queued,
        CmdEvent::Dequeue => CmdState::Dispatched,
        CmdEvent::ObserveCancel => CmdState::Cancelled,
        CmdEvent::BeginQuery => CmdState::Executing,
        CmdEvent::Deliver => CmdState::Completed,
        CmdEvent::DropMidQuery => CmdState::Cancelled,
    }
}

/// Terminal states deallocate the command; nothing follows them.
pub open spec fn is_terminal(s: CmdState) -> bool {
    s is Completed || s is Cancelled
}

/// Every event of the trace is valid from the state it is taken in.
pub open spec fn valid_trace(s: CmdState, t: Seq<CmdEvent>) -> bool
    decreases t.len(),
{
    t.len() == 0 || (valid_step(s, t[0]) && valid_trace(step(s, t[0]), t.subrange(1, t.len() as int)))
}

/// How many times the trace issues the blocking query.
pub open spec fn count_queries(t: Seq<CmdEvent>) -> nat
    decreases t.len(),
{
    if t.len() == 0 {
        0
    } else {
        (if t[0] is BeginQuery {
            1nat
        } else {
            0nat
        }) + count_queries(t.subrange(1, t.len() as int))
    }
}

/// How many times the trace delivers a result to the submitter.
pub open spec fn count_deliveries(t: Seq<CmdEvent>) -> nat
    decreases t.len(),
{
    if t.len() == 0 {
        0
    } else {
        (if t[0] is Deliver {
            1nat
        } else {
            0nat
        }) + count_deliveries(t.subrange(1, t.len() as int))
    }
}

/// How many times the trace takes the cancellation fast path.
pub open spec fn count_cancel_observations(t: Seq<CmdEvent>) -> nat
    decreases t.len(),
{
    if t.len() == 0 {
        0
    } else {
        (if t[0] is ObserveCancel {
            1nat
        } else {
            0nat
        }) + count_cancel_observations(t.subrange(1, t.len() as int))
    }
}

/// How many queries a run from the state may still issue.
pub open spec fn query_budget(s: CmdState) -> nat {
    match s {
        CmdState::Constructed => 1,
        CmdState::Queued => 1,
        CmdState::Dispatched => 1,
        CmdState::Executing => 0,
        CmdState::Completed => 0,
        CmdState::Cancelled => 0,
    }
}

/// How many deliveries a run from the state may still make.
pub open spec fn delivery_budget(s: CmdState) -> nat {
    match s {
        CmdState::Constructed => 1,
        CmdState::Queued => 1,
        CmdState::Dispatched => 1,
        CmdState::Executing => 1,
        CmdState::Completed => 0,
        CmdState::Cancelled => 0,
    }
}

/// How many dispatch decisions — fast-path cancellations or queries — a run
/// from the state may still take.
pub open spec fn decision_budget(s: CmdState) -> nat {
    match s {
        CmdState::Constructed => 1,
        CmdState::Queued => 1,
        CmdState::Dispatched => 1,
        CmdState::Executing => 0,
        CmdState::Completed => 0,
        CmdState::Cancelled => 0,
    }
}

proof fn lemma_query_budget(s: CmdState, t: Seq<CmdEvent>)
    requires
        valid_trace(s, t),
    ensures
        count_queries(t) <= query_budget(s),
    decreases t.len(),
{
    if t.len() > 0 {
        lemma_query_budget(step(s, t[0]), t.subrange(1, t.len() as int));
    }
}

proof fn lemma_delivery_budget(s: CmdState, t: Seq<CmdEvent>)
    requires
        valid_trace(s, t),
    ensures
        count_deliveries(t) <= delivery_budget(s),
    decreases t.len(),
{
    if t.len() > 0 {
        lemma_delivery_budget(step(s, t[0]), t.subrange(1, t.len() as int));
    }
}

proof fn lemma_decision_budget(s: CmdState, t: Seq<CmdEvent>)
    requires
        valid_trace(s, t),
    ensures
        count_queries(t) + count_cancel_observations(t) <= decision_budget(s),
    decreases t.len(),
{
    if t.len() > 0 {
        lemma_decision_budget(step(s, t[0]), t.subrange(1, t.len() as int));
    }
}

proof fn lemma_cancel_observation_present(t: Seq<CmdEvent>, i: int)
    requires
        0 <= i < t.len(),
        t[i] is ObserveCancel,
    ensures
        count_cancel_observations(t) >= 1,
    decreases t.len(),
{
    if i > 0 {
        lemma_cancel_observation_present(t.subrange(1, t.len() as int), i - 1);
    }
}

/// At-most-once execution: along any run of one command from construction,
/// the storage engine is asked at most once, and at most one result is
/// delivered to the submitter.
pub proof fn lemma_at_most_once(t: Seq<CmdEvent>)
    requires
        valid_trace(CmdState::Constructed, t),
    ensures
        count_queries(t) <= 1,
        count_deliveries(t) <= 1,
{
    lemma_query_budget(CmdState::Constructed, t);
    lemma_delivery_budget(CmdState::Constructed, t);
}

/// Cancellation elides work: when a run of one command takes the fast path —
/// the worker finds the receiver already dropped at dispatch — the run never
/// issues the query, and nothing is delivered.
pub proof fn lemma_cancel_elides_work(t: Seq<CmdEvent>, i: int)
    requires
        valid_trace(CmdState::Constructed, t),
        0 <= i < t.len(),
        t[i] is ObserveCancel,
    ensures
        count_queries(t) == 0,
        count_deliveries(t) == 0,
{
    lemma_cancel_observation_present(t, i);
    lemma_decision_budget(CmdState::Constructed, t);
    lemma_no_delivery_without_query(CmdState::Constructed, t);
}

/// A result can only be delivered after the query was issued: the deliveries
/// of a run never outnumber its queries, starting anywhere but mid-call.
proof fn lemma_no_delivery_without_query(s: CmdState, t: Seq<CmdEvent>)
    requires
        valid_trace(s, t),
        !(s is Executing),
    ensures
        count_deliveries(t) <= count_queries(t),
    decreases t.len(),
{
    if t.len() > 0 {
        let rest = t.subrange(1, t.len() as int);
        if t[0] is BeginQuery {
            lemma_delivery_budget(step(s, t[0]), rest);
        } else {
            lemma_no_delivery_without_query(step(s, t[0]), rest);
        }
    }
}

/// Completed and Cancelled are terminal: no event applies to them, so both
/// end the command for good.
pub proof fn lemma_terminal_states_absorb(s: CmdState, e: CmdEvent)
    requires
        is_terminal(s),
    ensures
        !valid_step(s, e),
{
}

} // verus!
