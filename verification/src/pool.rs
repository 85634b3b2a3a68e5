//! The pool: construction, submission, the worker body, and shutdown.
//!
//! The pool owns a bounded command channel shared by all submitters and all
//! workers. A submitter installs a one-shot result channel into its command,
//! enqueues it — suspending when the channel is full, which is the designed
//! backpressure — and waits on its receiver. Each dedicated worker thread
//! repeats `worker_step`: blocking-receive a command, take the cancellation
//! fast path when the submitter is gone, otherwise run the blocking lookup
//! and answer on the command's own sender. The worker threads themselves are
//! owned by the embedder, which runs one worker body per thread and joins
//! them after `close`.

use vstd::prelude::*;

use crate::chan::channel_bounded;
use crate::chan::channel_capacity;
use crate::chan::channel_close;
use crate::chan::channel_is_empty;
use crate::chan::channel_len;
use crate::chan::channel_recv_blocking;
use crate::chan::channel_send_blocking;
use crate::chan::channel_try_send;
use crate::chan::oneshot_is_canceled;
use crate::chan::oneshot_pair;
use crate::chan::oneshot_send;
use crate::chan::oneshot_try_recv;
use crate::chan::TrySendFailure;
use crate::cmd::prepare;
use crate::cmd::same_request;
use crate::cmd::unprepare;
use crate::cmd::Cmd;
use crate::cmd::Queued;
use crate::cmd::QueuedGet;
use crate::cmd::Response;
use crate::cmd::ResultReceiver;
use crate::handle::Handle;
use crate::store::response_spec;
use crate::store::DbError;

verus! {

/// Smallest accepted command-queue capacity.
pub const QUEUE_MIN: usize = 1;

/// Largest accepted command-queue capacity.
pub const QUEUE_MAX: usize = 8192;

/// Smallest accepted worker count.
pub const WORKER_MIN: usize = 1;

/// Largest accepted worker count.
pub const WORKER_MAX: usize = 512;

/// `v` forced into `[lo, hi]`.
pub open spec fn clamped(v: usize, lo: usize, hi: usize) -> usize {
    if v < lo {
        lo
    } else if v > hi {
        hi
    } else {
        v
    }
}

/// Clamp a configuration value to its documented bounds.
fn clamp(v: usize, lo: usize, hi: usize) -> (r: usize)
    requires
        lo <= hi,
    ensures
        r == clamped(v, lo, hi),
{
    if v < lo {
        lo
    } else if v > hi {
        hi
    } else {
        v
    }
}

/// The errors a submitter sees from the pool.
#[derive(PartialEq, Eq, Structural, Clone, Copy, Debug)]
pub enum PoolError {
    /// The bounded channel refused the command: the pool is shutting down or
    /// shut down.
    SubmissionFailed,
    /// The result sender was dropped without a value: the worker was lost
    /// mid-query.
    WorkerLost,
    /// The storage engine returned an error, passed through verbatim.
    Storage(DbError),
}

/// A non-waiting submission the pool refused; the request is handed back
/// with its result slot empty.
pub enum TrySubmitError {
    /// The channel is full: the waiting form would suspend here.
    Full(Cmd),
    /// The channel is closed: the waiting form would fail here.
    Closed(Cmd),
}

/// What a worker did with one dequeued get command.
#[derive(PartialEq, Eq, Structural, Clone, Copy, Debug)]
pub enum GetOutcome {
    /// The submitter had already dropped its receiver when the command was
    /// dispatched: the query was elided, the storage engine was never asked.
    Elided,
    /// The query ran and the result was delivered to the submitter; `found`
    /// says whether the key was present.
    Delivered { found: bool },
    /// The query ran, but the submitter dropped its receiver during the
    /// blocking call; the result was discarded. `found` says whether the key
    /// was present.
    DroppedMidQuery { found: bool },
}

/// What one worker iteration saw.
#[derive(PartialEq, Eq, Structural, Clone, Copy, Debug)]
pub enum WorkerStep {
    /// A command was dequeued and handled to a terminal state.
    Handled(GetOutcome),
    /// The channel is closed and drained: the worker must terminate.
    Closed,
}

/// The pool: the bounded command channel and the configured sizes.
pub struct Pool {
    send: async_channel::Sender<Queued>,
    recv: async_channel::Receiver<Queued>,
    queue_size: usize,
    worker_num: usize,
}

/// Dispatch one queued get on the calling (worker) thread.
///
/// Fast path first: when the submitter has already dropped its receiver, the
/// command is abandoned and the query cost is elided. Otherwise the blocking
/// lookup runs against the command's own column and key, and the response —
/// found or not — is sent on the command's own sender; a send that fails at
/// that point means the submitter cancelled during the query, which is
/// acceptable and discards the result.
pub fn handle_get(g: QueuedGet) -> (r: GetOutcome)
    ensures
        (r matches GetOutcome::Delivered { found } ==> found == (response_spec(g.map@, g.key@)
            is Some)),
        (r matches GetOutcome::DroppedMidQuery { found } ==> found == (response_spec(
            g.map@,
            g.key@,
        ) is Some)),
{
    if oneshot_is_canceled(&g.res) {
        return GetOutcome::Elided;
    }
    let result = g.map.get_blocking(&g.key);
    let found = result.is_ok();
    match oneshot_send(g.res, result) {
        Ok(()) => GetOutcome::Delivered { found },
        Err(_) => GetOutcome::DroppedMidQuery { found },
    }
}

/// Turn what the submitter's one-shot receiver yielded into the pool's
/// result: the worker's response verbatim, with a storage error passed
/// through, or `WorkerLost` when the sender was dropped without a value.
pub fn completion_result(received: Option<Response>) -> (r: Result<Handle, PoolError>)
    ensures
        (match received {
            None => r == Err::<Handle, PoolError>(PoolError::WorkerLost),
            Some(Ok(h)) => r is Ok && r->Ok_0 == h,
            Some(Err(e)) => r == Err::<Handle, PoolError>(PoolError::Storage(e)),
        }),
{
    match received {
        None => Err(PoolError::WorkerLost),
        Some(Ok(h)) => Ok(h),
        Some(Err(e)) => Err(PoolError::Storage(e)),
    }
}

/// What the submitter of a command over column contents `m` and key `k` ends
/// with once its worker's response is delivered: the stored bytes, or the
/// storage error passed through.
pub open spec fn routed_outcome(m: Map<Seq<u8>, Seq<u8>>, k: Seq<u8>) -> Result<
    Seq<u8>,
    PoolError,
> {
    match response_spec(m, k) {
        Some(v) => Ok(v),
        None => Err(PoolError::Storage(DbError::NotFound)),
    }
}

/// Result routing: the pool result a submitter receives is exactly the
/// worker's answer to that submitter's own command — a function of the
/// command's own column contents and key, untouched by any concurrent
/// command. The first premise is what `DbMap::get_blocking` ensures of the
/// worker's response; the second is what `completion_result` ensures once
/// the command's own one-shot channel has carried that response back; the
/// conclusion pins the submitter's value to the command alone.
pub proof fn lemma_result_routing(
    m: Map<Seq<u8>, Seq<u8>>,
    k: Seq<u8>,
    resp: Response,
    r: Result<Handle, PoolError>,
)
    requires
        (match resp {
            Ok(h) => response_spec(m, k) == Some(h@),
            Err(e) => response_spec(m, k) is None && e == DbError::NotFound,
        }),
        (match resp {
            Ok(h) => r is Ok && r->Ok_0 == h,
            Err(e) => r == Err::<Handle, PoolError>(PoolError::Storage(e)),
        }),
    ensures
        (match r {
            Ok(h) => routed_outcome(m, k) == Ok::<Seq<u8>, PoolError>(h@),
            Err(e) => routed_outcome(m, k) == Err::<Seq<u8>, PoolError>(e),
        }),
{
}

impl Pool {
    /// The capacity the command channel was created with.
    pub closed spec fn spec_queue_size(&self) -> usize {
        self.queue_size
    }

    /// The number of worker threads the pool is sized for.
    pub closed spec fn spec_worker_num(&self) -> usize {
        self.worker_num
    }

    /// The sending half of the command channel, shared by every submitter.
    pub closed spec fn spec_sender(&self) -> async_channel::Sender<Queued> {
        self.send
    }

    /// Well-formedness: both sizes sit within their documented bounds. The
    /// fields are private and nothing mutates them, so what `new` establishes
    /// holds for the pool's whole life.
    pub open spec fn wf(&self) -> bool {
        &&& QUEUE_MIN <= self.spec_queue_size() <= QUEUE_MAX
        &&& WORKER_MIN <= self.spec_worker_num() <= WORKER_MAX
    }

    /// Build a pool: both sizes are clamped to their documented bounds and
    /// the bounded command channel is created with the clamped capacity.
    /// The embedder then spawns `worker_num()` dedicated threads, each
    /// repeating `worker_step` until it reports `Closed`.
    pub fn new(queue_size: usize, worker_num: usize) -> (p: Pool)
        ensures
            p.wf(),
            p.spec_queue_size() == clamped(queue_size, QUEUE_MIN, QUEUE_MAX),
            p.spec_worker_num() == clamped(worker_num, WORKER_MIN, WORKER_MAX),
    {
        let q = clamp(queue_size, QUEUE_MIN, QUEUE_MAX);
        let w = clamp(worker_num, WORKER_MIN, WORKER_MAX);
        let (send, recv) = channel_bounded(q);
        Pool { send, recv, queue_size: q, worker_num: w }
    }

    /// The clamped command-queue capacity.
    pub fn queue_size(&self) -> (n: usize)
        ensures
            n == self.spec_queue_size(),
    {
        self.queue_size
    }

    /// The clamped worker count.
    pub fn worker_num(&self) -> (n: usize)
        ensures
            n == self.spec_worker_num(),
    {
        self.worker_num
    }

    /// Submit one command: install a fresh one-shot result channel and move
    /// the command into the bounded channel, blocking while the channel is
    /// full — the pool's backpressure. Returns the receiver to wait on, or
    /// `SubmissionFailed` when the channel is closed.
    pub fn submit(&self, cmd: Cmd) -> (r: Result<ResultReceiver, PoolError>)
        ensures
            r is Err ==> r->Err_0 == PoolError::SubmissionFailed,
    {
        let (tx, rx) = oneshot_pair();
        let q = prepare(cmd, tx);
        match channel_send_blocking(&self.send, q) {
            Ok(()) => Ok(rx),
            Err(_) => Err(PoolError::SubmissionFailed),
        }
    }

    /// Submit without waiting: where `submit` would suspend on a full
    /// channel or fail on a closed one, this hands the same request back.
    pub fn try_submit(&self, cmd: Cmd) -> (r: Result<ResultReceiver, TrySubmitError>)
        ensures
            (match r {
                Ok(_) => true,
                Err(TrySubmitError::Full(c)) => same_request(c, cmd),
                Err(TrySubmitError::Closed(c)) => same_request(c, cmd),
            }),
    {
        let (tx, rx) = oneshot_pair();
        let q = prepare(cmd, tx);
        match channel_try_send(&self.send, q) {
            Ok(()) => Ok(rx),
            Err(TrySendFailure::Full(m)) => Err(TrySubmitError::Full(unprepare(m))),
            Err(TrySendFailure::Closed(m)) => Err(TrySubmitError::Closed(unprepare(m))),
        }
    }

    /// The sending half of the command channel. An embedder whose submission
    /// path must suspend rather than block pairs this with `prepare`: install
    /// a fresh one-shot sender, then await the channel's own send — the same
    /// two steps `submit` takes, with the backpressure wait suspending the
    /// task instead of blocking the thread.
    pub fn sender(&self) -> (r: &async_channel::Sender<Queued>)
        ensures
            r == self.spec_sender(),
    {
        &self.send
    }

    /// One worker iteration: blocking-receive one command and handle it, or
    /// learn that the channel is closed and drained. The worker body is this
    /// step repeated: each dedicated worker thread calls it until it returns
    /// `Closed`, then terminates cleanly.
    pub fn worker_step(&self) -> (r: WorkerStep) {
        match channel_recv_blocking(&self.recv) {
            Some(q) => match q {
                Queued::Get(g) => WorkerStep::Handled(handle_get(g)),
            },
            None => WorkerStep::Closed,
        }
    }

    /// Close the sending half of the channel, exactly once, before the
    /// worker threads are joined: every further submission fails, workers
    /// drain what is queued and then terminate. Returns whether this call
    /// closed the channel; a second close is a misuse the caller may assert
    /// on.
    pub fn close(&self) -> (r: bool) {
        channel_close(&self.send)
    }

    /// Snapshot: whether the command channel currently holds no commands.
    /// After `close` and worker termination this is permanently true.
    pub fn channel_empty(&self) -> (r: bool) {
        channel_is_empty(&self.send)
    }

    /// Snapshot: how many commands the channel currently holds; never more
    /// than `queue_size()`.
    pub fn occupancy(&self) -> (n: usize) {
        channel_len(&self.send)
    }

    /// The capacity of the underlying channel, as the channel reports it.
    pub fn channel_capacity(&self) -> (r: Option<usize>) {
        channel_capacity(&self.send)
    }
}

/// Poll a submitter's receiver without waiting: `None` while the worker has
/// not yet answered; otherwise the completed pool result.
pub fn take_result(rx: &mut ResultReceiver) -> (r: Option<Result<Handle, PoolError>>) {
    match oneshot_try_recv(rx) {
        Ok(Some(resp)) => Some(completion_result(Some(resp))),
        Ok(None) => None,
        Err(_) => Some(completion_result(None)),
    }
}

} // verus!
