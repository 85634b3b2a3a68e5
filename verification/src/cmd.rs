//! Commands and their result channels.
//!
//! A submitter builds a `Cmd` with an empty result slot; the pool installs
//! the sending half of a fresh one-shot channel immediately before enqueue
//! (`prepare`). The submitter never sees the sender half, cannot drop it
//! independently of the receiver, and cannot send the same command twice.

use vstd::prelude::*;

use std::sync::Arc;

use crate::handle::Handle;
use crate::store::DbError;
use crate::store::DbMap;

verus! {

/// What a command delivers to its submitter: a handle on success, or the
/// storage engine's error passed through verbatim.
pub type Response = Result<Handle, DbError>;

/// The sending half of a command's one-shot result channel; it travels with
/// the queued command to the worker.
pub type ResultSender = futures::channel::oneshot::Sender<Response>;

/// The receiving half of a command's one-shot result channel; it stays with
/// the submitting task.
pub type ResultReceiver = futures::channel::oneshot::Receiver<Response>;

/// A point-lookup request as the submitter builds it.
pub struct Get {
    /// The column to query, shared read-only across commands.
    pub map: Arc<DbMap>,
    /// The key to look up.
    pub key: Vec<u8>,
    /// The result sender: absent at construction, installed by the pool
    /// immediately before enqueue.
    pub res: Option<ResultSender>,
}

/// A request to the pool.
pub enum Cmd {
    /// A blocking point lookup.
    Get(Get),
}

/// A get command as it travels the bounded channel: the result sender is
/// installed and can no longer be absent.
pub struct QueuedGet {
    /// The column to query.
    pub map: Arc<DbMap>,
    /// The key to look up.
    pub key: Vec<u8>,
    /// The sender the worker answers on.
    pub res: ResultSender,
}

/// A command as it travels the bounded channel.
pub enum Queued {
    /// A blocking point lookup, ready for a worker.
    Get(QueuedGet),
}

/// Two commands ask for the same work: same column, same key.
pub open spec fn same_request(a: Cmd, b: Cmd) -> bool {
    match (a, b) {
        (Cmd::Get(x), Cmd::Get(y)) => x.map == y.map && x.key == y.key,
    }
}

impl Cmd {
    /// A point-lookup command; the result slot starts empty.
    pub fn get(map: Arc<DbMap>, key: Vec<u8>) -> (c: Cmd)
        ensures
            (match c {
                Cmd::Get(g) => g.map == map && g.key == key && g.res is None,
            }),
    {
        Cmd::Get(Get { map, key, res: None })
    }
}

/// Install a fresh result sender into a command, making it ready to enqueue.
/// Whatever sender was present is discarded: a prior value is a programmer
/// error, since the pool alone fills the slot.
pub fn prepare(cmd: Cmd, res: ResultSender) -> (q: Queued)
    ensures
        (match (cmd, q) {
            (Cmd::Get(g), Queued::Get(p)) => p.map == g.map && p.key == g.key && p.res == res,
        }),
{
    match cmd {
        Cmd::Get(g) => Queued::Get(QueuedGet { map: g.map, key: g.key, res }),
    }
}

/// Strip the result sender back out of a queued command, handing the request
/// back to the submitter with its slot empty again.
pub fn unprepare(q: Queued) -> (c: Cmd)
    ensures
        (match (q, c) {
            (Queued::Get(p), Cmd::Get(g)) => g.map == p.map && g.key == p.key && g.res is None,
        }),
{
    match q {
        Queued::Get(p) => Cmd::Get(Get { map: p.map, key: p.key, res: None }),
    }
}

} // verus!
