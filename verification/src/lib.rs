//! An asynchronous-to-blocking database access pool.
//!
//! A synchronous key/value storage engine exposes only blocking point
//! lookups, while the surrounding server is cooperatively scheduled. The
//! pool isolates the blocking calls on a dedicated thread population,
//! transports commands over a bounded channel, and routes each result back
//! to its submitter over a per-command one-shot channel.
//!
//! `store` models the storage column and `handle` the values it answers
//! with; `cmd` holds the commands and their result channels; `chan` wraps
//! the channel primitives the pool trusts; `pool` is the pool itself —
//! construction, submission, the worker step, shutdown. `lifecycle` and
//! `flow` state the machines behind one command and behind the shared queue,
//! and prove the laws the executable path is built to honour: at-most-once
//! execution, elided work on cancellation, bounded occupancy, first-in
//! first-out dequeueing, and complete shutdown.

pub mod chan;
pub mod cmd;
pub mod flow;
pub mod handle;
pub mod lifecycle;
pub mod pool;
pub mod store;
