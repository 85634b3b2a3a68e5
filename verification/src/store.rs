//! The storage column a command queries.
//!
//! The pool treats the storage engine as an opaque blocking lookup surface:
//! one logical column (keyspace) answering `get_blocking`. This crate models
//! a column as an in-memory record log whose meaning is a map from keys to
//! values; a lookup may block the calling thread, which is exactly why the
//! pool confines it to dedicated worker threads.

use vstd::prelude::*;

use crate::handle::Handle;

verus! {

/// Errors the storage engine reports for a point lookup.
#[derive(PartialEq, Eq, Structural, Clone, Copy, Debug)]
pub enum DbError {
    /// The key is not present in the column.
    NotFound,
}

/// One logical column (keyspace) of the storage engine.
///
/// Writes are appended as records; a later record for a key overrides an
/// earlier one. The column's meaning, `self@`, is the map those records
/// denote.
pub struct DbMap {
    entries: Vec<(Vec<u8>, Vec<u8>)>,
}

/// What a lookup of key `k` against column contents `m` answers: the stored
/// bytes when the key is present, nothing when it is not. The answer is a
/// function of the command's own column and key alone.
pub open spec fn response_spec(m: Map<Seq<u8>, Seq<u8>>, k: Seq<u8>) -> Option<Seq<u8>> {
    if m.contains_key(k) {
        Some(m[k])
    } else {
        None
    }
}

/// The mapping a record log denotes: later records override earlier ones.
pub open spec fn records_view(s: Seq<(Vec<u8>, Vec<u8>)>) -> Map<Seq<u8>, Seq<u8>>
    decreases s.len(),
{
    if s.len() == 0 {
        Map::empty()
    } else {
        records_view(s.drop_last()).insert(s.last().0@, s.last().1@)
    }
}

impl View for DbMap {
    type V = Map<Seq<u8>, Seq<u8>>;

    closed spec fn view(&self) -> Map<Seq<u8>, Seq<u8>> {
        records_view(self.entries@)
    }
}

/// A key absent from every record is absent from the denoted map.
proof fn lemma_absent_key(s: Seq<(Vec<u8>, Vec<u8>)>, k: Seq<u8>)
    requires
        forall|j: int| 0 <= j < s.len() ==> s[j].0@ != k,
    ensures
        !records_view(s).contains_key(k),
    decreases s.len(),
{
    if s.len() > 0 {
        lemma_absent_key(s.drop_last(), k);
    }
}

/// The latest record for a key decides the denoted map at that key.
proof fn lemma_latest_record(s: Seq<(Vec<u8>, Vec<u8>)>, i: int, k: Seq<u8>)
    requires
        0 <= i < s.len(),
        s[i].0@ == k,
        forall|j: int| i < j < s.len() ==> s[j].0@ != k,
    ensures
        records_view(s).contains_key(k),
        records_view(s)[k] == s[i].1@,
    decreases s.len(),
{
    if i < s.len() - 1 {
        lemma_latest_record(s.drop_last(), i, k);
    }
}

/// Byte-buffer equality.
fn bytes_equal(a: &Vec<u8>, b: &Vec<u8>) -> (r: bool)
    ensures
        r == (a@ == b@),
{
    if a.len() != b.len() {
        return false;
    }
    let n = a.len();
    let mut i: usize = 0;
    while i < n
        invariant
            i <= n,
            n == a@.len(),
            n == b@.len(),
            forall|j: int| 0 <= j < i ==> a@[j] == b@[j],
        decreases n - i,
    {
        if a[i] != b[i] {
            return false;
        }
        i = i + 1;
    }
    proof {
        assert(a@ =~= b@);
    }
    true
}

/// Copy of a byte buffer.
fn copy_bytes(src: &Vec<u8>) -> (r: Vec<u8>)
    ensures
        r@ == src@,
{
    let n = src.len();
    let mut out: Vec<u8> = Vec::new();
    let mut i: usize = 0;
    while i < n
        invariant
            i <= n,
            n == src@.len(),
            out@ == src@.subrange(0, i as int),
        decreases n - i,
    {
        out.push(src[i]);
        proof {
            assert(out@ =~= src@.subrange(0, i + 1 as int));
        }
        i = i + 1;
    }
    proof {
        assert(src@.subrange(0, n as int) =~= src@);
    }
    out
}

impl DbMap {
    /// An empty column.
    pub fn new() -> (m: DbMap)
        ensures
            m@ == Map::<Seq<u8>, Seq<u8>>::empty(),
    {
        DbMap { entries: Vec::new() }
    }

    /// Record a value for a key, overriding any earlier record.
    pub fn insert(&mut self, key: Vec<u8>, value: Vec<u8>)
        ensures
            final(self)@ == old(self)@.insert(key@, value@),
    {
        self.entries.push((key, value));
        proof {
            assert(self.entries@.drop_last() =~= old(self).entries@);
        }
    }

    /// Synchronous point lookup; on the real engine this call may block the
    /// calling thread for the duration of compaction or I/O.
    ///
    /// Returns a handle onto the stored value, or `NotFound` when the column
    /// holds no record for the key.
    pub fn get_blocking(&self, key: &Vec<u8>) -> (r: Result<Handle, DbError>)
        ensures
            (match r {
                Ok(h) => response_spec(self@, key@) == Some(h@),
                Err(e) => response_spec(self@, key@) is None && e == DbError::NotFound,
            }),
    {
        let n = self.entries.len();
        let mut i: usize = n;
        while i > 0
            invariant
                i <= n,
                n == self.entries@.len(),
                forall|j: int| i <= j < n ==> self.entries@[j].0@ != key@,
            decreases i,
        {
            i = i - 1;
            if bytes_equal(&self.entries[i].0, key) {
                proof {
                    lemma_latest_record(self.entries@, i as int, key@);
                }
                return Ok(Handle::new(copy_bytes(&self.entries[i].1)));
            }
        }
        proof {
            lemma_absent_key(self.entries@, key@);
        }
        Err(DbError::NotFound)
    }
}

} // verus!
