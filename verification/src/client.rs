//! The client component. It owns one exclusively-owned engine handle
//! (created, updated in place, and finally torn down by the engine across
//! the foreign boundary) and remembers the element count of the database it
//! believes the server holds. The handle itself lives on the unverified
//! side of the boundary; here stands everything this layer decides about
//! it: which parameter tuples the engine calls are given, which indices a
//! query may be generated for, and how the engine's buffers become owned
//! `PirQuery` values and decoded results, each buffer released exactly
//! once.

use vstd::prelude::*;

use crate::boundary::BufferLedger;
use crate::boundary::EngineBuffer;
use crate::shape_params;
use crate::EngineParams;
use crate::PirQuery;
use crate::DEFAULT_ALPHA;
use crate::DEFAULT_DEPTH;

verus! {

/// Client-side orchestration state: the element count of the database the
/// client was last pointed at. Every bounds decision is made against it.
pub struct PirClient {
    num: u64,
}

impl PirClient {
    /// The element count the client currently believes the server holds.
    pub closed spec fn num(&self) -> u64 {
        self.num
    }

    /// The client state after being pointed at a database of `num` elements.
    pub closed spec fn pointed_at(self, num: u64) -> PirClient {
        PirClient { num }
    }

    /// Client for a database of `num` elements of `size` bytes each, with
    /// the default scheme parameters. The returned tuple is the exact
    /// argument list for the engine's client setup call, which yields the
    /// handle this state stands beside.
    pub fn new(size: u64, num: u64) -> (r: (PirClient, EngineParams))
        requires
            size * num <= u64::MAX,
        ensures
            r.0.num() == num,
            r.1 == shape_params(size, num, DEFAULT_ALPHA, DEFAULT_DEPTH),
    {
        let params = EngineParams { len: size * num, num, alpha: DEFAULT_ALPHA, depth: DEFAULT_DEPTH };
        (PirClient { num }, params)
    }

    /// As `new`, with explicit scheme-tuning parameters, forwarded to the
    /// engine untouched.
    pub fn with_params(size: u64, num: u64, alpha: u64, depth: u64) -> (r: (PirClient, EngineParams))
        requires
            size * num <= u64::MAX,
        ensures
            r.0.num() == num,
            r.1 == shape_params(size, num, alpha, depth),
    {
        let params = EngineParams { len: size * num, num, alpha, depth };
        (PirClient { num }, params)
    }

    /// Point the client at a new database shape. The remembered element
    /// count changes to `num`, and the returned tuple is the argument list
    /// for the engine's in-place parameter update on the existing handle;
    /// no new handle is created. Queries and replies produced against the
    /// old shape are not valid against the new one.
    pub fn update_params(&mut self, size: u64, num: u64, alpha: u64, depth: u64) -> (p: EngineParams)
        requires
            size * num <= u64::MAX,
        ensures
            *final(self) == old(self).pointed_at(num),
            final(self).num() == num,
            p == shape_params(size, num, alpha, depth),
    {
        self.num = num;
        EngineParams { len: size * num, num, alpha, depth }
    }

    /// True when `index` lies within the declared range for query
    /// generation. An index strictly greater than the element count is a
    /// contract violation, never silently truncated or wrapped; the exact
    /// boundary index equal to the count is tolerated by this layer.
    pub fn index_within_bounds(&self, index: u64) -> (r: bool)
        ensures
            r == (index <= self.num()),
    {
        index <= self.num
    }

    /// Finish query generation for `index`: take the engine's query buffer
    /// and its reported shard count, release the buffer exactly once, and
    /// wrap the payload unchanged into an owned `PirQuery` of exactly the
    /// reported length.
    pub fn gen_query(&self, index: u64, buffer: EngineBuffer, shards: u64, ledger: &mut BufferLedger) -> (q: PirQuery)
        requires
            index <= self.num(),
            old(ledger).outstanding() > 0,
        ensures
            q.query@ == buffer@,
            q.query@.len() == buffer@.len(),
            q.num == shards,
            final(ledger).releases() == old(ledger).releases() + 1,
            final(ledger).allocations() == old(ledger).allocations(),
    {
        let bytes = buffer.release(ledger);
        PirQuery { query: bytes, num: shards }
    }

    /// True when the engine's decoded buffer has exactly the byte length the
    /// caller expects of its fixed-size value shape. A fixed-shape decode is
    /// a contract violation without it.
    pub fn decoded_len_matches(&self, buffer: &EngineBuffer, expected_len: usize) -> (r: bool)
        ensures
            r == (buffer@.len() == expected_len),
    {
        buffer.reported_len() == expected_len
    }

    /// Finish a fixed-shape decode: the engine's decoded buffer must hold
    /// exactly `expected_len` bytes — a mismatch means the wrong value shape
    /// was requested against this reply and is a fatal contract violation,
    /// not a recoverable error. Releases the buffer exactly once and hands
    /// back the decoded value unchanged.
    pub fn decode_reply(&self, expected_len: usize, buffer: EngineBuffer, ledger: &mut BufferLedger) -> (v: Vec<u8>)
        requires
            buffer@.len() == expected_len,
            old(ledger).outstanding() > 0,
        ensures
            v@ == buffer@,
            v@.len() == expected_len,
            final(ledger).releases() == old(ledger).releases() + 1,
            final(ledger).allocations() == old(ledger).allocations(),
    {
        buffer.release(ledger)
    }

    /// Finish an untyped decode: release the engine's decoded buffer exactly
    /// once and hand back its payload as a variable-length byte sequence,
    /// unchanged and of exactly the reported length.
    pub fn decode_reply_to_vec(&self, buffer: EngineBuffer, ledger: &mut BufferLedger) -> (v: Vec<u8>)
        requires
            old(ledger).outstanding() > 0,
        ensures
            v@ == buffer@,
            final(ledger).releases() == old(ledger).releases() + 1,
            final(ledger).allocations() == old(ledger).allocations(),
    {
        buffer.release(ledger)
    }
}

/// Updating the client twice to the same shape leaves it exactly as one
/// update does, and — since the tuple forwarded to the engine is a pure
/// function of the arguments — both updates forward the engine the same
/// tuple. Every operation's contract depends on the client state alone, so
/// subsequent query and decode behavior after the second update is
/// identical to the behavior after the first.
pub proof fn lemma_update_params_idempotent(c: PirClient, num: u64)
    ensures
        c.pointed_at(num).pointed_at(num) == c.pointed_at(num),
        c.pointed_at(num).num() == num,
{
}

} // verus!
