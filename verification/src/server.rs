//! The server component. It owns one exclusively-owned engine handle bound
//! at construction to a specific database snapshot: the engine's setup call
//! ingests a copy of the caller's collection, which is borrowed only for
//! the duration of that call and never referenced afterward. The handle
//! lives on the unverified side of the boundary; here stands the shape the
//! handle was built with, the tuples the setup call is given, and how the
//! engine's reply buffers become owned `PirReply` values, each buffer
//! released exactly once.

use vstd::prelude::*;

use crate::boundary::BufferLedger;
use crate::boundary::EngineBuffer;
use crate::shape_params;
use crate::EngineParams;
use crate::PirReply;
use crate::DEFAULT_ALPHA;
use crate::DEFAULT_DEPTH;

verus! {

/// Server-side orchestration state: the shape tuple the engine handle was
/// built with. The database contents themselves live only inside the
/// engine's own copy.
pub struct PirServer {
    params: EngineParams,
}

impl PirServer {
    /// The shape tuple this server's engine handle was built with.
    pub closed spec fn params(&self) -> EngineParams {
        self.params
    }

    /// Server over a collection of `num` elements of `size` bytes each,
    /// with the default scheme parameters. The returned tuple is the exact
    /// argument list for the engine's server setup call, which ingests the
    /// collection and yields the handle this state stands beside.
    pub fn new(size: u64, num: u64) -> (r: (PirServer, EngineParams))
        requires
            size * num <= u64::MAX,
        ensures
            r.1 == shape_params(size, num, DEFAULT_ALPHA, DEFAULT_DEPTH),
            r.0.params() == r.1,
    {
        let params = EngineParams { len: size * num, num, alpha: DEFAULT_ALPHA, depth: DEFAULT_DEPTH };
        (PirServer { params }, params)
    }

    /// As `new`, with explicit scheme-tuning parameters, forwarded to the
    /// engine untouched.
    pub fn with_params(size: u64, num: u64, alpha: u64, depth: u64) -> (r: (PirServer, EngineParams))
        requires
            size * num <= u64::MAX,
        ensures
            r.1 == shape_params(size, num, alpha, depth),
            r.0.params() == r.1,
    {
        let params = EngineParams { len: size * num, num, alpha, depth };
        (PirServer { params }, params)
    }

    /// As `with_params`, for a caller that holds the collection as a raw
    /// contiguous byte region of `num` elements of `size` bytes each rather
    /// than a typed sequence; the ingestion contract is the same. Matches
    /// the raw form's argument order, count before element size.
    pub fn from_raw_with_params(num: u64, size: u64, alpha: u64, depth: u64) -> (r: (PirServer, EngineParams))
        requires
            size * num <= u64::MAX,
        ensures
            r.1 == shape_params(size, num, alpha, depth),
            r.0.params() == r.1,
    {
        let params = EngineParams { len: size * num, num, alpha, depth };
        (PirServer { params }, params)
    }

    /// Finish reply generation: take the engine's reply buffer for a
    /// submitted query and its reported shard count, release the buffer
    /// exactly once, and wrap the payload unchanged into an owned
    /// `PirReply` of exactly the reported length. The database itself is
    /// untouched: the server state is the same before and after.
    pub fn gen_reply(&self, buffer: EngineBuffer, shards: u64, ledger: &mut BufferLedger) -> (r: PirReply)
        requires
            old(ledger).outstanding() > 0,
        ensures
            r.reply@ == buffer@,
            r.reply@.len() == buffer@.len(),
            r.num == shards,
            final(ledger).releases() == old(ledger).releases() + 1,
            final(ledger).allocations() == old(ledger).allocations(),
    {
        let bytes = buffer.release(ledger);
        PirReply { reply: bytes, num: shards }
    }
}

} // verus!
