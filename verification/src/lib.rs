//! Client/server orchestration layer for a private information retrieval
//! scheme. The cryptographic work itself is done by an opaque external
//! engine reached across a foreign boundary; this crate holds the logic
//! around that boundary: the parameter tuples forwarded to the engine, the
//! bounds and length checks the engine does not enforce, and the accounting
//! that sees every engine-allocated buffer copied out whole and released
//! exactly once.

use vstd::prelude::*;

mod boundary;
mod client;
mod server;

pub use boundary::BufferLedger;
pub use boundary::EngineBuffer;
pub use client::PirClient;
pub use server::PirServer;

verus! {

/// Default branching factor forwarded to the engine when the caller names none.
pub const DEFAULT_ALPHA: u64 = 8;

/// Default recursion depth forwarded to the engine when the caller names none.
pub const DEFAULT_DEPTH: u64 = 2;

/// A serialized query produced by the client and consumed by the server.
/// Opaque beyond its byte length and shard count; immutable once produced.
pub struct PirQuery {
    pub query: Vec<u8>,
    pub num: u64,
}

/// A serialized reply produced by the server and consumed by the client.
/// Opaque beyond its byte length and shard count; immutable once produced.
pub struct PirReply {
    pub reply: Vec<u8>,
    pub num: u64,
}

/// The exact argument tuple forwarded to the engine's setup and update
/// calls: total database byte length, element count, and the scheme-tuning
/// branching factor and recursion depth, which this layer does not
/// interpret.
#[derive(Clone, Copy, Debug, PartialEq, Eq, Structural)]
pub struct EngineParams {
    pub len: u64,
    pub num: u64,
    pub alpha: u64,
    pub depth: u64,
}

/// The tuple this layer forwards for a database of `num` elements of `size`
/// bytes each: the total byte length is always `size * num`, and `alpha` and
/// `depth` pass through untouched.
pub open spec fn shape_params(size: u64, num: u64, alpha: u64, depth: u64) -> EngineParams {
    EngineParams { len: (size * num) as u64, num: num, alpha: alpha, depth: depth }
}

/// A round trip adds nothing on top of the engine. Let `process` stand for
/// what the server-side engine makes of a query payload, and `decode` for
/// what the client-side engine makes of a reply payload. The contracts of
/// `PirClient::gen_query`, `PirServer::gen_reply` and
/// `PirClient::decode_reply` (or `decode_reply_to_vec`) say that every
/// stage hands its payload on byte for byte — those contracts are exactly
/// the hypotheses here — so the value the caller receives is precisely the
/// engine's own composition applied to the engine's query buffer. Whenever
/// the engine round-trips an index to the collection's element at that
/// index, the orchestrated round trip therefore returns exactly that
/// element; whether it does is the engine's own correctness, out of this
/// layer's scope.
pub proof fn lemma_round_trip_faithful(
    query_buf: Seq<u8>,
    q: PirQuery,
    process: spec_fn(Seq<u8>) -> Seq<u8>,
    r: PirReply,
    decode: spec_fn(Seq<u8>) -> Seq<u8>,
    v: Seq<u8>,
)
    requires
        q.query@ == query_buf,
        r.reply@ == process(q.query@),
        v == decode(r.reply@),
    ensures
        v == decode(process(query_buf)),
{
}

} // verus!
