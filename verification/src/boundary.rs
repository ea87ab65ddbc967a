//! The buffer transfer protocol. Whenever the engine returns a result it
//! hands over a buffer it allocated itself, together with the length it
//! reports for it. Before the operation returns, this layer must copy the
//! contents into an owned container of exactly the reported length and give
//! the original buffer back to the engine exactly once: never zero times,
//! never twice. `EngineBuffer` stands for one such buffer after the copy,
//! still owing its single release, and `BufferLedger` counts acquisitions
//! and releases so the balance can be stated and checked.

use vstd::prelude::*;

verus! {

/// Running count of buffers the engine has handed across the boundary and
/// of buffers given back to it. A ledger is balanced when every acquired
/// buffer has been released; a release is only ever counted while a buffer
/// is outstanding, so nothing is released that was never acquired.
pub struct BufferLedger {
    allocated: u64,
    released: u64,
}

impl BufferLedger {
    /// How many buffers have crossed the boundary so far.
    pub closed spec fn allocations(&self) -> u64 {
        self.allocated
    }

    /// How many buffers have been given back so far.
    pub closed spec fn releases(&self) -> u64 {
        self.released
    }

    /// Buffers still held on this side of the boundary.
    pub open spec fn outstanding(&self) -> int {
        self.allocations() - self.releases()
    }

    /// Every buffer the engine handed out has been given back.
    pub open spec fn balanced(&self) -> bool {
        self.allocations() == self.releases()
    }

    /// A fresh ledger: nothing acquired, nothing released.
    pub fn new() -> (l: BufferLedger)
        ensures
            l.allocations() == 0,
            l.releases() == 0,
    {
        BufferLedger { allocated: 0, released: 0 }
    }

    /// How many buffers have crossed the boundary so far.
    pub fn allocation_count(&self) -> (n: u64)
        ensures
            n == self.allocations(),
    {
        self.allocated
    }

    /// How many buffers have been given back so far.
    pub fn release_count(&self) -> (n: u64)
        ensures
            n == self.releases(),
    {
        self.released
    }

    /// True when every acquired buffer has been released.
    pub fn is_balanced(&self) -> (r: bool)
        ensures
            r == self.balanced(),
    {
        self.allocated == self.released
    }
}

/// An engine-allocated buffer after it has crossed the boundary: the
/// payload, copied out to exactly the length the engine reported, still
/// owing one release back to the engine. Ownership is unique, so the
/// release can happen only once; the type's view is the payload itself.
pub struct EngineBuffer {
    bytes: Vec<u8>,
}

impl View for EngineBuffer {
    type V = Seq<u8>;

    closed spec fn view(&self) -> Seq<u8> {
        self.bytes@
    }
}

impl EngineBuffer {
    /// Record one buffer crossing the boundary. `bytes` must hold the
    /// buffer's contents copied out to exactly the engine-reported length;
    /// the acquisition is counted on the ledger.
    pub fn acquire(bytes: Vec<u8>, ledger: &mut BufferLedger) -> (b: EngineBuffer)
        requires
            old(ledger).allocations() < u64::MAX,
        ensures
            b@ == bytes@,
            final(ledger).allocations() == old(ledger).allocations() + 1,
            final(ledger).releases() == old(ledger).releases(),
    {
        ledger.allocated = ledger.allocated + 1;
        EngineBuffer { bytes }
    }

    /// Surrender the buffer: count its one release on the ledger and hand
    /// back the payload. Consuming `self` by value is what makes a second
    /// release impossible.
    pub fn release(self, ledger: &mut BufferLedger) -> (bytes: Vec<u8>)
        requires
            old(ledger).outstanding() > 0,
        ensures
            bytes@ == self@,
            final(ledger).releases() == old(ledger).releases() + 1,
            final(ledger).allocations() == old(ledger).allocations(),
    {
        ledger.released = ledger.released + 1;
        self.bytes
    }

    /// The length the engine reported for this buffer, which is exactly the
    /// length of the copied payload.
    pub fn reported_len(&self) -> (n: usize)
        ensures
            n == self@.len(),
    {
        self.bytes.len()
    }
}

} // verus!
