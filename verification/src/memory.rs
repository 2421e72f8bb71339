//! The byte-addressable memory bus.
//!
//! Every cycle of the execution core performs exactly one bus transaction: a
//! load, a store, or a dummy load whose value is discarded but whose
//! occurrence is part of the hardware contract (memory-mapped peripherals may
//! observe it). The bus therefore records each transaction in order, so that
//! contracts and tests can speak of the exact trace.

use vstd::prelude::*;

verus! {

/// One transaction on the memory bus: a read that returned a byte, or a
/// write of a byte, each at a 16-bit address.
#[derive(Clone, Copy, PartialEq, Eq, Structural, Debug)]
pub enum BusOp {
    Read(u16, u8),
    Write(u16, u8),
}

/// The full 64 KiB address space, together with the ordered record of every
/// bus transaction performed on it.
pub struct MemoryBus {
    data: Vec<u8>,
    activity: Vec<BusOp>,
}

impl MemoryBus {
    /// The bytes held in memory, addressable from 0x0000 to 0xFFFF.
    pub closed spec fn contents(self) -> Seq<u8> {
        self.data@
    }

    /// Every bus transaction performed so far, oldest first.
    pub closed spec fn trace(self) -> Seq<BusOp> {
        self.activity@
    }

    /// The bus covers the whole 16-bit address space.
    pub closed spec fn wf(self) -> bool {
        self.data@.len() == 0x10000
    }

    /// A fresh bus: all 64 KiB zeroed, no transactions yet.
    pub fn new() -> (r: MemoryBus)
        ensures
            r.wf(),
            r.contents().len() == 0x10000,
            forall|i: int| 0 <= i < 0x10000 ==> r.contents()[i] == 0u8,
            r.trace() == Seq::<BusOp>::empty(),
    {
        let mut data: Vec<u8> = Vec::new();
        while data.len() < 0x10000
            invariant
                data@.len() <= 0x10000,
                forall|i: int| 0 <= i < data@.len() ==> data@[i] == 0u8,
            decreases 0x10000 - data@.len(),
        {
            data.push(0u8);
        }
        MemoryBus { data, activity: Vec::new() }
    }

    /// Read the byte at `addr` as a bus transaction; the read is appended to
    /// the trace and the contents are unchanged.
    pub fn load(&mut self, addr: u16) -> (r: u8)
        requires
            old(self).wf(),
        ensures
            final(self).wf(),
            r == old(self).contents()[addr as int],
            final(self).contents() == old(self).contents(),
            final(self).trace() == old(self).trace().push(BusOp::Read(addr, r)),
    {
        let value = self.data[addr as usize];
        self.activity.push(BusOp::Read(addr, value));
        value
    }

    /// Write `value` at `addr` as a bus transaction, appended to the trace.
    pub fn store(&mut self, addr: u16, value: u8)
        requires
            old(self).wf(),
        ensures
            final(self).wf(),
            final(self).contents() == old(self).contents().update(addr as int, value),
            final(self).trace() == old(self).trace().push(BusOp::Write(addr, value)),
    {
        self.data.set(addr as usize, value);
        self.activity.push(BusOp::Write(addr, value));
    }

    /// Set a byte directly, without a bus transaction: for harnesses that
    /// prepare memory before execution.
    pub fn poke(&mut self, addr: u16, value: u8)
        requires
            old(self).wf(),
        ensures
            final(self).wf(),
            final(self).contents() == old(self).contents().update(addr as int, value),
            final(self).trace() == old(self).trace(),
    {
        self.data.set(addr as usize, value);
    }

    /// Read a byte directly, without a bus transaction: for harnesses that
    /// inspect memory after execution.
    pub fn peek(&self, addr: u16) -> (r: u8)
        requires
            self.wf(),
        ensures
            r == self.contents()[addr as int],
    {
        self.data[addr as usize]
    }

    /// How many bus transactions have been performed.
    pub fn trace_len(&self) -> (r: usize)
        ensures
            r == self.trace().len(),
    {
        self.activity.len()
    }

    /// The `i`-th bus transaction, oldest first.
    pub fn trace_at(&self, i: usize) -> (r: BusOp)
        requires
            i < self.trace().len(),
        ensures
            r == self.trace()[i as int],
    {
        self.activity[i]
    }
}

} // verus!
