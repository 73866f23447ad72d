use vstd::prelude::*;

use crate::memory::Memory;

verus! {

/// A byte payload exchanged with the engine — run options going in, run
/// metadata coming back — built on dual-mode [`Memory`]. A buffer this side
/// fills is caller-owned; one the engine wrote during a run is foreign, and
/// taking its bytes out copies them rather than stealing engine storage.
#[derive(Debug)]
pub struct Buffer {
    memory: Memory<u8>,
}

impl Buffer {
    /// The payload bytes.
    pub closed spec fn spec_bytes(&self) -> Seq<u8> {
        self.memory@
    }

    /// Whether the backing storage is owned by this side.
    pub closed spec fn spec_owned(&self) -> bool {
        self.memory.spec_owned()
    }

    /// Wrap caller-supplied bytes as an owned buffer.
    pub fn new(data: Vec<u8>) -> (b: Buffer)
        ensures
            b.spec_bytes() == data@,
            b.spec_owned(),
    {
        Buffer { memory: Memory::new(data) }
    }

    /// Wrap the contents of an engine-written region as a foreign buffer.
    pub fn from_foreign(data: Vec<u8>) -> (b: Buffer)
        ensures
            b.spec_bytes() == data@,
            !b.spec_owned(),
    {
        Buffer { memory: Memory::adopt(data) }
    }

    /// The payload bytes.
    pub fn as_bytes(&self) -> (b: &Vec<u8>)
        ensures
            b@ == self.spec_bytes(),
    {
        self.memory.as_vec()
    }

    /// The payload length.
    pub fn len(&self) -> (n: usize)
        ensures
            n == self.spec_bytes().len(),
    {
        self.memory.len()
    }

    /// Re-point this buffer at a region the engine rewrote: after a call the
    /// engine may have reallocated its side of the buffer, so the local view
    /// must be resynchronised rather than trusted. The previous contents are
    /// dropped (if owned) or left with the engine (if foreign).
    pub fn reset(&mut self, data: Vec<u8>)
        ensures
            final(self).spec_bytes() == data@,
            !final(self).spec_owned(),
    {
        self.memory = Memory::adopt(data);
    }

    /// Take the bytes out, copying if the engine owns the storage; the
    /// buffer is left empty and caller-owned.
    pub fn empty(&mut self) -> (b: Vec<u8>)
        ensures
            b@ == old(self).spec_bytes(),
            final(self).spec_bytes() == Seq::<u8>::empty(),
            final(self).spec_owned(),
    {
        self.memory.empty()
    }
}

} // verus!
