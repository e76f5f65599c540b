//! The memory that the processor works on.

use vstd::prelude::*;

verus! {

/// A byte-addressable store that services every 16-bit address.
///
/// An implementor gives a model of its state as its view, and describes its
/// behaviour by two specification functions on that model: what a read of an
/// address returns, and which state a write leaves. The engine's contracts
/// speak of memory only through them, so they hold of plain RAM and of
/// memory-mapped devices alike.
pub trait Memory: View {
    /// The byte that a read of `address` returns.
    spec fn peek(memory: Self::V, address: u16) -> u8;

    /// The memory that a write of `value` to `address` leaves.
    spec fn poke(memory: Self::V, address: u16, value: u8) -> Self::V;

    fn read(&self, address: u16) -> (value: u8)
        ensures
            value == Self::peek(self@, address),
    ;

    fn write(&mut self, address: u16, value: u8)
        ensures
            final(self)@ == Self::poke(old(self)@, address, value),
    ;
}

/// A memory that holds nothing: every read gives zero and writes are dropped.
pub struct FakeMemory();

impl View for FakeMemory {
    type V = ();

    open spec fn view(&self) -> () {
        ()
    }
}

impl Memory for FakeMemory {
    open spec fn peek(memory: (), address: u16) -> u8 {
        0u8
    }

    open spec fn poke(memory: (), address: u16, value: u8) -> () {
        ()
    }

    fn read(&self, _address: u16) -> (value: u8) {
        0u8
    }

    fn write(&mut self, _address: u16, _value: u8) {
    }
}

impl FakeMemory {
    pub fn new() -> (memory: FakeMemory)
        ensures
            memory == FakeMemory(),
    {
        FakeMemory()
    }
}

/// 64 KiB of plain memory: a read gives what was last written to the address,
/// and zero where nothing was written yet.
pub struct Ram {
    bytes: [u8; 0x10000],
}

impl View for Ram {
    type V = Map<u16, u8>;

    closed spec fn view(&self) -> Map<u16, u8> {
        Map::new(|address: u16| true, |address: u16| self.bytes@[address as int])
    }
}

impl Ram {
    /// A memory of zeros.
    pub fn new() -> (memory: Ram)
        ensures
            memory@ == Map::new(|address: u16| true, |address: u16| 0u8),
    {
        let memory = Ram { bytes: [0u8; 0x10000] };
        assert(memory@ =~= Map::new(|address: u16| true, |address: u16| 0u8));
        memory
    }
}

impl Memory for Ram {
    open spec fn peek(memory: Map<u16, u8>, address: u16) -> u8 {
        memory[address]
    }

    open spec fn poke(memory: Map<u16, u8>, address: u16, value: u8) -> Map<u16, u8> {
        memory.insert(address, value)
    }

    fn read(&self, address: u16) -> (value: u8) {
        self.bytes[address as usize]
    }

    fn write(&mut self, address: u16, value: u8) {
        self.bytes[address as usize] = value;
        assert(self@ =~= old(self)@.insert(address, value));
    }
}

/// Plain memory gives back what was written: a read after a write returns the
/// written value at the written address and the earlier content elsewhere.
pub proof fn lemma_ram_keeps_writes(memory: Map<u16, u8>, address: u16, value: u8, other: u16)
    ensures
        Ram::peek(Ram::poke(memory, address, value), address) == value,
        other != address ==> Ram::peek(Ram::poke(memory, address, value), other) == Ram::peek(
            memory,
            other,
        ),
{
}

} // verus!
