//! The interface of a sound chip that a memory may map into the address space.

use vstd::prelude::*;

verus! {

/// A sound synthesizer that is driven by register writes and asked for samples
/// as time passes. The engine never calls it; a memory that maps one into the
/// address space does.
pub trait Sid {
    /// Runs the chip for up to `delta` cycles and writes samples to `buffer`.
    /// Returns the number of samples written and the cycles left over.
    fn samples(&mut self, delta: u32, buffer: &mut [i16]) -> (usize, u32);

    /// Writes `value` to the register at `address`.
    fn write(&mut self, address: u8, value: u8);
}

/// A sound chip that stays silent: it produces no samples and drops writes.
pub struct FakeSid();

impl Sid for FakeSid {
    fn samples(&mut self, _delta: u32, buffer: &mut [i16]) -> (produced: (usize, u32))
        ensures
            produced == (0usize, 0u32),
            final(buffer)@ == old(buffer)@,
    {
        (0, 0)
    }

    fn write(&mut self, _address: u8, _value: u8) {
    }
}

impl FakeSid {
    pub fn new() -> (sid: FakeSid)
        ensures
            sid == FakeSid(),
    {
        FakeSid()
    }
}

} // verus!
