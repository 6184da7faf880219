//! Test points: output pins that the firmware can flip to be watched with
//! an oscilloscope.

use vstd::prelude::*;
use crate::soc::bus::{one_write, RegisterBus};

verus! {

/// Number of test points.
pub const TEST_POINTS: usize = 32;

/// The single bit of test point `n`.
pub open spec fn point_bit(n: usize) -> u32 {
    1u32 << n
}

/// The test points and the levels last given to them.
pub struct TestPoints {
    p: u32,
    v: u32,
}

impl TestPoints {
    /// The test points at address `p`, all taken to be low.
    pub fn new(p: u32) -> (points: Self)
        ensures
            points.address() == p,
            points.levels() == 0,
    {
        Self { p, v: 0 }
    }

    /// The address of the register that drives the pins.
    pub closed spec fn address(&self) -> u32 {
        self.p
    }

    /// The levels last given to the pins, one bit each.
    pub closed spec fn levels(&self) -> u32 {
        self.v
    }

    /// Flips test point `n`.
    pub fn toggle<B: RegisterBus>(&mut self, bus: &mut B, n: usize)
        requires
            n < TEST_POINTS,
        ensures
            final(self).address() == old(self).address(),
            final(self).levels() == old(self).levels() ^ point_bit(n),
            one_write(old(bus).accesses(), final(bus).accesses(), final(self).address(), final(self).levels()),
    {
        self.v ^= 1u32 << n;
        self.set_value(bus, self.v);
    }

    /// Drives test point `n` high.
    pub fn set<B: RegisterBus>(&mut self, bus: &mut B, n: usize)
        requires
            n < TEST_POINTS,
        ensures
            final(self).address() == old(self).address(),
            final(self).levels() == old(self).levels() | point_bit(n),
            one_write(old(bus).accesses(), final(bus).accesses(), final(self).address(), final(self).levels()),
    {
        self.v |= 1u32 << n;
        self.set_value(bus, self.v);
    }

    /// Drives test point `n` low.
    pub fn clear<B: RegisterBus>(&mut self, bus: &mut B, n: usize)
        requires
            n < TEST_POINTS,
        ensures
            final(self).address() == old(self).address(),
            final(self).levels() == old(self).levels() & !point_bit(n),
            one_write(old(bus).accesses(), final(bus).accesses(), final(self).address(), final(self).levels()),
    {
        self.v &= !(1u32 << n);
        self.set_value(bus, self.v);
    }

    fn set_value<B: RegisterBus>(&self, bus: &mut B, value: u32)
        ensures
            one_write(old(bus).accesses(), final(bus).accesses(), self.address(), value),
    {
        bus.write(self.p, value);
    }
}

/// Setting a test point and clearing it again leaves the other points as
/// they were, and the point itself low; toggling twice changes nothing.
pub proof fn lemma_point_operations(levels: u32, n: usize)
    requires
        n < TEST_POINTS,
    ensures
        ((levels | point_bit(n)) & !point_bit(n)) == levels & !point_bit(n),
        ((levels ^ point_bit(n)) ^ point_bit(n)) == levels,
        (levels | point_bit(n)) & point_bit(n) == point_bit(n),
        (levels & !point_bit(n)) & point_bit(n) == 0,
{
    let bit = point_bit(n);
    assert(((levels | bit) & !bit) == levels & !bit) by (bit_vector);
    assert(((levels ^ bit) ^ bit) == levels) by (bit_vector);
    assert((levels | bit) & bit == bit) by (bit_vector);
    assert((levels & !bit) & bit == 0) by (bit_vector);
}

} // verus!
