//! A block of 32-bit registers at a base address.

use vstd::prelude::*;
use crate::soc::bus::{one_read, one_write, last_value, register_address, RegisterBus};

verus! {

/// A peripheral whose registers lie one after the other from a base
/// address.
pub struct Peripheral {
    p: u32,
}

impl Peripheral {
    pub fn new(p: u32) -> (peripheral: Self)
        ensures
            peripheral.base() == p,
    {
        Self { p }
    }

    /// The address of register 0.
    pub closed spec fn base(&self) -> u32 {
        self.p
    }

    /// The address of register `n`.
    pub fn address(&self, n: u32) -> (address: u32)
        ensures
            address == register_address(self.base(), n),
    {
        ((self.p as u64 + 4 * (n as u64)) % 0x1_0000_0000) as u32
    }

    /// Reads register `n`.
    pub fn register_read<B: RegisterBus>(&self, bus: &mut B, n: u32) -> (value: u32)
        ensures
            one_read(old(bus).accesses(), final(bus).accesses(), register_address(self.base(), n)),
            value == last_value(final(bus).accesses()),
    {
        bus.read(self.address(n))
    }

    /// Writes `v` to register `n`.
    pub fn register_write<B: RegisterBus>(&self, bus: &mut B, n: u32, v: u32)
        ensures
            one_write(old(bus).accesses(), final(bus).accesses(), register_address(self.base(), n), v),
    {
        bus.write(self.address(n), v)
    }
}

} // verus!
