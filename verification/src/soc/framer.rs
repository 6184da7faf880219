//! The control lines of the framer chip, and the window through which its
//! registers are reached.

use vstd::prelude::*;
use crate::framer::device::{DeviceAccess, Error, RegisterAccess, RegisterAddress, RegisterValue};
use crate::soc::bus::{last_value, one_read, one_write, register_address, BusAccess, RegisterBus};

verus! {

/// The reset line and the output-enable line of the framer.
pub struct FramerControl {
    p: u32,
}

impl FramerControl {
    pub fn new(p: u32) -> (control: Self)
        ensures
            control.base() == p,
    {
        Self { p }
    }

    /// The address of the register of the reset line.
    pub closed spec fn base(&self) -> u32 {
        self.p
    }

    /// Holds the framer in reset, or lets it go.
    pub fn set_reset<B: RegisterBus>(&self, bus: &mut B, value: bool)
        ensures
            one_write(
                old(bus).accesses(),
                final(bus).accesses(),
                register_address(self.base(), 0),
                if value { 1u32 } else { 0u32 },
            ),
    {
        bus.write(window_address(self.p, 0), if value { 1 } else { 0 });
    }

    /// Lets the framer drive its outputs, or not.
    pub fn set_outputs_control<B: RegisterBus>(&self, bus: &mut B, value: bool)
        ensures
            one_write(
                old(bus).accesses(),
                final(bus).accesses(),
                register_address(self.base(), 1),
                if value { 1u32 } else { 0u32 },
            ),
    {
        bus.write(window_address(self.p, 1), if value { 1 } else { 0 });
    }
}

fn window_address(base: u32, n: u32) -> (address: u32)
    ensures
        address == register_address(base, n),
{
    ((base as u64 + 4 * (n as u64)) % 0x1_0000_0000) as u32
}

/// The window through which the framer's byte-wide registers are reached:
/// register `n` of the framer is the low byte of word `n` of the window.
#[derive(Copy, Clone)]
pub struct Access {
    p: u32,
}

impl Access {
    pub fn new(p: u32) -> (access: Self)
        ensures
            access.base() == p,
    {
        Self { p }
    }

    /// The address of the word of the framer's register 0.
    pub closed spec fn base(&self) -> u32 {
        self.p
    }

    /// Reads the framer's register `address`.
    pub fn read<B: RegisterBus>(&self, bus: &mut B, address: u16) -> (value: u8)
        ensures
            one_read(old(bus).accesses(), final(bus).accesses(), register_address(self.base(), address as u32)),
            value == last_value(final(bus).accesses()) % 256,
    {
        (bus.read(window_address(self.p, address as u32)) % 256) as u8
    }

    /// Writes `value` to the framer's register `address`.
    pub fn write<B: RegisterBus>(&self, bus: &mut B, address: u16, value: u8)
        ensures
            one_write(
                old(bus).accesses(),
                final(bus).accesses(),
                register_address(self.base(), address as u32),
                value as u32,
            ),
    {
        bus.write(window_address(self.p, address as u32), value as u32);
    }
}

/// The register of the framer whose word lies at `address`, in the window
/// that begins at `base`.
pub open spec fn register_at(base: u32, address: u32) -> RegisterAddress {
    (((address as int - base as int) % 0x1_0000_0000) / 4 % 0x1_0000) as u16
}

/// An access of the bus, seen as an access to a register of the framer
/// through the window that begins at `base`. The window never fails.
pub open spec fn as_register_access(base: u32, access: BusAccess) -> RegisterAccess {
    match access {
        BusAccess::Read { address, value } => RegisterAccess::Read {
            address: register_at(base, address),
            result: Ok((value % 256) as u8),
        },
        BusAccess::Write { address, value } => RegisterAccess::Write {
            address: register_at(base, address),
            value: (value % 256) as u8,
            result: Ok(()),
        },
    }
}

/// The accesses of the bus, seen as accesses to registers of the framer.
pub open spec fn as_register_accesses(base: u32, accesses: Seq<BusAccess>) -> Seq<RegisterAccess> {
    Seq::new(accesses.len(), |i: int| as_register_access(base, accesses[i]))
}

/// Every register of the framer has a word of its own in the window.
pub proof fn lemma_register_at(base: u32, register: RegisterAddress)
    ensures
        register_at(base, register_address(base, register as u32)) == register,
{
    let sum = base as int + 4 * register as int;
    if sum < 0x1_0000_0000 {
        assert(register_address(base, register as u32) == sum);
    } else {
        assert(register_address(base, register as u32) == sum - 0x1_0000_0000);
    }
}

/// The window together with the bus on which it lies: a way to the
/// framer's registers.
pub struct Window<B: RegisterBus> {
    access: Access,
    bus: B,
}

impl<B: RegisterBus> Window<B> {
    /// The window `access` on the bus `bus`.
    pub fn new(access: Access, bus: B) -> (window: Self)
        ensures
            window.base() == access.base(),
            window.bus_accesses() == bus.accesses(),
    {
        Self { access, bus }
    }

    /// The address of the word of the framer's register 0.
    pub closed spec fn base(&self) -> u32 {
        self.access.base()
    }

    /// The accesses of the bus so far.
    pub closed spec fn bus_accesses(&self) -> Seq<BusAccess> {
        self.bus.accesses()
    }

    /// The bus, to look at it.
    pub fn bus(&self) -> (bus: &B)
        ensures
            bus.accesses() == self.bus_accesses(),
    {
        &self.bus
    }
}

impl<B: RegisterBus> DeviceAccess for Window<B> {
    /// The accesses to the framer are the accesses of the bus.
    open spec fn accesses(&self) -> Seq<RegisterAccess> {
        as_register_accesses(self.base(), self.bus_accesses())
    }

    /// Reads the framer's register `address` through the window. This way
    /// never fails.
    fn read(&mut self, address: RegisterAddress) -> (result: Result<RegisterValue, Error>)
        ensures
            final(self).base() == old(self).base(),
            one_read(
                old(self).bus_accesses(),
                final(self).bus_accesses(),
                register_address(old(self).base(), address as u32),
            ),
            result == Ok::<RegisterValue, Error>((last_value(final(self).bus_accesses()) % 256) as u8),
    {
        let access = self.access;
        let value = access.read(&mut self.bus, address);
        proof {
            lemma_register_at(self.base(), address);
            assert(self.accesses() =~= old(self).accesses().push(
                RegisterAccess::Read { address, result: Ok(value) },
            ));
        }
        Ok(value)
    }

    /// Writes `value` to the framer's register `address` through the
    /// window. This way never fails.
    fn write(&mut self, address: RegisterAddress, value: RegisterValue) -> (result: Result<(), Error>)
        ensures
            final(self).base() == old(self).base(),
            one_write(
                old(self).bus_accesses(),
                final(self).bus_accesses(),
                register_address(old(self).base(), address as u32),
                value as u32,
            ),
            result is Ok,
    {
        let access = self.access;
        access.write(&mut self.bus, address, value);
        proof {
            lemma_register_at(self.base(), address);
            assert(self.accesses() =~= old(self).accesses().push(
                RegisterAccess::Write { address, value, result: Ok(()) },
            ));
        }
        Ok(())
    }
}

} // verus!
