//! The USB endpoint interfaces of the system-on-chip.
//!
//! The low byte of a register is what the byte-wide getters return.

use vstd::prelude::*;
use crate::soc::bus::{last_value, one_read, one_write, register_address, RegisterBus};
use crate::soc::peripheral::Peripheral;

verus! {

/// The interface through which the device sends data to the host.
pub struct USBEndpointIn {
    p: Peripheral,
}

impl USBEndpointIn {
    pub fn new(p: u32) -> (endpoint: Self)
        ensures
            endpoint.base() == p,
    {
        Self { p: Peripheral::new(p) }
    }

    /// The address of register 0.
    pub closed spec fn base(&self) -> u32 {
        self.p.base()
    }

    /// Puts one byte into the transmit FIFO.
    pub fn write_fifo<B: RegisterBus>(&self, bus: &mut B, v: u8)
        ensures
            one_write(old(bus).accesses(), final(bus).accesses(), register_address(self.base(), 0), v as u32),
    {
        self.p.register_write(bus, 0, v as u32);
    }

    /// Sends what the FIFO holds from endpoint `endpoint`.
    pub fn transmit<B: RegisterBus>(&self, bus: &mut B, endpoint: u8)
        ensures
            one_write(old(bus).accesses(), final(bus).accesses(), register_address(self.base(), 1), endpoint as u32),
    {
        self.p.register_write(bus, 1, endpoint as u32);
    }

    /// Empties the FIFO.
    pub fn reset<B: RegisterBus>(&self, bus: &mut B)
        ensures
            one_write(old(bus).accesses(), final(bus).accesses(), register_address(self.base(), 2), 1),
    {
        self.p.register_write(bus, 2, 1);
    }

    /// Makes the endpoint answer with STALL.
    pub fn set_stall<B: RegisterBus>(&self, bus: &mut B)
        ensures
            one_write(old(bus).accesses(), final(bus).accesses(), register_address(self.base(), 3), 1),
    {
        self.p.register_write(bus, 3, 1);
    }

    /// Ends the STALL condition.
    pub fn clear_stall<B: RegisterBus>(&self, bus: &mut B)
        ensures
            one_write(old(bus).accesses(), final(bus).accesses(), register_address(self.base(), 3), 0),
    {
        self.p.register_write(bus, 3, 0);
    }

    /// Tells whether the endpoint has nothing left to send.
    pub fn is_idle<B: RegisterBus>(&self, bus: &mut B) -> (result: bool)
        ensures
            one_read(old(bus).accesses(), final(bus).accesses(), register_address(self.base(), 4)),
            result == (last_value(final(bus).accesses()) != 0),
    {
        self.p.register_read(bus, 4) != 0
    }

    /// Tells whether the transmit FIFO is empty.
    pub fn is_fifo_empty<B: RegisterBus>(&self, bus: &mut B) -> (result: bool)
        ensures
            one_read(old(bus).accesses(), final(bus).accesses(), register_address(self.base(), 5)),
            result == (last_value(final(bus).accesses()) == 0),
    {
        self.p.register_read(bus, 5) == 0
    }

    /// Tells whether the endpoint has raised its interrupt.
    pub fn is_interrupt_pending<B: RegisterBus>(&self, bus: &mut B) -> (result: bool)
        ensures
            one_read(old(bus).accesses(), final(bus).accesses(), register_address(self.base(), 6)),
            result == (last_value(final(bus).accesses()) != 0),
    {
        self.p.register_read(bus, 6) != 0
    }

    /// The data PID of the next packet.
    pub fn get_pid<B: RegisterBus>(&self, bus: &mut B) -> (result: u8)
        ensures
            one_read(old(bus).accesses(), final(bus).accesses(), register_address(self.base(), 7)),
            result == last_value(final(bus).accesses()) % 256,
    {
        (self.p.register_read(bus, 7) % 256) as u8
    }

    /// Sets the data PID of the next packet.
    pub fn set_pid<B: RegisterBus>(&self, bus: &mut B, pid: u8)
        ensures
            one_write(old(bus).accesses(), final(bus).accesses(), register_address(self.base(), 7), pid as u32),
    {
        self.p.register_write(bus, 7, pid as u32);
    }
}

/// The interface through which the device receives data from the host.
pub struct USBEndpointOut {
    p: Peripheral,
}

impl USBEndpointOut {
    pub fn new(p: u32) -> (endpoint: Self)
        ensures
            endpoint.base() == p,
    {
        Self { p: Peripheral::new(p) }
    }

    /// The address of register 0.
    pub closed spec fn base(&self) -> u32 {
        self.p.base()
    }

    /// The next byte of the receive FIFO.
    pub fn get_data<B: RegisterBus>(&self, bus: &mut B) -> (result: u8)
        ensures
            one_read(old(bus).accesses(), final(bus).accesses(), register_address(self.base(), 0)),
            result == last_value(final(bus).accesses()) % 256,
    {
        (self.p.register_read(bus, 0) % 256) as u8
    }

    /// The endpoint that the data in the FIFO was sent to.
    pub fn get_data_ep<B: RegisterBus>(&self, bus: &mut B) -> (result: u8)
        ensures
            one_read(old(bus).accesses(), final(bus).accesses(), register_address(self.base(), 1)),
            result == last_value(final(bus).accesses()) % 256,
    {
        (self.p.register_read(bus, 1) % 256) as u8
    }

    /// Empties the FIFO.
    pub fn reset<B: RegisterBus>(&self, bus: &mut B)
        ensures
            one_write(old(bus).accesses(), final(bus).accesses(), register_address(self.base(), 2), 1),
    {
        self.p.register_write(bus, 2, 1);
    }

    /// The endpoint that the settings below apply to.
    pub fn get_epno<B: RegisterBus>(&self, bus: &mut B) -> (result: u8)
        ensures
            one_read(old(bus).accesses(), final(bus).accesses(), register_address(self.base(), 3)),
            result == last_value(final(bus).accesses()) % 256,
    {
        (self.p.register_read(bus, 3) % 256) as u8
    }

    /// Chooses the endpoint that the settings below apply to.
    pub fn set_epno<B: RegisterBus>(&self, bus: &mut B, v: u8)
        ensures
            one_write(old(bus).accesses(), final(bus).accesses(), register_address(self.base(), 3), v as u32),
    {
        self.p.register_write(bus, 3, v as u32);
    }

    /// Whether the interface receives at all.
    pub fn get_enable<B: RegisterBus>(&self, bus: &mut B) -> (result: u8)
        ensures
            one_read(old(bus).accesses(), final(bus).accesses(), register_address(self.base(), 4)),
            result == last_value(final(bus).accesses()) % 256,
    {
        (self.p.register_read(bus, 4) % 256) as u8
    }

    /// Lets the interface receive, or stops it.
    pub fn set_enable<B: RegisterBus>(&self, bus: &mut B, v: u8)
        ensures
            one_write(old(bus).accesses(), final(bus).accesses(), register_address(self.base(), 4), v as u32),
    {
        self.p.register_write(bus, 4, v as u32);
    }

    /// Readies the chosen endpoint for one more packet.
    pub fn set_prime<B: RegisterBus>(&self, bus: &mut B, v: u8)
        ensures
            one_write(old(bus).accesses(), final(bus).accesses(), register_address(self.base(), 5), v as u32),
    {
        self.p.register_write(bus, 5, v as u32);
    }

    /// Whether the chosen endpoint answers with STALL.
    pub fn get_stall<B: RegisterBus>(&self, bus: &mut B) -> (result: u8)
        ensures
            one_read(old(bus).accesses(), final(bus).accesses(), register_address(self.base(), 6)),
            result == last_value(final(bus).accesses()) % 256,
    {
        (self.p.register_read(bus, 6) % 256) as u8
    }

    /// Makes the chosen endpoint answer with STALL, or ends that.
    pub fn set_stall<B: RegisterBus>(&self, bus: &mut B, v: u8)
        ensures
            one_write(old(bus).accesses(), final(bus).accesses(), register_address(self.base(), 6), v as u32),
    {
        self.p.register_write(bus, 6, v as u32);
    }

    /// Whether the FIFO holds data.
    pub fn get_have<B: RegisterBus>(&self, bus: &mut B) -> (result: u8)
        ensures
            one_read(old(bus).accesses(), final(bus).accesses(), register_address(self.base(), 7)),
            result == last_value(final(bus).accesses()) % 256,
    {
        (self.p.register_read(bus, 7) % 256) as u8
    }

    /// Writes the register that tells whether the FIFO holds data.
    pub fn set_have<B: RegisterBus>(&self, bus: &mut B, v: u8)
        ensures
            one_write(old(bus).accesses(), final(bus).accesses(), register_address(self.base(), 7), v as u32),
    {
        self.p.register_write(bus, 7, v as u32);
    }

    /// Whether the interrupt is pending.
    pub fn get_pend<B: RegisterBus>(&self, bus: &mut B) -> (result: u8)
        ensures
            one_read(old(bus).accesses(), final(bus).accesses(), register_address(self.base(), 8)),
            result == last_value(final(bus).accesses()) % 256,
    {
        (self.p.register_read(bus, 8) % 256) as u8
    }

    /// Writes the register that tells whether the interrupt is pending.
    pub fn set_pend<B: RegisterBus>(&self, bus: &mut B, v: u8)
        ensures
            one_write(old(bus).accesses(), final(bus).accesses(), register_address(self.base(), 8), v as u32),
    {
        self.p.register_write(bus, 8, v as u32);
    }

    /// The data PID that the chosen endpoint expects next.
    pub fn get_pid<B: RegisterBus>(&self, bus: &mut B) -> (result: u8)
        ensures
            one_read(old(bus).accesses(), final(bus).accesses(), register_address(self.base(), 9)),
            result == last_value(final(bus).accesses()) % 256,
    {
        (self.p.register_read(bus, 9) % 256) as u8
    }

    /// Sets the data PID that the chosen endpoint expects next.
    pub fn set_pid<B: RegisterBus>(&self, bus: &mut B, v: u8)
        ensures
            one_write(old(bus).accesses(), final(bus).accesses(), register_address(self.base(), 9), v as u32),
    {
        self.p.register_write(bus, 9, v as u32);
    }

    /// Hands the chosen endpoint to the given owner.
    pub fn set_owner<B: RegisterBus>(&self, bus: &mut B, v: u8)
        ensures
            one_write(old(bus).accesses(), final(bus).accesses(), register_address(self.base(), 10), v as u32),
    {
        self.p.register_write(bus, 10, v as u32);
    }

    /// The event status register.
    pub fn get_ev_status<B: RegisterBus>(&self, bus: &mut B) -> (result: u32)
        ensures
            one_read(old(bus).accesses(), final(bus).accesses(), register_address(self.base(), 11)),
            result == last_value(final(bus).accesses()),
    {
        self.p.register_read(bus, 11)
    }

    /// The events that are pending.
    pub fn get_ev_pending<B: RegisterBus>(&self, bus: &mut B) -> (result: u32)
        ensures
            one_read(old(bus).accesses(), final(bus).accesses(), register_address(self.base(), 12)),
            result == last_value(final(bus).accesses()),
    {
        self.p.register_read(bus, 12)
    }

    /// Acknowledges the given events.
    pub fn set_ev_pending<B: RegisterBus>(&self, bus: &mut B, v: u32)
        ensures
            one_write(old(bus).accesses(), final(bus).accesses(), register_address(self.base(), 12), v),
    {
        self.p.register_write(bus, 12, v);
    }

    /// The events that raise the interrupt.
    pub fn get_ev_enable<B: RegisterBus>(&self, bus: &mut B) -> (result: u32)
        ensures
            one_read(old(bus).accesses(), final(bus).accesses(), register_address(self.base(), 13)),
            result == last_value(final(bus).accesses()),
    {
        self.p.register_read(bus, 13)
    }

    /// Chooses the events that raise the interrupt.
    pub fn set_ev_enable<B: RegisterBus>(&self, bus: &mut B, v: u32)
        ensures
            one_write(old(bus).accesses(), final(bus).accesses(), register_address(self.base(), 13), v),
    {
        self.p.register_write(bus, 13, v);
    }
}

} // verus!
