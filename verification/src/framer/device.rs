//! The register map of the framer chip, and the way to its registers.
//!
//! The chip has a flat 16-bit address space. Registers of span `N` lie at
//! `0xNxxx`, the line interface registers of span `N` at `0x0fNx`, those of
//! the line interface as a whole at `0x0fex`.

use vstd::prelude::*;

verus! {

pub type RegisterAddress = u16;

pub type RegisterValue = u8;

/// Number of spans of the chip.
pub const CHANNELS_COUNT: usize = 8;

/// Number of timeslots of a span.
pub const TIMESLOTS_COUNT: usize = 24;

/// Offsets of the RDS0MR registers of the 24 timeslots within a span. The
/// set is special: it has a gap at `0xN163`, and skips from `0xN16f` to
/// `0xN1c0`.
pub const RDS0MR_OFFSET_MAP: [usize; 24] = [
    0x15f, 0x160, 0x161, 0x162, 0x164, 0x165, 0x166, 0x167,
    0x168, 0x169, 0x16a, 0x16b, 0x16c, 0x16d, 0x16e, 0x16f,
    0x1c0, 0x1c1, 0x1c2, 0x1c3, 0x1c4, 0x1c5, 0x1c6, 0x1c7,
];

/// Offset of the RDS0MR register of `timeslot` within a span.
pub open spec fn rds0mr_offset(timeslot: int) -> int {
    if timeslot < 4 {
        0x15f + timeslot
    } else if timeslot < 16 {
        0x160 + timeslot
    } else {
        0x1b0 + timeslot
    }
}

proof fn lemma_rds0mr_offset_map(timeslot: int)
    requires
        0 <= timeslot < 24,
    ensures
        RDS0MR_OFFSET_MAP[timeslot] == rds0mr_offset(timeslot),
        RDS0MR_OFFSET_MAP[timeslot] < 0x1000,
{
    assert(timeslot == 0 || timeslot == 1 || timeslot == 2 || timeslot == 3 || timeslot == 4 || timeslot == 5
        || timeslot == 6 || timeslot == 7 || timeslot == 8 || timeslot == 9 || timeslot == 10 || timeslot == 11
        || timeslot == 12 || timeslot == 13 || timeslot == 14 || timeslot == 15 || timeslot == 16 || timeslot
        == 17 || timeslot == 18 || timeslot == 19 || timeslot == 20 || timeslot == 21 || timeslot == 22
        || timeslot == 23);
}

/// The memory map of the chip's microprocessor interface.
pub struct Addressing {}

impl Addressing {
    /// An address as it stands.
    pub fn global(offset: usize) -> (address: usize)
        requires
            offset < 0x10000,
        ensures
            address == offset,
    {
        offset
    }

    /// Registers of the form `0xNxxx`.
    pub fn channel_nxxx(channel: usize, offset: usize) -> (address: usize)
        requires
            channel < CHANNELS_COUNT,
            offset < 0x1000,
        ensures
            address == channel * 0x1000 + offset,
            address < 0x10000,
    {
        assert(((channel << 12usize) | offset) == channel * 0x1000 + offset) by (bit_vector)
            requires
                channel < 8,
                offset < 0x1000,
        ;
        Self::global((channel << 12usize) | offset)
    }

    /// Registers of the form `0xNxxx` where the offset points to a series
    /// of timeslot registers.
    pub fn channel_nxxx_timeslot(channel: usize, block_offset: usize, timeslot: usize) -> (address: usize)
        requires
            channel < CHANNELS_COUNT,
            block_offset % 16 == 0,
            timeslot < TIMESLOTS_COUNT,
            block_offset + timeslot < 0x1000,
        ensures
            address == channel * 0x1000 + block_offset + timeslot,
            address < 0x10000,
    {
        let offset = block_offset + timeslot;
        Self::channel_nxxx(channel, offset)
    }

    /// Registers of the form `0x0fNx`.
    pub fn channel_0fnx(channel: usize, offset: usize) -> (address: usize)
        requires
            channel < CHANNELS_COUNT,
            offset < 16,
        ensures
            address == 0x0f00 + channel * 16 + offset,
    {
        assert((0x0f00usize | (channel << 4usize) | offset) == 0x0f00 + channel * 16 + offset) by (bit_vector)
            requires
                channel < 8,
                offset < 16,
        ;
        let address = 0x0f00usize | (channel << 4usize) | offset;
        Self::global(address)
    }

    /// Registers of the form `0x0fex`.
    pub fn global_0fex(offset: usize) -> (address: usize)
        requires
            offset < 16,
        ensures
            address == 0x0fe0 + offset,
    {
        assert((0x0fe0usize | offset) == 0x0fe0 + offset) by (bit_vector)
            requires
                offset < 16,
        ;
        let address = 0x0fe0usize | offset;
        Self::global(address)
    }

    /// The RDS0MR register of a timeslot.
    pub fn rds0mr(channel: usize, timeslot: usize) -> (address: usize)
        requires
            channel < CHANNELS_COUNT,
            timeslot < TIMESLOTS_COUNT,
        ensures
            address == channel * 0x1000 + rds0mr_offset(timeslot as int),
    {
        proof {
            lemma_rds0mr_offset_map(timeslot as int);
        }
        let offset = RDS0MR_OFFSET_MAP[timeslot];
        Self::channel_nxxx(channel, offset)
    }
}

/// The addresses of different spans do not meet, and those of one span lie
/// in the span's own block of `0x1000`.
pub proof fn lemma_channel_blocks_are_disjoint(channel_a: int, offset_a: int, channel_b: int, offset_b: int)
    requires
        0 <= channel_a < CHANNELS_COUNT,
        0 <= channel_b < CHANNELS_COUNT,
        0 <= offset_a < 0x1000,
        0 <= offset_b < 0x1000,
        channel_a * 0x1000 + offset_a == channel_b * 0x1000 + offset_b,
    ensures
        channel_a == channel_b,
        offset_a == offset_b,
{
}

proof fn lemma_mark(before: u32, after: u32, place: u32, at: u32, marked: bool)
    by (bit_vector)
    ensures
        0u32 >> 0u32 == 0,
        place < 24 && before >> place == 0 && after == (if marked {
            before | (1u32 << place)
        } else {
            before
        }) ==> {
            &&& after >> ((place + 1) as u32) == 0
            &&& ((after >> place) & 1 != 0) == marked
            &&& (at < place ==> (after >> at) & 1 == (before >> at) & 1)
        },
{
}

/// Which timeslots of a span have seen their signaling change.
pub struct RSCRBitmap(pub u32);

impl RSCRBitmap {
    /// Timeslot `index` is marked.
    pub open spec fn is_changed(&self, index: int) -> bool {
        (self.0 >> (index as u32)) & 1 != 0
    }

    /// The bit of timeslot `index` in the three change registers: the
    /// registers hold eight timeslots each, the first in the highest bit.
    pub open spec fn register_bit(registers: [u8; 3], index: int) -> bool {
        (registers[index / 8] >> ((7 - index % 8) as u8)) & 1 != 0
    }

    /// The bitmap that the three receive signaling change registers hold.
    pub fn from_registers(registers: [u8; 3]) -> (bitmap: Self)
        ensures
            forall|index: int|
                0 <= index < 24 ==> bitmap.is_changed(index) == Self::register_bit(registers, index),
    {
        let mut result: u32 = 0;
        let mut i: usize = 0;
        proof {
            lemma_mark(0, 0, 0, 0, false);
        }
        while i < 24
            invariant
                i <= 24,
                forall|index: int|
                    0 <= index < i ==> (#[trigger] ((result >> (index as u32)) & 1) != 0) == Self::register_bit(
                        registers,
                        index,
                    ),
                result >> (i as u32) == 0,
            decreases 24 - i,
        {
            let register = registers[i / 8];
            let shift: u8 = (7 - i % 8) as u8;
            let ghost before = result;
            let place = i as u32;
            if (register >> shift) & 1 != 0 {
                result |= 1u32 << place;
            }
            proof {
                let marked = (register >> shift) & 1 != 0;
                assert forall|index: int| 0 <= index <= i implies (#[trigger] ((result >> (index as u32)) & 1)
                    != 0) == Self::register_bit(registers, index) by {
                    lemma_mark(before, result, place, index as u32, marked);
                }
                lemma_mark(before, result, place, place, marked);
            }
            i += 1;
        }
        RSCRBitmap(result)
    }

    /// Number of timeslots that the bitmap covers.
    pub fn len(&self) -> (length: usize)
        ensures
            length == TIMESLOTS_COUNT,
    {
        24
    }

    /// Tells whether the signaling of timeslot `index` has changed.
    pub fn changed(&self, index: usize) -> (changed: bool)
        requires
            index < TIMESLOTS_COUNT,
        ensures
            changed == self.is_changed(index as int),
    {
        let bit = (self.0 >> (index as u32)) & 1;
        bit != 0
    }
}

/// What can go wrong on the way to a register.
#[derive(Copy, Clone, Debug, PartialEq, Eq, Structural)]
pub enum Error {
    /// Input/output error.
    Io,
    /// Invalid parameter.
    InvalidParam,
    /// Access denied (insufficient permissions).
    Access,
    /// No such device (it may have been disconnected).
    NoDevice,
    /// Entity not found.
    NotFound,
    /// Resource busy.
    Busy,
    /// Operation timed out.
    Timeout,
    /// Overflow.
    Overflow,
    /// Pipe error.
    Pipe,
    /// System call interrupted (perhaps due to signal).
    Interrupted,
    /// Insufficient memory.
    NoMem,
    /// Operation not supported or unimplemented on this platform.
    NotSupported,
    /// Other error.
    Other,
}

/// The error that a status code of the USB stack stands for. Codes run from
/// -1 to -12 in the order of the variants; every other code is
/// [`Error::Other`].
pub open spec fn error_of_code(code: int) -> Error {
    if code == -1 {
        Error::Io
    } else if code == -2 {
        Error::InvalidParam
    } else if code == -3 {
        Error::Access
    } else if code == -4 {
        Error::NoDevice
    } else if code == -5 {
        Error::NotFound
    } else if code == -6 {
        Error::Busy
    } else if code == -7 {
        Error::Timeout
    } else if code == -8 {
        Error::Overflow
    } else if code == -9 {
        Error::Pipe
    } else if code == -10 {
        Error::Interrupted
    } else if code == -11 {
        Error::NoMem
    } else if code == -12 {
        Error::NotSupported
    } else {
        Error::Other
    }
}

/// The error that a status code of the USB stack stands for.
pub fn from_libusb(err: i32) -> (error: Error)
    ensures
        error == error_of_code(err as int),
{
    match err {
        -1 => Error::Io,
        -2 => Error::InvalidParam,
        -3 => Error::Access,
        -4 => Error::NoDevice,
        -5 => Error::NotFound,
        -6 => Error::Busy,
        -7 => Error::Timeout,
        -8 => Error::Overflow,
        -9 => Error::Pipe,
        -10 => Error::Interrupted,
        -11 => Error::NoMem,
        -12 => Error::NotSupported,
        _ => Error::Other,
    }
}

/// One access to a register of the chip, and what came of it.
pub enum RegisterAccess {
    /// The register at `address` was read.
    Read { address: RegisterAddress, result: Result<RegisterValue, Error> },
    /// `value` was written to the register at `address`.
    Write { address: RegisterAddress, value: RegisterValue, result: Result<(), Error> },
}

/// Reads and writes of the chip's registers.
pub trait Xyz {
    /// All accesses to the registers so far, oldest first.
    spec fn register_accesses(&self) -> Seq<RegisterAccess>;

    /// Reads the register at `address`: one access, whose outcome is
    /// returned.
    fn register_read(&mut self, address: RegisterAddress) -> (result: Result<RegisterValue, Error>)
        ensures
            final(self).register_accesses() == old(self).register_accesses().push(
                RegisterAccess::Read { address, result },
            ),
    ;

    /// Writes `value` to the register at `address`: one access, whose
    /// outcome is returned.
    fn register_write(&mut self, address: RegisterAddress, value: RegisterValue) -> (result: Result<(), Error>)
        ensures
            final(self).register_accesses() == old(self).register_accesses().push(
                RegisterAccess::Write { address, value, result },
            ),
    ;
}

/// The way to the chip: whatever carries single reads and writes.
pub trait DeviceAccess {
    /// All accesses made this way so far, oldest first.
    spec fn accesses(&self) -> Seq<RegisterAccess>;

    /// Reads the register at `address`: one access, whose outcome is
    /// returned.
    fn read(&mut self, address: RegisterAddress) -> (result: Result<RegisterValue, Error>)
        ensures
            final(self).accesses() == old(self).accesses().push(RegisterAccess::Read { address, result }),
    ;

    /// Writes `value` to the register at `address`: one access, whose
    /// outcome is returned.
    fn write(&mut self, address: RegisterAddress, value: RegisterValue) -> (result: Result<(), Error>)
        ensures
            final(self).accesses() == old(self).accesses().push(RegisterAccess::Write { address, value, result }),
    ;
}

/// The chip behind some way of access.
pub struct Device<A: DeviceAccess> {
    access: A,
}

impl<A: DeviceAccess> Device<A> {
    /// The chip behind `access`.
    pub fn new(access: A) -> (device: Self)
        ensures
            device.access() == access,
    {
        Self { access }
    }

    /// The way to the chip.
    pub closed spec fn access(&self) -> A {
        self.access
    }

    /// Gives the way to the chip back.
    pub fn into_access(self) -> (access: A)
        ensures
            access == self.access(),
    {
        self.access
    }
}

impl<A: DeviceAccess> Xyz for Device<A> {
    /// The accesses of the chip are the accesses made on the way to it.
    open spec fn register_accesses(&self) -> Seq<RegisterAccess> {
        self.access().accesses()
    }

    /// Reads the register at `address` by the way to the chip, and returns
    /// what the way returns.
    fn register_read(&mut self, address: RegisterAddress) -> (result: Result<RegisterValue, Error>) {
        self.access.read(address)
    }

    /// Writes `value` to the register at `address` by the way to the chip,
    /// and returns what the way returns.
    fn register_write(&mut self, address: RegisterAddress, value: RegisterValue) -> (result: Result<(), Error>) {
        self.access.write(address, value)
    }
}

} // verus!
