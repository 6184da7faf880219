//! The register bus of the system-on-chip, as the peripheral drivers see it.
//!
//! A driver does nothing but read and write 32-bit registers. What a driver
//! does is therefore stated as what it adds to the record of accesses that
//! the bus has carried.

use vstd::prelude::*;

verus! {

/// One access that the bus has carried.
#[derive(Copy, Clone, Debug, PartialEq, Eq, Structural)]
pub enum BusAccess {
    /// The register at `address` was read and gave `value`.
    Read { address: u32, value: u32 },
    /// `value` was written to the register at `address`.
    Write { address: u32, value: u32 },
}

/// The values written to the register at `address`, oldest first.
pub open spec fn written_to(accesses: Seq<BusAccess>, address: u32) -> Seq<u32>
    decreases accesses.len(),
{
    if accesses.len() == 0 {
        Seq::empty()
    } else {
        let earlier = written_to(accesses.drop_last(), address);
        match accesses.last() {
            BusAccess::Write { address: a, value } if a == address => earlier.push(value),
            _ => earlier,
        }
    }
}

/// One more access adds its value to what was written to its register, if
/// it is a write, and nothing to what was written elsewhere.
pub proof fn lemma_written_to_push(accesses: Seq<BusAccess>, access: BusAccess, address: u32)
    ensures
        written_to(accesses.push(access), address) == match access {
            BusAccess::Write { address: a, value } if a == address => written_to(accesses, address).push(value),
            _ => written_to(accesses, address),
        },
{
    assert(accesses.push(access).drop_last() =~= accesses);
}

/// `after` is `before` and one read of the register at `address`.
pub open spec fn one_read(before: Seq<BusAccess>, after: Seq<BusAccess>, address: u32) -> bool {
    after == before.push(BusAccess::Read { address, value: last_value(after) })
}

/// The value that the last access carried.
pub open spec fn last_value(accesses: Seq<BusAccess>) -> u32 {
    match accesses.last() {
        BusAccess::Read { value, .. } => value,
        BusAccess::Write { value, .. } => value,
    }
}

/// `after` is `before` and one write of `value` to the register at
/// `address`.
pub open spec fn one_write(before: Seq<BusAccess>, after: Seq<BusAccess>, address: u32, value: u32) -> bool {
    after == before.push(BusAccess::Write { address, value })
}

/// Address of the 32-bit register `n` of the peripheral at `base`. Addresses
/// wrap at 32 bits.
pub open spec fn register_address(base: u32, n: u32) -> u32 {
    ((base as int + 4 * n as int) % 0x1_0000_0000) as u32
}

/// A bus on which 32-bit registers can be read and written.
pub trait RegisterBus {
    /// All accesses that the bus has carried, oldest first.
    spec fn accesses(&self) -> Seq<BusAccess>;

    /// Reads the register at `address`.
    fn read(&mut self, address: u32) -> (value: u32)
        ensures
            final(self).accesses() == old(self).accesses().push(BusAccess::Read { address, value }),
    ;

    /// Writes `value` to the register at `address`.
    fn write(&mut self, address: u32, value: u32)
        ensures
            final(self).accesses() == old(self).accesses().push(BusAccess::Write { address, value }),
    ;
}

/// A bus that is no hardware: it keeps the record of all accesses, and
/// answers reads from a list of values prepared beforehand, then with zero.
pub struct RecordingBus {
    record: Vec<BusAccess>,
    answers: Vec<u32>,
}

impl RecordingBus {
    /// A bus that has carried nothing and will answer reads with `answers`,
    /// one after the other.
    pub fn new(answers: Vec<u32>) -> (bus: Self)
        ensures
            bus.accesses() == Seq::<BusAccess>::empty(),
            bus.pending() == answers@,
    {
        Self { record: Vec::new(), answers }
    }

    /// The answers not given yet.
    pub closed spec fn pending(&self) -> Seq<u32> {
        self.answers@
    }

    /// The record of all accesses so far.
    pub fn record(&self) -> (record: &Vec<BusAccess>)
        ensures
            record@ == self.accesses(),
    {
        &self.record
    }
}

impl RegisterBus for RecordingBus {
    closed spec fn accesses(&self) -> Seq<BusAccess> {
        self.record@
    }

    fn read(&mut self, address: u32) -> (value: u32)
        ensures
            value == if old(self).pending().len() > 0 {
                old(self).pending()[0]
            } else {
                0
            },
            final(self).pending() == if old(self).pending().len() > 0 {
                old(self).pending().drop_first()
            } else {
                old(self).pending()
            },
    {
        let value = if self.answers.len() > 0 {
            self.answers.remove(0)
        } else {
            0
        };
        self.record.push(BusAccess::Read { address, value });
        assert(self.pending() =~= if old(self).pending().len() > 0 {
            old(self).pending().drop_first()
        } else {
            old(self).pending()
        });
        value
    }

    fn write(&mut self, address: u32, value: u32)
        ensures
            final(self).pending() == old(self).pending(),
    {
        self.record.push(BusAccess::Write { address, value });
    }
}

} // verus!
