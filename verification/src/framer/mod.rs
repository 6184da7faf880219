//! The host side of the framer: what comes from the adapter, what is made
//! of it, and what goes back.

use vstd::prelude::*;
use crate::detector::DetectionEvent;
use crate::framer::frame::TimeslotAddress;

pub mod audio;
pub mod device;
pub mod frame;
pub mod interrupt;
pub mod loopback;
pub mod monitor;
pub mod processor;
pub mod receive;
pub mod register;
pub mod ring;
pub mod signaling;
pub mod statistics;
pub mod wire;

verus! {

/// Largest number of bytes that the adapter sends when it reports an
/// interrupt of the framer.
pub const INTERRUPT_BYTES_MAX: usize = 256;

/// What the framer tells whoever watches the lines.
#[derive(Copy, Clone, Debug)]
pub enum FramerEvent {
    /// The framer raised an interrupt: the first `length` bytes of `data`
    /// are its status, `timestamp` the time of arrival in microseconds.
    Interrupt { timestamp: u64, data: [u8; 256], length: usize },
    /// A digit was heard on the timeslot.
    Digit(TimeslotAddress, DetectionEvent),
    /// The signaling bits of the timeslot changed to the given bits, from
    /// the frame with the given count on.
    RobbedBitState(u32, TimeslotAddress, u8),
}

impl FramerEvent {
    /// The event for an interrupt whose report `bytes` arrived at
    /// `timestamp`. There is none for a report without bytes, or with more
    /// bytes than the adapter sends.
    pub fn interrupt(timestamp: u64, bytes: &[u8]) -> (event: Option<FramerEvent>)
        ensures
            event is Some <==> 0 < bytes@.len() <= INTERRUPT_BYTES_MAX,
            event is Some ==> event->0.is_interrupt_with(timestamp, bytes@),
    {
        let length = bytes.len();
        if length == 0 || length > INTERRUPT_BYTES_MAX {
            return None;
        }
        let mut data = [0u8; 256];
        let mut i: usize = 0;
        while i < length
            invariant
                i <= length,
                length == bytes@.len(),
                length <= INTERRUPT_BYTES_MAX,
                forall|k: int| 0 <= k < i ==> data[k] == bytes@[k],
                forall|k: int| i <= k < INTERRUPT_BYTES_MAX ==> data[k] == 0,
            decreases length - i,
        {
            data[i] = bytes[i];
            i += 1;
        }
        assert(data@.subrange(0, length as int) =~= bytes@);
        Some(FramerEvent::Interrupt { timestamp, data, length })
    }

    /// The event tells of an interrupt whose report `bytes` arrived at
    /// `timestamp`; what follows the report is zero.
    pub open spec fn is_interrupt_with(self, timestamp: u64, bytes: Seq<u8>) -> bool {
        &&& self matches FramerEvent::Interrupt { timestamp: at, data, length }
        &&& at == timestamp
        &&& length == bytes.len()
        &&& length <= INTERRUPT_BYTES_MAX
        &&& data@.subrange(0, length as int) == bytes
        &&& forall|k: int| length <= k < INTERRUPT_BYTES_MAX ==> data[k] == 0
    }

    /// The report of the interrupt that the event tells of, if it tells of
    /// one and the length it gives is one that a report can have.
    pub open spec fn report(self) -> Option<Seq<u8>> {
        match self {
            FramerEvent::Interrupt { data, length, .. } => if length <= INTERRUPT_BYTES_MAX {
                Some(data@.subrange(0, length as int))
            } else {
                None
            },
            _ => None,
        }
    }
}

} // verus!
