//! The status that the adapter sends when the framer raises an interrupt.
//!
//! The report is a tree laid out in bytes. After the number of the span
//! comes the block interrupt status register, whose bits tell which of the
//! following parts are there:
//!
//! ```text
//! channel_index  BISR  [if LBCODE]  8 x RLCISRx
//!                      [if HDLC]    for each of 3 controllers:
//!                                     DLSR, RDLBCR, RDLBC data bytes, SS7SR
//!                      [if SLIP]    SBISR
//!                      [if ALARM]   AEISR, EXZSR, CIASR
//!                      [if T1FRAME] FISR  [if SIG] 12 bytes: 24 RSAR nibbles
//! ```

use vstd::prelude::*;
use crate::framer::register::{
    field, AEISR, BISR, CIASR, DLSRx, EXZSR, FISR, RDLBCR, RLCISRx, RSAR, SBISR, SS7SRx,
};

verus! {

/// Why a report could not be read.
#[derive(Copy, Clone, Debug, PartialEq, Eq, Structural)]
pub enum InterruptError {
    /// The report ends before the tree that it begins is complete.
    Truncated,
    /// The report goes on after its tree is complete.
    TrailingBytes,
}

/// What was read, and the place after it.
pub struct Parsed<T> {
    pub value: T,
    pub end: usize,
}

/// The place after `count` bytes from `at`, if `bytes` holds them.
pub open spec fn after_bytes(bytes: Seq<u8>, at: int, count: int) -> Option<int> {
    if at + count <= bytes.len() {
        Some(at + count)
    } else {
        None
    }
}

/// Status of the eight loopback code detectors.
pub struct LoopbackCodeStatus {
    pub rlcisrs: [RLCISRx; 8],
}

impl LoopbackCodeStatus {
    /// The place after the part that begins at `at`, if it is complete.
    pub open spec fn end(bytes: Seq<u8>, at: int) -> Option<int> {
        after_bytes(bytes, at, 8)
    }

    /// The part that begins at `at` holds this status.
    pub open spec fn is_at(&self, bytes: Seq<u8>, at: int) -> bool {
        forall|i: int| 0 <= i < 8 ==> (#[trigger] self.rlcisrs[i]).0 == bytes[at + i]
    }

    fn from_read(bytes: &[u8], at: usize) -> (read: Option<Parsed<Self>>)
        requires
            at <= bytes@.len(),
        ensures
            read is Some <==> Self::end(bytes@, at as int) is Some,
            read is Some ==> read->0.end == Self::end(bytes@, at as int)->0 && read->0.value.is_at(bytes@, at as int),
    {
        if bytes.len() - at < 8 {
            return None;
        }
        let rlcisrs = [
            RLCISRx(bytes[at]),
            RLCISRx(bytes[at + 1]),
            RLCISRx(bytes[at + 2]),
            RLCISRx(bytes[at + 3]),
            RLCISRx(bytes[at + 4]),
            RLCISRx(bytes[at + 5]),
            RLCISRx(bytes[at + 6]),
            RLCISRx(bytes[at + 7]),
        ];
        Some(Parsed { value: Self { rlcisrs }, end: at + 8 })
    }
}

/// Status of one HDLC controller, with the message that it has received.
pub struct HDLCControllerStatus {
    pub dlsr: DLSRx,
    pub rdlbcr: RDLBCR,
    /// As many bytes as the byte count register says.
    pub data: Vec<u8>,
    pub ss7sr: SS7SRx,
}

impl HDLCControllerStatus {
    /// Number of data bytes that the byte count register `rdlbcr`
    /// announces: its low seven bits.
    pub open spec fn byte_count(rdlbcr: u8) -> int {
        field(rdlbcr, 0, 7) as int
    }

    /// The place after the part that begins at `at`, if it is complete.
    pub open spec fn end(bytes: Seq<u8>, at: int) -> Option<int> {
        if at + 2 <= bytes.len() {
            after_bytes(bytes, at, 3 + Self::byte_count(bytes[at + 1]))
        } else {
            None
        }
    }

    /// The part that begins at `at` holds this status.
    pub open spec fn is_at(&self, bytes: Seq<u8>, at: int) -> bool {
        &&& self.dlsr.0 == bytes[at]
        &&& self.rdlbcr.0 == bytes[at + 1]
        &&& self.data@ == bytes.subrange(at + 2, at + 2 + Self::byte_count(bytes[at + 1]))
        &&& self.ss7sr.0 == bytes[at + 2 + Self::byte_count(bytes[at + 1])]
    }

    fn from_read(bytes: &[u8], at: usize) -> (read: Option<Parsed<Self>>)
        requires
            at <= bytes@.len(),
        ensures
            read is Some <==> Self::end(bytes@, at as int) is Some,
            read is Some ==> read->0.end == Self::end(bytes@, at as int)->0 && read->0.value.is_at(bytes@, at as int),
    {
        if bytes.len() - at < 2 {
            return None;
        }
        let dlsr = DLSRx(bytes[at]);
        let rdlbcr = RDLBCR(bytes[at + 1]);
        let rdlbc = rdlbcr.RDLBC() as usize;
        if bytes.len() - at < 3 + rdlbc {
            return None;
        }
        let mut data: Vec<u8> = Vec::with_capacity(rdlbc);
        let mut n: usize = 0;
        while n < rdlbc
            invariant
                n <= rdlbc,
                at + 3 + rdlbc <= bytes@.len() <= usize::MAX,
                data@ == bytes@.subrange(at + 2, at + 2 + n),
            decreases rdlbc - n,
        {
            data.push(bytes[at + 2 + n]);
            proof {
                assert(bytes@.subrange(at + 2, at + 2 + n + 1) =~= bytes@.subrange(at + 2, at + 2 + n).push(
                    bytes@[at + 2 + n],
                ));
            }
            n += 1;
        }
        let ss7sr = SS7SRx(bytes[at + 2 + rdlbc]);
        Some(Parsed { value: Self { dlsr, rdlbcr, data, ss7sr }, end: at + 3 + rdlbc })
    }
}

/// Status of the three HDLC controllers.
pub struct HDLCStatus {
    pub controller: [HDLCControllerStatus; 3],
}

impl HDLCStatus {
    /// The place at which the part of controller 1 begins, if the part of
    /// controller 0 is complete.
    pub open spec fn second_at(bytes: Seq<u8>, at: int) -> Option<int> {
        HDLCControllerStatus::end(bytes, at)
    }

    /// The place at which the part of controller 2 begins, if the parts
    /// before it are complete.
    pub open spec fn third_at(bytes: Seq<u8>, at: int) -> Option<int> {
        match Self::second_at(bytes, at) {
            Some(second) => HDLCControllerStatus::end(bytes, second),
            None => None,
        }
    }

    /// The place after the part that begins at `at`, if it is complete.
    pub open spec fn end(bytes: Seq<u8>, at: int) -> Option<int> {
        match Self::third_at(bytes, at) {
            Some(third) => HDLCControllerStatus::end(bytes, third),
            None => None,
        }
    }

    /// The part that begins at `at` holds this status.
    pub open spec fn is_at(&self, bytes: Seq<u8>, at: int) -> bool {
        &&& self.controller[0].is_at(bytes, at)
        &&& self.controller[1].is_at(bytes, Self::second_at(bytes, at)->0)
        &&& self.controller[2].is_at(bytes, Self::third_at(bytes, at)->0)
    }

    fn from_read(bytes: &[u8], at: usize) -> (read: Option<Parsed<Self>>)
        requires
            at <= bytes@.len(),
        ensures
            read is Some <==> Self::end(bytes@, at as int) is Some,
            read is Some ==> read->0.end == Self::end(bytes@, at as int)->0 && read->0.value.is_at(bytes@, at as int),
    {
        let (first, at_second) = match HDLCControllerStatus::from_read(bytes, at) {
            Some(read) => (read.value, read.end),
            None => {
                return None;
            },
        };
        let (second, at_third) = match HDLCControllerStatus::from_read(bytes, at_second) {
            Some(read) => (read.value, read.end),
            None => {
                return None;
            },
        };
        let (third, end) = match HDLCControllerStatus::from_read(bytes, at_third) {
            Some(read) => (read.value, read.end),
            None => {
                return None;
            },
        };
        Some(Parsed { value: Self { controller: [first, second, third] }, end: end })
    }
}

/// Status of the slip buffer.
pub struct SlipStatus {
    pub sbisr: SBISR,
}

impl SlipStatus {
    /// The place after the part that begins at `at`, if it is complete.
    pub open spec fn end(bytes: Seq<u8>, at: int) -> Option<int> {
        after_bytes(bytes, at, 1)
    }

    /// The part that begins at `at` holds this status.
    pub open spec fn is_at(&self, bytes: Seq<u8>, at: int) -> bool {
        self.sbisr.0 == bytes[at]
    }

    fn from_read(bytes: &[u8], at: usize) -> (read: Option<Parsed<Self>>)
        requires
            at <= bytes@.len(),
        ensures
            read is Some <==> Self::end(bytes@, at as int) is Some,
            read is Some ==> read->0.end == Self::end(bytes@, at as int)->0 && read->0.value.is_at(bytes@, at as int),
    {
        if bytes.len() - at < 1 {
            return None;
        }
        Some(Parsed { value: Self { sbisr: SBISR(bytes[at]) }, end: at + 1 })
    }
}

/// Status of the alarms.
pub struct AlarmStatus {
    pub aeisr: AEISR,
    pub exzsr: EXZSR,
    pub ciasr: CIASR,
}

impl AlarmStatus {
    /// The place after the part that begins at `at`, if it is complete.
    pub open spec fn end(bytes: Seq<u8>, at: int) -> Option<int> {
        after_bytes(bytes, at, 3)
    }

    /// The part that begins at `at` holds this status.
    pub open spec fn is_at(&self, bytes: Seq<u8>, at: int) -> bool {
        &&& self.aeisr.0 == bytes[at]
        &&& self.exzsr.0 == bytes[at + 1]
        &&& self.ciasr.0 == bytes[at + 2]
    }

    fn from_read(bytes: &[u8], at: usize) -> (read: Option<Parsed<Self>>)
        requires
            at <= bytes@.len(),
        ensures
            read is Some <==> Self::end(bytes@, at as int) is Some,
            read is Some ==> read->0.end == Self::end(bytes@, at as int)->0 && read->0.value.is_at(bytes@, at as int),
    {
        if bytes.len() - at < 3 {
            return None;
        }
        let aeisr = AEISR(bytes[at]);
        let exzsr = EXZSR(bytes[at + 1]);
        let ciasr = CIASR(bytes[at + 2]);
        Some(Parsed { value: Self { aeisr, exzsr, ciasr }, end: at + 3 })
    }
}

/// The signaling bits of all 24 timeslots.
pub struct ReceiveSignalingStatus {
    pub rsars: [RSAR; 24],
}

impl ReceiveSignalingStatus {
    /// The place after the part that begins at `at`, if it is complete.
    pub open spec fn end(bytes: Seq<u8>, at: int) -> Option<int> {
        after_bytes(bytes, at, 12)
    }

    /// The nibble of timeslot `timeslot` in the part that begins at `at`:
    /// every byte holds two timeslots, the even one in its high nibble.
    pub open spec fn nibble(bytes: Seq<u8>, at: int, timeslot: int) -> u8 {
        if timeslot % 2 == 0 {
            bytes[at + timeslot / 2] >> 4u8
        } else {
            bytes[at + timeslot / 2] & 15u8
        }
    }

    /// The part that begins at `at` holds this status.
    pub open spec fn is_at(&self, bytes: Seq<u8>, at: int) -> bool {
        forall|timeslot: int|
            0 <= timeslot < 24 ==> (#[trigger] self.rsars[timeslot]).0 == Self::nibble(bytes, at, timeslot)
    }

    fn from_read(bytes: &[u8], at: usize) -> (read: Option<Parsed<Self>>)
        requires
            at <= bytes@.len(),
        ensures
            read is Some <==> Self::end(bytes@, at as int) is Some,
            read is Some ==> read->0.end == Self::end(bytes@, at as int)->0 && read->0.value.is_at(bytes@, at as int),
    {
        if bytes.len() - at < 12 {
            return None;
        }
        let mut rsars = [RSAR(0); 24];
        let mut i: usize = 0;
        while i < 12
            invariant
                i <= 12,
                at + 12 <= bytes@.len() <= usize::MAX,
                forall|timeslot: int|
                    0 <= timeslot < 2 * i ==> (#[trigger] rsars[timeslot]).0 == Self::nibble(
                        bytes@,
                        at as int,
                        timeslot,
                    ),
            decreases 12 - i,
        {
            let v = bytes[at + i];
            let even = RSAR(v >> 4u8);
            let odd = RSAR(v & 15u8);
            rsars[i * 2] = even;
            rsars[i * 2 + 1] = odd;
            i += 1;
        }
        Some(Parsed { value: Self { rsars }, end: at + 12 })
    }
}

/// Status of the T1 framer, with the signaling bits if they have changed.
pub struct T1FrameStatus {
    pub fisr: FISR,
    pub sig: Option<ReceiveSignalingStatus>,
}

impl T1FrameStatus {
    /// The register `fisr` says that signaling has changed.
    pub open spec fn signaling_follows(fisr: u8) -> bool {
        field(fisr, 5, 1) != 0
    }

    /// The place after the part that begins at `at`, if it is complete.
    pub open spec fn end(bytes: Seq<u8>, at: int) -> Option<int> {
        if at + 1 <= bytes.len() {
            if Self::signaling_follows(bytes[at]) {
                ReceiveSignalingStatus::end(bytes, at + 1)
            } else {
                Some(at + 1)
            }
        } else {
            None
        }
    }

    /// The part that begins at `at` holds this status.
    pub open spec fn is_at(&self, bytes: Seq<u8>, at: int) -> bool {
        &&& self.fisr.0 == bytes[at]
        &&& self.sig is Some <==> Self::signaling_follows(bytes[at])
        &&& self.sig is Some ==> self.sig->0.is_at(bytes, at + 1)
    }

    fn from_read(bytes: &[u8], at: usize) -> (read: Option<Parsed<Self>>)
        requires
            at <= bytes@.len(),
        ensures
            read is Some <==> Self::end(bytes@, at as int) is Some,
            read is Some ==> read->0.end == Self::end(bytes@, at as int)->0 && read->0.value.is_at(bytes@, at as int),
    {
        if bytes.len() - at < 1 {
            return None;
        }
        let fisr = FISR(bytes[at]);
        if fisr.SIG() != 0 {
            match ReceiveSignalingStatus::from_read(bytes, at + 1) {
                Some(Parsed { value: sig, end }) => Some(Parsed { value: Self { fisr, sig: Some(sig) }, end }),
                None => None,
            }
        } else {
            Some(Parsed { value: Self { fisr, sig: None }, end: at + 1 })
        }
    }
}

/// Where the parts of a report lie. Each place is where the part begins if
/// it is there, and where the next begins if it is not; a place is known
/// only if all parts before it are complete.
pub struct Layout {
    pub hdlc_at: Option<int>,
    pub slip_at: Option<int>,
    pub alarm_at: Option<int>,
    pub t1frame_at: Option<int>,
    pub end: Option<int>,
}

/// The place after a part that is there only if `present`: the place that
/// `end` gives if it is, the place before it if it is not.
pub open spec fn after_part(before: Option<int>, present: bool, end: spec_fn(int) -> Option<int>) -> Option<int> {
    match before {
        Some(at) => if present {
            end(at)
        } else {
            Some(at)
        },
        None => None,
    }
}

/// Where the parts of the report `bytes` lie.
pub open spec fn layout(bytes: Seq<u8>) -> Layout {
    let bisr = bytes[1];
    let lbcode_at = if bytes.len() >= 2 {
        Some(2int)
    } else {
        None
    };
    let hdlc_at = after_part(lbcode_at, field(bisr, 6, 1) != 0, |at: int| LoopbackCodeStatus::end(bytes, at));
    let slip_at = after_part(hdlc_at, field(bisr, 3, 1) != 0, |at: int| HDLCStatus::end(bytes, at));
    let alarm_at = after_part(slip_at, field(bisr, 2, 1) != 0, |at: int| SlipStatus::end(bytes, at));
    let t1frame_at = after_part(alarm_at, field(bisr, 1, 1) != 0, |at: int| AlarmStatus::end(bytes, at));
    let end = after_part(t1frame_at, field(bisr, 0, 1) != 0, |at: int| T1FrameStatus::end(bytes, at));
    Layout { hdlc_at, slip_at, alarm_at, t1frame_at, end }
}

/// The status of one span of the framer as its interrupt reports it.
pub struct FramerInterruptStatus {
    pub channel_index: usize,
    pub bisr: BISR,
    pub lbcode: Option<LoopbackCodeStatus>,
    pub hdlc: Option<HDLCStatus>,
    pub slip: Option<SlipStatus>,
    pub alarm: Option<AlarmStatus>,
    pub t1frame: Option<T1FrameStatus>,
}

impl FramerInterruptStatus {
    /// The report `bytes` holds this status: the span and the block status
    /// are its first two bytes, and each part is there if the block status
    /// says so, and lies where the layout says.
    pub open spec fn is_reported_by(&self, bytes: Seq<u8>) -> bool {
        let places = layout(bytes);
        &&& self.channel_index == bytes[0]
        &&& self.bisr.0 == bytes[1]
        &&& self.lbcode is Some <==> field(bytes[1], 6, 1) != 0
        &&& self.lbcode is Some ==> self.lbcode->0.is_at(bytes, 2)
        &&& self.hdlc is Some <==> field(bytes[1], 3, 1) != 0
        &&& self.hdlc is Some ==> self.hdlc->0.is_at(bytes, places.hdlc_at->0)
        &&& self.slip is Some <==> field(bytes[1], 2, 1) != 0
        &&& self.slip is Some ==> self.slip->0.is_at(bytes, places.slip_at->0)
        &&& self.alarm is Some <==> field(bytes[1], 1, 1) != 0
        &&& self.alarm is Some ==> self.alarm->0.is_at(bytes, places.alarm_at->0)
        &&& self.t1frame is Some <==> field(bytes[1], 0, 1) != 0
        &&& self.t1frame is Some ==> self.t1frame->0.is_at(bytes, places.t1frame_at->0)
    }

    /// The signaling bits that the status holds, if it holds any.
    pub open spec fn signaling(&self) -> Option<ReceiveSignalingStatus> {
        match self.t1frame {
            Some(t1frame) => t1frame.sig,
            None => None,
        }
    }

    /// Reads the report `b`. The report is read if it ends exactly where
    /// its tree ends; one that ends before is truncated, one that goes on
    /// has trailing bytes.
    pub fn from_slice(b: &[u8]) -> (result: Result<Self, InterruptError>)
        ensures
            result is Ok <==> layout(b@).end == Some(b@.len() as int),
            result is Ok ==> result->Ok_0.is_reported_by(b@),
            result is Err ==> result->Err_0 == if layout(b@).end is None {
                InterruptError::Truncated
            } else {
                InterruptError::TrailingBytes
            },
    {
        match Self::from_read(b) {
            Some(Parsed { value: status, end }) => {
                if end == b.len() {
                    Ok(status)
                } else {
                    Err(InterruptError::TrailingBytes)
                }
            },
            None => Err(InterruptError::Truncated),
        }
    }

    /// Reads the tree with which `bytes` begins. Returns the status and
    /// the place where the tree ends, if the tree is complete.
    pub fn from_read(bytes: &[u8]) -> (read: Option<Parsed<Self>>)
        ensures
            read is Some <==> layout(bytes@).end is Some,
            read is Some ==> read->0.end == layout(bytes@).end->0 && read->0.end <= bytes@.len()
                && read->0.value.is_reported_by(bytes@),
    {
        if bytes.len() < 2 {
            return None;
        }
        let channel_index = bytes[0] as usize;
        let bisr = BISR(bytes[1]);
        let mut at: usize = 2;

        let lbcode = if bisr.LBCODE() != 0 {
            match LoopbackCodeStatus::from_read(bytes, at) {
                Some(Parsed { value: status, end }) => {
                    at = end;
                    Some(status)
                },
                None => {
                    return None;
                },
            }
        } else {
            None
        };

        let hdlc = if bisr.HDLC() != 0 {
            match HDLCStatus::from_read(bytes, at) {
                Some(Parsed { value: status, end }) => {
                    at = end;
                    Some(status)
                },
                None => {
                    return None;
                },
            }
        } else {
            None
        };

        let slip = if bisr.SLIP() != 0 {
            match SlipStatus::from_read(bytes, at) {
                Some(Parsed { value: status, end }) => {
                    at = end;
                    Some(status)
                },
                None => {
                    return None;
                },
            }
        } else {
            None
        };

        let alarm = if bisr.ALARM() != 0 {
            match AlarmStatus::from_read(bytes, at) {
                Some(Parsed { value: status, end }) => {
                    at = end;
                    Some(status)
                },
                None => {
                    return None;
                },
            }
        } else {
            None
        };

        let t1frame = if bisr.T1FRAME() != 0 {
            match T1FrameStatus::from_read(bytes, at) {
                Some(Parsed { value: status, end }) => {
                    at = end;
                    Some(status)
                },
                None => {
                    return None;
                },
            }
        } else {
            None
        };

        Some(Parsed { value: Self { channel_index, bisr, lbcode, hdlc, slip, alarm, t1frame }, end: at })
    }
}

/// A report that is read is used up to its last byte, and a report that
/// its tree does not fill exactly is not read.
pub proof fn lemma_report_is_consumed_exactly(bytes: Seq<u8>)
    ensures
        layout(bytes).end is Some ==> 2 <= layout(bytes).end->0,
        layout(bytes).end is Some ==> {
            let places = layout(bytes);
            &&& places.hdlc_at is Some && places.slip_at is Some && places.alarm_at is Some
                && places.t1frame_at is Some
            &&& 2 <= places.hdlc_at->0 <= places.slip_at->0 <= places.alarm_at->0 <= places.t1frame_at->0
                <= places.end->0 <= bytes.len()
        },
{
}

} // verus!
