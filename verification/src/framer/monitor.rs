//! The state of each line as the signaling shows it: on-hook or off-hook,
//! and for how long.

use vstd::prelude::*;
use crate::detector::DetectionEvent;
use crate::framer::frame::{TimeslotAddress, CHANNELS, TIMESLOTS_PER_CHANNEL};
use crate::framer::interrupt::{layout, FramerInterruptStatus, ReceiveSignalingStatus};
use crate::framer::{FramerEvent, INTERRUPT_BYTES_MAX};
use crate::framer::register::{field, RSAR};
use crate::framer::signaling::{frame_in_superframe, ABCD_IDLE};

verus! {

/// Number of frames in a millisecond.
pub const FRAMES_PER_MILLISECOND: u32 = 8;

/// The bits A and B.
pub const ABCD_AB: u8 = 0b1100;

/// The line is off-hook when both A and B are set.
pub open spec fn is_off_hook(abcd: u8) -> bool {
    abcd & ABCD_AB == ABCD_AB
}

/// The four signaling bits as one number: A, B, C, D from bit 3 down to
/// bit 0.
pub open spec fn abcd_of(a: bool, b: bool, c: bool, d: bool) -> u8 {
    ((if a { 8int } else { 0int }) + (if b { 4int } else { 0int }) + (if c { 2int } else { 0int }) + (if d {
        1int
    } else {
        0int
    })) as u8
}

/// The state of a line as the framer's interrupts report it.
#[derive(Copy, Clone, Debug)]
pub struct LineStateInterrupt {
    /// When the bits changed last, in microseconds.
    pub timestamp: u64,
    pub abcd: u8,
}

impl LineStateInterrupt {
    /// A line that has been idle since `timestamp`.
    pub fn new(timestamp: u64) -> (line: Self)
        ensures
            line == (LineStateInterrupt { timestamp, abcd: ABCD_IDLE }),
    {
        Self { timestamp, abcd: ABCD_IDLE }
    }

    /// The line after the bits `abcd` were reported at `timestamp`: bits
    /// other than the bits known are known from then on.
    pub open spec fn with_bits(self, timestamp: u64, abcd: u8) -> LineStateInterrupt {
        if abcd != self.abcd {
            LineStateInterrupt { timestamp, abcd }
        } else {
            self
        }
    }

    /// What there is to tell when the bits `abcd` are reported at
    /// `timestamp`: if they differ from the bits known, for how many
    /// microseconds the bits known have lasted, and whether the line is
    /// off-hook now. Time that runs backwards counts as no time.
    pub open spec fn change_with(self, timestamp: u64, abcd: u8) -> Option<(u64, bool)> {
        if abcd != self.abcd {
            Some(
                (
                    if timestamp >= self.timestamp {
                        (timestamp - self.timestamp) as u64
                    } else {
                        0u64
                    },
                    is_off_hook(abcd),
                ),
            )
        } else {
            None
        }
    }

    /// Takes in the four bits reported at `timestamp`.
    pub fn set_state(&mut self, timestamp: u64, a: bool, b: bool, c: bool, d: bool) -> (change: Option<(u64, bool)>)
        ensures
            *final(self) == old(self).with_bits(timestamp, abcd_of(a, b, c, d)),
            change == old(self).change_with(timestamp, abcd_of(a, b, c, d)),
    {
        let new_abcd: u8 = (if a { 8u8 } else { 0u8 }) + (if b { 4u8 } else { 0u8 }) + (if c { 2u8 } else { 0u8 })
            + (if d { 1u8 } else { 0u8 });
        if new_abcd != self.abcd {
            let duration = timestamp.saturating_sub(self.timestamp);
            self.timestamp = timestamp;
            self.abcd = new_abcd;
            Some((duration, self.off_hook()))
        } else {
            None
        }
    }

    /// Tells whether the line is off-hook.
    pub fn off_hook(&self) -> (off_hook: bool)
        ensures
            off_hook == is_off_hook(self.abcd),
    {
        self.abcd & ABCD_AB == ABCD_AB
    }
}

/// The state of a line as the robbed bits report it.
#[derive(Copy, Clone, Debug)]
pub struct LineStateRobbedBitState {
    /// Count of the frame with which the bits changed last.
    pub frame_count: u32,
    pub abcd: u8,
}

impl Default for LineStateRobbedBitState {
    /// A line that has been idle since frame zero.
    fn default() -> (line: Self)
        ensures
            line == LineStateRobbedBitState::idle(),
    {
        Self { frame_count: 0, abcd: ABCD_IDLE }
    }
}

impl LineStateRobbedBitState {
    /// A line that has been idle since frame zero.
    pub open spec fn idle() -> LineStateRobbedBitState {
        LineStateRobbedBitState { frame_count: 0, abcd: ABCD_IDLE }
    }

    /// The line after the low four bits of `rbs_state` came into force
    /// with frame `frame_count`.
    pub open spec fn with_bits(self, frame_count: u32, rbs_state: u8) -> LineStateRobbedBitState {
        if rbs_state & 0x0f != self.abcd {
            LineStateRobbedBitState { frame_count, abcd: rbs_state & 0x0f }
        } else {
            self
        }
    }

    /// What there is to tell when the low four bits of `rbs_state` come
    /// into force with frame `frame_count`: if they differ from the bits
    /// known, for how many milliseconds the bits known have lasted, and
    /// whether the line is off-hook now.
    pub open spec fn change_with(self, frame_count: u32, rbs_state: u8) -> Option<(u64, bool)> {
        if rbs_state & 0x0f != self.abcd {
            Some(
                (
                    (frame_in_superframe(frame_count, self.frame_count) / FRAMES_PER_MILLISECOND) as u64,
                    is_off_hook(rbs_state & 0x0f),
                ),
            )
        } else {
            None
        }
    }

    /// Takes in the bits that are in force from frame `frame_count` on.
    pub fn set_state(&mut self, frame_count: u32, rbs_state: u8) -> (change: Option<(u64, bool)>)
        ensures
            *final(self) == old(self).with_bits(frame_count, rbs_state),
            change == old(self).change_with(frame_count, rbs_state),
    {
        let new_abcd = rbs_state & 0x0f;
        if new_abcd != self.abcd {
            let frame_count_diff = frame_count.wrapping_sub(self.frame_count);
            let duration = (frame_count_diff / FRAMES_PER_MILLISECOND) as u64;
            self.frame_count = frame_count;
            self.abcd = new_abcd;
            Some((duration, self.off_hook()))
        } else {
            None
        }
    }

    /// Tells whether the line is off-hook.
    pub fn off_hook(&self) -> (off_hook: bool)
        ensures
            off_hook == is_off_hook(self.abcd),
    {
        self.abcd & ABCD_AB == ABCD_AB
    }
}

/// A change of a line, as told to whoever watches the lines.
#[derive(Copy, Clone, Debug, PartialEq, Eq, Structural)]
pub enum LineReport {
    /// The framer's interrupt reported other bits: the bits before lasted
    /// for `lasted` microseconds.
    Interrupt { address: TimeslotAddress, lasted: u64, off_hook: bool },
    /// The robbed bits changed: the bits before lasted for `lasted`
    /// milliseconds.
    RobbedBits { address: TimeslotAddress, lasted: u64, off_hook: bool },
}

/// The four signaling bits that the register holds.
pub open spec fn rsar_bits(rsar: RSAR) -> u8 {
    abcd_of(field(rsar.0, 3, 1) != 0, field(rsar.0, 2, 1) != 0, field(rsar.0, 1, 1) != 0, field(rsar.0, 0, 1) != 0)
}

/// The changes that a report of the signaling of span `channel` brings for
/// its first `n` timeslots, in the order of the timeslots.
pub open spec fn interrupt_reports(
    lines: Seq<LineStateInterrupt>,
    timestamp: u64,
    channel: usize,
    rsars: Seq<RSAR>,
    n: int,
) -> Seq<LineReport>
    decreases n,
{
    if n <= 0 {
        Seq::empty()
    } else {
        let earlier = interrupt_reports(lines, timestamp, channel, rsars, n - 1);
        match lines[n - 1].change_with(timestamp, rsar_bits(rsars[n - 1])) {
            Some((lasted, off_hook)) => earlier.push(
                LineReport::Interrupt {
                    address: TimeslotAddress { channel, timeslot: (n - 1) as usize },
                    lasted,
                    off_hook,
                },
            ),
            None => earlier,
        }
    }
}

/// Follows every line of every span, by the framer's interrupts and by the
/// robbed bits, and tells when a line changes.
pub struct LineMonitor {
    by_interrupt: [[LineStateInterrupt; 24]; 8],
    by_robbed_bits: [[LineStateRobbedBitState; 24]; 8],
    bad_status_count: u32,
}

impl LineMonitor {
    /// A monitor of lines that have all been idle since `timestamp`.
    pub fn new(timestamp: u64) -> (monitor: Self)
        ensures
            forall|address: TimeslotAddress|
                address.is_valid() ==> #[trigger] monitor.interrupt_line(address) == (LineStateInterrupt {
                    timestamp,
                    abcd: ABCD_IDLE,
                }),
            forall|address: TimeslotAddress|
                address.is_valid() ==> #[trigger] monitor.robbed_bit_line(address)
                    == LineStateRobbedBitState::idle(),
            monitor.unread() == 0,
    {
        Self {
            by_interrupt: [[LineStateInterrupt::new(timestamp); 24]; 8],
            by_robbed_bits: [[LineStateRobbedBitState::default(); 24]; 8],
            bad_status_count: 0,
        }
    }

    /// Number of interrupts whose report could not be read, as far as a
    /// 32-bit counter counts.
    pub closed spec fn unread(&self) -> u32 {
        self.bad_status_count
    }

    /// Number of interrupts whose report could not be read.
    pub fn bad_status_count(&self) -> (count: u32)
        ensures
            count == self.unread(),
    {
        self.bad_status_count
    }

    /// The line at `address` as the framer's interrupts report it.
    pub closed spec fn interrupt_line(&self, address: TimeslotAddress) -> LineStateInterrupt {
        self.by_interrupt[address.channel as int][address.timeslot as int]
    }

    /// The line at `address` as the robbed bits report it.
    pub closed spec fn robbed_bit_line(&self, address: TimeslotAddress) -> LineStateRobbedBitState {
        self.by_robbed_bits[address.channel as int][address.timeslot as int]
    }

    /// The lines of span `channel` as the framer's interrupts report them.
    pub open spec fn interrupt_lines(&self, channel: usize) -> Seq<LineStateInterrupt> {
        Seq::new(24, |timeslot: int| self.interrupt_line(TimeslotAddress { channel, timeslot: timeslot as usize }))
    }

    /// No line has changed from `before` to `after`.
    pub open spec fn unchanged(before: &Self, after: &Self) -> bool {
        forall|other: TimeslotAddress|
            other.is_valid() ==> #[trigger] after.interrupt_line(other) == before.interrupt_line(other)
                && #[trigger] after.robbed_bit_line(other) == before.robbed_bit_line(other)
    }

    /// The count of reports that could not be read, with one more.
    pub open spec fn one_more_unread(count: u32) -> u32 {
        if count == u32::MAX {
            count
        } else {
            (count + 1) as u32
        }
    }

    /// The robbed bits `rbs_state`, in force for the line at `address`
    /// from frame `frame_count` on, lead from `before` to `after` and to
    /// the report `report`: the line takes the bits, no other line
    /// changes, and the change of the line is reported. An address that
    /// names no line changes nothing.
    pub open spec fn robbed_bit_outcome(
        before: &Self,
        frame_count: u32,
        address: TimeslotAddress,
        rbs_state: u8,
        after: &Self,
        report: Option<LineReport>,
    ) -> bool {
        &&& forall|other: TimeslotAddress|
            other.is_valid() ==> #[trigger] after.interrupt_line(other) == before.interrupt_line(other)
        &&& forall|other: TimeslotAddress|
            other.is_valid() ==> #[trigger] after.robbed_bit_line(other) == if other == address {
                before.robbed_bit_line(other).with_bits(frame_count, rbs_state)
            } else {
                before.robbed_bit_line(other)
            }
        &&& after.unread() == before.unread()
        &&& report == if address.is_valid() {
            match before.robbed_bit_line(address).change_with(frame_count, rbs_state) {
                Some((lasted, off_hook)) => Some(LineReport::RobbedBits { address, lasted, off_hook }),
                None => None,
            }
        } else {
            None
        }
    }

    /// The signaling bits `sig` of span `channel_index`, reported by an
    /// interrupt at `timestamp`, lead from `before` to `after` and to the
    /// reports `reports`: every line of the span takes its bits, no other
    /// line changes, and the changes are reported in the order of the
    /// timeslots. A span that does not exist changes nothing.
    pub open spec fn signaling_outcome(
        before: &Self,
        timestamp: u64,
        channel_index: usize,
        sig: ReceiveSignalingStatus,
        after: &Self,
        reports: Seq<LineReport>,
    ) -> bool {
        &&& forall|other: TimeslotAddress|
            other.is_valid() ==> #[trigger] after.robbed_bit_line(other) == before.robbed_bit_line(other)
        &&& forall|other: TimeslotAddress|
            other.is_valid() ==> #[trigger] after.interrupt_line(other) == if other.channel == channel_index {
                before.interrupt_line(other).with_bits(timestamp, rsar_bits(sig.rsars[other.timeslot as int]))
            } else {
                before.interrupt_line(other)
            }
        &&& after.unread() == before.unread()
        &&& reports == if channel_index < CHANNELS {
            interrupt_reports(before.interrupt_lines(channel_index), timestamp, channel_index, sig.rsars@, 24)
        } else {
            Seq::empty()
        }
    }

    /// Takes in the robbed bits `rbs_state` that are in force for the line
    /// at `address` from frame `frame_count` on. Returns the change, if
    /// the bits are not the bits known. An address that names no line
    /// changes nothing.
    pub fn robbed_bit_state(&mut self, frame_count: u32, address: TimeslotAddress, rbs_state: u8) -> (report: Option<
        LineReport,
    >)
        ensures
            Self::robbed_bit_outcome(old(self), frame_count, address, rbs_state, final(self), report),
    {
        if !address.in_range() {
            return None;
        }
        let mut line = self.by_robbed_bits[address.channel][address.timeslot];
        let change = line.set_state(frame_count, rbs_state);
        self.by_robbed_bits[address.channel][address.timeslot] = line;
        match change {
            Some((lasted, off_hook)) => Some(LineReport::RobbedBits { address, lasted, off_hook }),
            None => None,
        }
    }

    /// Takes in the signaling bits of the 24 timeslots of span
    /// `channel_index` that an interrupt reported at `timestamp`. Returns
    /// the changes, in the order of the timeslots. A span that does not
    /// exist changes nothing.
    pub fn signaling_status(&mut self, timestamp: u64, channel_index: usize, sig: &ReceiveSignalingStatus) -> (reports:
        Vec<LineReport>)
        ensures
            Self::signaling_outcome(old(self), timestamp, channel_index, *sig, final(self), reports@),
    {
        let mut reports: Vec<LineReport> = Vec::new();
        if channel_index >= CHANNELS {
            return reports;
        }
        let ghost lines = old(self).interrupt_lines(channel_index);
        let mut timeslot_index: usize = 0;
        while timeslot_index < TIMESLOTS_PER_CHANNEL
            invariant
                timeslot_index <= TIMESLOTS_PER_CHANNEL,
                channel_index < CHANNELS,
                lines == old(self).interrupt_lines(channel_index),
                self.by_robbed_bits == old(self).by_robbed_bits,
                self.bad_status_count == old(self).bad_status_count,
                reports@ == interrupt_reports(lines, timestamp, channel_index, sig.rsars@, timeslot_index as int),
                forall|other: TimeslotAddress|
                    other.is_valid() ==> #[trigger] self.interrupt_line(other) == if other.channel
                        == channel_index && other.timeslot < timeslot_index {
                        old(self).interrupt_line(other).with_bits(
                            timestamp,
                            rsar_bits(sig.rsars[other.timeslot as int]),
                        )
                    } else {
                        old(self).interrupt_line(other)
                    },
            decreases TIMESLOTS_PER_CHANNEL - timeslot_index,
        {
            let rsar = sig.rsars[timeslot_index];
            let address = TimeslotAddress::new(channel_index, timeslot_index);
            let mut line = self.by_interrupt[channel_index][timeslot_index];
            assert(line == lines[timeslot_index as int]) by {
                assert(address.is_valid());
                assert(self.interrupt_line(address) == old(self).interrupt_line(address));
            }
            let change = line.set_state(timestamp, rsar.A() != 0, rsar.B() != 0, rsar.C() != 0, rsar.D() != 0);
            let ghost before = *self;
            self.by_interrupt[channel_index][timeslot_index] = line;
            proof {
                assert forall|other: TimeslotAddress| other.is_valid() implies #[trigger] self.interrupt_line(other)
                    == if other.channel == channel_index && other.timeslot < timeslot_index + 1 {
                    old(self).interrupt_line(other).with_bits(timestamp, rsar_bits(sig.rsars[other.timeslot as int]))
                } else {
                    old(self).interrupt_line(other)
                } by {
                    if other.channel == channel_index && other.timeslot == timeslot_index {
                        assert(other == address);
                        assert(self.interrupt_line(other) == line);
                    } else {
                        assert(self.interrupt_line(other) == before.interrupt_line(other));
                    }
                }
            }
            match change {
                Some((lasted, off_hook)) => {
                    reports.push(LineReport::Interrupt { address, lasted, off_hook });
                },
                None => {},
            }
            timeslot_index += 1;
        }
        reports
    }

    /// `event` leads from `before` to `after` and to `told`. An interrupt
    /// whose report can be read is told with its status and with the
    /// changes of the lines whose signaling it reports; one whose report
    /// cannot be read is counted and changes no line. A digit is told as
    /// it is. Robbed bits are told if they change their line.
    pub open spec fn event_outcome(before: &Self, event: FramerEvent, after: &Self, told: Told) -> bool {
        match event {
            FramerEvent::Interrupt { timestamp, .. } => {
                if event.report() is Some && layout(event.report()->0).end == Some(event.report()->0.len() as int) {
                    &&& told matches Told::Status(status, changes)
                    &&& status.is_reported_by(event.report()->0)
                    &&& match status.signaling() {
                        Some(sig) => Self::signaling_outcome(
                            before,
                            timestamp,
                            status.channel_index,
                            sig,
                            after,
                            changes@,
                        ),
                        None => Self::unchanged(before, after) && after.unread() == before.unread()
                            && changes@ == Seq::<LineReport>::empty(),
                    }
                } else {
                    told is BadStatus && Self::unchanged(before, after) && after.unread()
                        == Self::one_more_unread(before.unread())
                }
            },
            FramerEvent::Digit(address, digit) => told == Told::Digit(address, digit) && Self::unchanged(
                before,
                after,
            ) && after.unread() == before.unread(),
            FramerEvent::RobbedBitState(frame_count, address, rbs_state) => {
                &&& told matches Told::Line(report)
                &&& Self::robbed_bit_outcome(before, frame_count, address, rbs_state, after, report)
            },
        }
    }

    /// Takes in an event of the framer. Returns what there is to tell.
    pub fn handle(&mut self, event: &FramerEvent) -> (told: Told)
        ensures
            Self::event_outcome(old(self), *event, final(self), told),
    {
        match event {
            FramerEvent::Interrupt { timestamp, data, length } => {
                if *length > INTERRUPT_BYTES_MAX {
                    self.bad_status_count = self.bad_status_count.saturating_add(1);
                    return Told::BadStatus;
                }
                let report = vstd::slice::slice_subrange(data.as_slice(), 0, *length);
                match FramerInterruptStatus::from_slice(report) {
                    Ok(status) => {
                        let changes = match &status.t1frame {
                            Some(t1frame) => match &t1frame.sig {
                                Some(sig) => self.signaling_status(*timestamp, status.channel_index, sig),
                                None => Vec::new(),
                            },
                            None => Vec::new(),
                        };
                        Told::Status(status, changes)
                    },
                    Err(_) => {
                        self.bad_status_count = self.bad_status_count.saturating_add(1);
                        Told::BadStatus
                    },
                }
            },
            FramerEvent::Digit(address, digit) => Told::Digit(*address, *digit),
            FramerEvent::RobbedBitState(frame_count, address, rbs_state) => Told::Line(
                self.robbed_bit_state(*frame_count, *address, *rbs_state),
            ),
        }
    }
}

/// What the monitor tells of an event.
pub enum Told {
    /// The framer raised an interrupt: its status, and the changes of the
    /// lines whose signaling it reports.
    Status(FramerInterruptStatus, Vec<LineReport>),
    /// The framer raised an interrupt, and its report could not be read.
    BadStatus,
    /// A digit was heard on the timeslot.
    Digit(TimeslotAddress, DetectionEvent),
    /// The robbed bits of a line were reported, and changed the line or
    /// did not.
    Line(Option<LineReport>),
}

} // verus!
