//! Robbed-bit signaling: collecting the A, B, C and D bits of every timeslot
//! over an extended superframe, and accepting a change only when two
//! superframes in a row agree on it.

use vstd::prelude::*;
use crate::framer::frame::{InternalFrame, TimeslotAddress, CHANNELS, TIMESLOTS_PER_CHANNEL};

verus! {

/// Number of frames in an extended superframe.
pub const SUPERFRAME_FRAMES: u32 = 24;

/// Every bit of a superframe collected: A, B, C and D.
pub const BITS_ABCD: u8 = 0b1111;

/// The signaling bits that an idle line shows.
pub const ABCD_IDLE: u8 = 0b0101;

/// Position of a frame in the superframe that began at
/// `superframe_frame_count`. Frame counts wrap at 32 bits.
pub open spec fn frame_in_superframe(frame_count: u32, superframe_frame_count: u32) -> u32 {
    if frame_count >= superframe_frame_count {
        (frame_count - superframe_frame_count) as u32
    } else {
        (frame_count + 0x1_0000_0000 - superframe_frame_count) as u32
    }
}

/// The frame at `position` carries signaling bits: these are the sixth,
/// twelfth, eighteenth and twenty-fourth frame of a superframe.
pub open spec fn carries_signaling(position: u32) -> bool {
    position < SUPERFRAME_FRAMES && position % 6 == 5
}

/// The four-bit register `register` with the lowest bit of `sample` shifted
/// in from the right.
pub open spec fn shifted_in(register: u8, sample: u8) -> u8 {
    ((register << 1u8) | (sample & 1u8)) & 0x0fu8
}

/// The mask `collected` with the bit of the signaling frame at `position`.
pub open spec fn collected_with(collected: u8, position: u32) -> u8 {
    collected | (1u8 << ((position / 6) as u8))
}

proof fn lemma_one_of_four_bits(which: u8)
    by (bit_vector)
    ensures
        which < 4 ==> (1u8 << which) <= 8,
{
}

/// What a [`RobbedBitFrame`] holds.
pub struct RobbedBits {
    /// The bits of each of the 24 timeslots, the oldest highest.
    pub timeslot: Seq<u8>,
    pub superframe_frame_count: u32,
    pub bits_collected: u8,
}

impl RobbedBits {
    /// An empty collection for the superframe that begins with frame
    /// `superframe_frame_count`.
    pub open spec fn empty(superframe_frame_count: u32) -> RobbedBits {
        RobbedBits { timeslot: Seq::new(24, |i: int| 0u8), superframe_frame_count, bits_collected: 0 }
    }

    /// The collection that an idle line gives.
    pub open spec fn idle() -> RobbedBits {
        RobbedBits { timeslot: Seq::new(24, |i: int| ABCD_IDLE), superframe_frame_count: 0, bits_collected: 0 }
    }

    /// Position of `frame` in the superframe of this collection.
    pub open spec fn position_of(self, frame: InternalFrame) -> u32 {
        frame_in_superframe(frame.frame_count, self.superframe_frame_count)
    }

    /// The collection after one frame of span `channel`. A frame that
    /// carries signaling bits of this superframe gives the lowest bit of
    /// each of its samples to the register of the sample's timeslot, and
    /// is noted as collected; any other frame changes nothing.
    pub open spec fn with_frame(self, frame: InternalFrame, channel: usize) -> RobbedBits {
        if carries_signaling(self.position_of(frame)) {
            RobbedBits {
                timeslot: Seq::new(
                    24,
                    |i: int|
                        shifted_in(
                            self.timeslot[i],
                            frame.frame.sample(TimeslotAddress { channel, timeslot: i as usize }),
                        ),
                ),
                superframe_frame_count: self.superframe_frame_count,
                bits_collected: collected_with(self.bits_collected, self.position_of(frame)),
            }
        } else {
            self
        }
    }

    /// `frame` completes the superframe: it is its last frame, and with it
    /// all four signaling frames were seen.
    pub open spec fn completed_by(self, frame: InternalFrame) -> bool {
        self.position_of(frame) == 23 && collected_with(self.bits_collected, self.position_of(frame))
            == BITS_ABCD
    }
}

/// The signaling bits of the 24 timeslots of one span, collected over one
/// superframe.
#[derive(Copy, Clone, Debug)]
pub struct RobbedBitFrame {
    /// The bits of each timeslot, the oldest highest: A, B, C, D.
    pub timeslot: [u8; 24],
    /// Frame count of the first frame of the superframe.
    pub superframe_frame_count: u32,
    /// One bit for each signaling frame that was seen: A lowest.
    pub bits_collected: u8,
}

impl View for RobbedBitFrame {
    type V = RobbedBits;

    open spec fn view(&self) -> RobbedBits {
        RobbedBits {
            timeslot: self.timeslot@,
            superframe_frame_count: self.superframe_frame_count,
            bits_collected: self.bits_collected,
        }
    }
}

impl RobbedBitFrame {
    /// An empty collection for the superframe that begins with frame
    /// `superframe_frame_count`.
    pub fn from_timestamp(superframe_frame_count: u32) -> (frame: Self)
        ensures
            frame@ == RobbedBits::empty(superframe_frame_count),
    {
        let frame = Self { timeslot: [0; 24], superframe_frame_count, bits_collected: 0 };
        assert(frame@.timeslot =~= RobbedBits::empty(superframe_frame_count).timeslot);
        frame
    }

    /// Takes in one frame of span `channel`. Returns whether the
    /// superframe is complete with this frame.
    pub fn process_frame(&mut self, frame: &InternalFrame, channel: usize) -> (complete: bool)
        requires
            channel < CHANNELS,
        ensures
            final(self)@ == old(self)@.with_frame(*frame, channel),
            complete == old(self)@.completed_by(*frame),
    {
        let frame_in_superframe = frame.frame_count.wrapping_sub(self.superframe_frame_count);
        if frame_in_superframe >= SUPERFRAME_FRAMES {
            return false;
        }
        let rbs_frame = (frame_in_superframe % 6) == 5;
        if !rbs_frame {
            return false;
        }
        proof {
            lemma_one_of_four_bits((frame_in_superframe / 6) as u8);
        }
        self.bits_collected |= 1u8 << ((frame_in_superframe / 6) as u8);
        let mut timeslot_index: usize = 0;
        while timeslot_index < TIMESLOTS_PER_CHANNEL
            invariant
                timeslot_index <= TIMESLOTS_PER_CHANNEL,
                channel < CHANNELS,
                self.superframe_frame_count == old(self).superframe_frame_count,
                self.bits_collected == collected_with(old(self).bits_collected, frame_in_superframe),
                forall|i: int|
                    0 <= i < timeslot_index ==> #[trigger] self.timeslot[i] == shifted_in(
                        old(self).timeslot[i],
                        frame.frame.sample(TimeslotAddress { channel, timeslot: i as usize }),
                    ),
                forall|i: int| timeslot_index <= i < 24 ==> self.timeslot[i] == old(self).timeslot[i],
            decreases TIMESLOTS_PER_CHANNEL - timeslot_index,
        {
            let address = TimeslotAddress::new(channel, timeslot_index);
            let timeslot_value = frame.frame.timeslot(&address);
            let rbs_bit = timeslot_value & 1u8;
            let register = self.timeslot[timeslot_index];
            self.timeslot[timeslot_index] = ((register << 1u8) | rbs_bit) & 0x0fu8;
            timeslot_index += 1;
        }
        proof {
            assert(self@.timeslot =~= old(self)@.with_frame(*frame, channel).timeslot);
        }
        let rbs_d_frame = frame_in_superframe == 23;
        rbs_d_frame && (self.bits_collected == BITS_ABCD)
    }
}

impl Default for RobbedBitFrame {
    /// The collection that an idle line gives.
    fn default() -> (frame: Self)
        ensures
            frame@ == RobbedBits::idle(),
    {
        let frame = Self { timeslot: [ABCD_IDLE; 24], superframe_frame_count: 0, bits_collected: 0 };
        assert(frame@.timeslot =~= RobbedBits::idle().timeslot);
        frame
    }
}

/// A change of the signaling bits of one timeslot that was accepted.
#[derive(Copy, Clone, Debug, PartialEq, Eq, Structural)]
pub struct RobbedBitChange {
    /// Frame count of the first frame of the first of the two superframes
    /// that agreed on the new bits.
    pub timestamp: u32,
    pub address: TimeslotAddress,
    /// The new bits: A, B, C, D from bit 3 down to bit 0.
    pub abcd: u8,
}

/// The new value is accepted for a timeslot: the superframe just completed
/// and the one before it agree on it, and it is not the value in force.
pub open spec fn change_accepted(state: u8, now: u8, last: u8) -> bool {
    now == last && now != state
}

/// The changes accepted for the first `n` timeslots of span `channel`, in
/// the order of the timeslots.
pub open spec fn accepted_changes(
    state: Seq<u8>,
    now: Seq<u8>,
    last: Seq<u8>,
    timestamp: u32,
    channel: usize,
    n: int,
) -> Seq<RobbedBitChange>
    decreases n,
{
    if n <= 0 {
        Seq::empty()
    } else {
        let earlier = accepted_changes(state, now, last, timestamp, channel, n - 1);
        if change_accepted(state[n - 1], now[n - 1], last[n - 1]) {
            earlier.push(
                RobbedBitChange {
                    timestamp,
                    address: TimeslotAddress { channel, timeslot: (n - 1) as usize },
                    abcd: now[n - 1],
                },
            )
        } else {
            earlier
        }
    }
}

/// What a [`RobbedBitDebouncer`] holds.
pub struct Debounced {
    /// The bits in force.
    pub state: RobbedBits,
    /// The bits of the superframe that is being received.
    pub accumulator: RobbedBits,
    /// The bits of the last complete superframe.
    pub history: RobbedBits,
}

impl Debounced {
    /// What a debouncer holds for a line that is idle.
    pub open spec fn idle() -> Debounced {
        Debounced { state: RobbedBits::idle(), accumulator: RobbedBits::idle(), history: RobbedBits::idle() }
    }

    /// A superframe begins with frame `frame_count`: what was collected so
    /// far is dropped.
    pub open spec fn with_new_frame(self, frame_count: u32) -> Debounced {
        Debounced { accumulator: RobbedBits::empty(frame_count), ..self }
    }

    /// The changes that one frame of span `channel` brings: none unless the
    /// frame completes the superframe under way; then, for every timeslot
    /// whose bits are the same as in the superframe before and other than
    /// the bits in force, the change to them, with the time at which the
    /// superframe before began.
    pub open spec fn changes_of(self, frame: InternalFrame, channel: usize) -> Seq<RobbedBitChange> {
        if self.accumulator.completed_by(frame) {
            accepted_changes(
                self.state.timeslot,
                self.accumulator.with_frame(frame, channel).timeslot,
                self.history.timeslot,
                self.history.superframe_frame_count,
                channel,
                24,
            )
        } else {
            Seq::empty()
        }
    }

    /// What the debouncer holds after one frame of span `channel`: the
    /// frame has gone to the collection under way; if that completed the
    /// superframe, the accepted changes are in force, and the completed
    /// superframe is the one to compare the next with.
    pub open spec fn with_frame(self, frame: InternalFrame, channel: usize) -> Debounced {
        let collected = self.accumulator.with_frame(frame, channel);
        if self.accumulator.completed_by(frame) {
            Debounced {
                state: RobbedBits {
                    timeslot: Seq::new(
                        24,
                        |i: int|
                            if change_accepted(self.state.timeslot[i], collected.timeslot[i], self.history.timeslot[i]) {
                                collected.timeslot[i]
                            } else {
                                self.state.timeslot[i]
                            },
                    ),
                    ..self.state
                },
                accumulator: collected,
                history: collected,
            }
        } else {
            Debounced { accumulator: collected, ..self }
        }
    }
}

/// Keeps the signaling bits in force for one span, and lets a change
/// through only when it has lasted for two superframes.
#[derive(Copy, Clone, Debug)]
pub struct RobbedBitDebouncer {
    /// The bits in force.
    pub state: RobbedBitFrame,
    /// The bits of the superframe that is being received.
    pub accumulator: RobbedBitFrame,
    /// The bits of the last complete superframe.
    pub history: RobbedBitFrame,
}

impl View for RobbedBitDebouncer {
    type V = Debounced;

    open spec fn view(&self) -> Debounced {
        Debounced { state: self.state@, accumulator: self.accumulator@, history: self.history@ }
    }
}

impl RobbedBitDebouncer {
    /// A debouncer for a line that is idle.
    pub fn new() -> (debouncer: Self)
        ensures
            debouncer@ == Debounced::idle(),
    {
        Self {
            state: RobbedBitFrame::default(),
            accumulator: RobbedBitFrame::default(),
            history: RobbedBitFrame::default(),
        }
    }

    /// A superframe begins with frame `frame_count`: what was collected so
    /// far is dropped.
    pub fn new_frame(&mut self, frame_count: u32)
        ensures
            final(self)@ == old(self)@.with_new_frame(frame_count),
    {
        self.accumulator = RobbedBitFrame::from_timestamp(frame_count);
    }

    /// Takes in one frame of span `channel_index`, and returns the changes
    /// that it brings.
    pub fn process_frame(&mut self, frame: &InternalFrame, channel_index: usize) -> (changes: Vec<RobbedBitChange>)
        requires
            channel_index < CHANNELS,
        ensures
            final(self)@ == old(self)@.with_frame(*frame, channel_index),
            changes@ == old(self)@.changes_of(*frame, channel_index),
    {
        let mut changes: Vec<RobbedBitChange> = Vec::new();
        if self.accumulator.process_frame(frame, channel_index) {
            // We have a valid frame of RBS data.
            // Now debounce, only allowing changes that last for at least
            // two superframes.
            let timestamp_changed = self.history.superframe_frame_count;
            let ghost collected = self.accumulator;
            let mut timeslot_index: usize = 0;
            while timeslot_index < TIMESLOTS_PER_CHANNEL
                invariant
                    timeslot_index <= TIMESLOTS_PER_CHANNEL,
                    self.accumulator == collected,
                    self.history == old(self).history,
                    self.state.superframe_frame_count == old(self).state.superframe_frame_count,
                    self.state.bits_collected == old(self).state.bits_collected,
                    timestamp_changed == old(self).history.superframe_frame_count,
                    changes@ == accepted_changes(
                        old(self).state.timeslot@,
                        collected.timeslot@,
                        old(self).history.timeslot@,
                        timestamp_changed,
                        channel_index,
                        timeslot_index as int,
                    ),
                    forall|i: int|
                        0 <= i < timeslot_index ==> #[trigger] self.state.timeslot[i] == if change_accepted(
                            old(self).state.timeslot[i],
                            collected.timeslot[i],
                            old(self).history.timeslot[i],
                        ) {
                            collected.timeslot[i]
                        } else {
                            old(self).state.timeslot[i]
                        },
                    forall|i: int| timeslot_index <= i < 24 ==> self.state.timeslot[i] == old(self).state.timeslot[i],
                decreases TIMESLOTS_PER_CHANNEL - timeslot_index,
            {
                let rbs_now = self.accumulator.timeslot[timeslot_index];
                let rbs_last = self.history.timeslot[timeslot_index];
                let rbs_state = self.state.timeslot[timeslot_index];
                if rbs_now == rbs_last && rbs_now != rbs_state {
                    let timeslot_address = TimeslotAddress::new(channel_index, timeslot_index);
                    changes.push(
                        RobbedBitChange { timestamp: timestamp_changed, address: timeslot_address, abcd: rbs_now },
                    );
                    self.state.timeslot[timeslot_index] = rbs_now;
                }
                timeslot_index += 1;
            }
            self.history = self.accumulator;
            proof {
                assert(self@.state.timeslot =~= old(self)@.with_frame(*frame, channel_index).state.timeslot);
            }
        }
        changes
    }
}

/// No change is accepted on the word of one superframe: every change that
/// is accepted for a timeslot carries bits that both the superframe just
/// completed and the one before it show for that timeslot, that differ from
/// the bits in force, and the time at which the earlier of the two began.
pub proof fn lemma_change_takes_two_superframes(
    state: Seq<u8>,
    now: Seq<u8>,
    last: Seq<u8>,
    timestamp: u32,
    channel: usize,
    n: int,
)
    requires
        0 <= n <= 24,
    ensures
        forall|k: int|
            0 <= k < accepted_changes(state, now, last, timestamp, channel, n).len() ==> {
                let change = #[trigger] accepted_changes(state, now, last, timestamp, channel, n)[k];
                &&& change.address.channel == channel
                &&& change.address.timeslot < n
                &&& change.timestamp == timestamp
                &&& change.abcd == now[change.address.timeslot as int]
                &&& change.abcd == last[change.address.timeslot as int]
                &&& change.abcd != state[change.address.timeslot as int]
            },
        accepted_changes(state, now, last, timestamp, channel, n).len() <= n,
    decreases n,
{
    if n > 0 {
        lemma_change_takes_two_superframes(state, now, last, timestamp, channel, n - 1);
    }
}

/// A change of a timeslot is reported by the frame that completes a
/// superframe, and only if the bits of that superframe and the bits of the
/// superframe before it are the same: the bits were seen in the superframe
/// that ended one superframe (3 ms) earlier and in the one that ends now.
pub proof fn lemma_debouncer_reports_lasting_changes(debounced: Debounced, frame: InternalFrame, channel: usize)
    ensures
        debounced.changes_of(frame, channel).len() > 0 ==> debounced.accumulator.completed_by(frame),
        forall|k: int|
            0 <= k < debounced.changes_of(frame, channel).len() ==> {
                let change = #[trigger] debounced.changes_of(frame, channel)[k];
                let timeslot = change.address.timeslot as int;
                &&& change.address.channel == channel
                &&& timeslot < 24
                &&& change.timestamp == debounced.history.superframe_frame_count
                &&& change.abcd == debounced.accumulator.with_frame(frame, channel).timeslot[timeslot]
                &&& change.abcd == debounced.history.timeslot[timeslot]
                &&& change.abcd != debounced.state.timeslot[timeslot]
                &&& change.abcd == debounced.with_frame(frame, channel).state.timeslot[timeslot]
            },
{
    if debounced.accumulator.completed_by(frame) {
        lemma_change_takes_two_superframes(
            debounced.state.timeslot,
            debounced.accumulator.with_frame(frame, channel).timeslot,
            debounced.history.timeslot,
            debounced.history.superframe_frame_count,
            channel,
            24,
        );
    }
}

/// The framing bits of one span over one extended superframe, kept apart by
/// what they carry.
#[derive(Copy, Clone, Debug)]
pub struct ExtendedSuperFrameState {
    pub superframe_frame_count: u32,
    /// The bits of the frame alignment signal.
    pub framing_bits: u32,
    /// The bits of the checksum.
    pub crc_bits: u32,
    /// The bits of the facility data link.
    pub fdl_bits: u32,
    /// One bit for each frame that was seen.
    pub bits_collected: u32,
}

/// The bits `bits` with `bit` shifted in from the right.
pub open spec fn with_bit(bits: u32, bit: bool) -> u32 {
    (bits << 1u32) | (if bit { 1u32 } else { 0u32 })
}

/// All of the first 23 frames of a superframe seen.
pub const ESF_FRAMES_SEEN: u32 = 0x7f_ffff;

impl ExtendedSuperFrameState {
    /// The state at the start of the superframe that begins with frame
    /// `superframe_frame_count`.
    pub fn from_timestamp(superframe_frame_count: u32) -> (state: Self)
        ensures
            state == (ExtendedSuperFrameState {
                superframe_frame_count,
                framing_bits: 0,
                crc_bits: 0,
                fdl_bits: 0,
                bits_collected: 0,
            }),
    {
        Self { superframe_frame_count, framing_bits: 0, crc_bits: 0, fdl_bits: 0, bits_collected: 0 }
    }

    /// Takes in the framing bit `mf` of one frame. Of the frames of this
    /// superframe, every other one carries a bit of the data link, and the
    /// ones between carry in turn a bit of the checksum and a bit of the
    /// alignment signal. Returns whether the frame is the last of a
    /// superframe of which all frames before were seen.
    pub fn process_frame(&mut self, frame: &InternalFrame, mf: bool) -> (complete: bool)
        ensures
            final(self).superframe_frame_count == old(self).superframe_frame_count,
            final(self).bits_collected == old(self).bits_collected,
            ({
                let position = frame_in_superframe(frame.frame_count, old(self).superframe_frame_count);
                &&& final(self).fdl_bits == if position < 24 && position % 2 == 0 {
                    with_bit(old(self).fdl_bits, mf)
                } else {
                    old(self).fdl_bits
                }
                &&& final(self).crc_bits == if position < 24 && position % 4 == 1 {
                    with_bit(old(self).crc_bits, mf)
                } else {
                    old(self).crc_bits
                }
                &&& final(self).framing_bits == if position < 24 && position % 4 == 3 {
                    with_bit(old(self).framing_bits, mf)
                } else {
                    old(self).framing_bits
                }
                &&& complete == (position == 23 && old(self).bits_collected == ESF_FRAMES_SEEN)
            }),
    {
        let frame_in_superframe = frame.frame_count.wrapping_sub(self.superframe_frame_count);
        if frame_in_superframe >= SUPERFRAME_FRAMES {
            return false;
        }
        let mf_phase = frame_in_superframe % 4;
        let mf_bit: u32 = if mf { 1 } else { 0 };
        if mf_phase == 0 || mf_phase == 2 {
            self.fdl_bits = (self.fdl_bits << 1u32) | mf_bit;
        } else if mf_phase == 1 {
            self.crc_bits = (self.crc_bits << 1u32) | mf_bit;
        } else {
            self.framing_bits = (self.framing_bits << 1u32) | mf_bit;
        }
        let last_frame = frame_in_superframe == 23;
        let frame_valid = self.bits_collected == ESF_FRAMES_SEEN;
        last_frame && frame_valid
    }
}

impl Default for ExtendedSuperFrameState {
    fn default() -> (state: Self)
        ensures
            state == (ExtendedSuperFrameState {
                superframe_frame_count: 0,
                framing_bits: 0,
                crc_bits: 0,
                fdl_bits: 0,
                bits_collected: 0,
            }),
    {
        Self { superframe_frame_count: 0, framing_bits: 0, crc_bits: 0, fdl_bits: 0, bits_collected: 0 }
    }
}

/// Watches the frame counts for gaps.
pub struct FrameCountDiscontinuityMonitor {
    last_frame_count: u32,
}

/// The count after `count`. Counts wrap at 32 bits.
pub open spec fn count_after(count: u32) -> u32 {
    if count == u32::MAX {
        0
    } else {
        (count + 1) as u32
    }
}

/// Number of frames that are missing between the frame with count `last`
/// and the frame with count `frame_count` that came after it, if any are.
/// The first frame is not held against anything; neither is the frame after
/// one with count zero.
pub open spec fn missing_frames(last: u32, frame_count: u32) -> Option<u32> {
    if last != 0 && frame_count != count_after(last) {
        Some(frame_in_superframe(frame_count, count_after(last)))
    } else {
        None
    }
}

impl FrameCountDiscontinuityMonitor {
    /// A monitor that has seen no frame.
    pub fn new() -> (monitor: Self)
        ensures
            monitor.last() == 0,
    {
        Self { last_frame_count: 0 }
    }

    /// The count of the frame seen last; zero before any frame.
    pub closed spec fn last(&self) -> u32 {
        self.last_frame_count
    }

    /// Takes in the count of a frame. Returns how many frames are missing
    /// between the frame seen last and this one, if any are.
    pub fn update(&mut self, frame_count: u32) -> (missing: Option<u32>)
        ensures
            final(self).last() == frame_count,
            missing == missing_frames(old(self).last(), frame_count),
    {
        let result = if self.last_frame_count != 0 {
            let expected_frame_count = self.last_frame_count.wrapping_add(1);
            if frame_count != expected_frame_count {
                let missing_frames_count = frame_count.wrapping_sub(expected_frame_count);
                Some(missing_frames_count)
            } else {
                None
            }
        } else {
            None
        };
        self.last_frame_count = frame_count;
        result
    }
}

/// What is kept for each span from superframe to superframe.
#[derive(Copy, Clone, Debug)]
pub struct SuperframeState {
    pub robbed_bit_debouncer: RobbedBitDebouncer,
}

impl Default for SuperframeState {
    fn default() -> (state: Self)
        ensures
            state.robbed_bit_debouncer@ == Debounced::idle(),
    {
        Self { robbed_bit_debouncer: RobbedBitDebouncer::new() }
    }
}

} // verus!
