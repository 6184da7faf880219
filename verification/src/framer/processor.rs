//! The signaling processor: what the frames received say beyond the sound,
//! by their robbed bits and by the tones in them.

use vstd::prelude::*;
use crate::codec::ulaw::{decode_i16, decode_i16_spec};
use crate::detector::{DetectionEvent, Detector};
use crate::framer::frame::{InternalFrame, TimeslotAddress, CHANNELS};
use crate::framer::signaling::{
    missing_frames, Debounced, FrameCountDiscontinuityMonitor, RobbedBitChange, SuperframeState,
};
use crate::framer::FramerEvent;

verus! {

/// A multiframe of span `channel` begins with the frame whose report holds
/// `mf_bits`.
pub open spec fn multiframe_begins(mf_bits: u8, channel: usize) -> bool {
    (mf_bits >> (channel as u8)) & 1u8 != 0
}

/// What the debouncer of span `channel` holds after `frame`: the frame is
/// taken in after the collection was begun anew, if a multiframe of the
/// span begins with the frame.
pub open spec fn debounced_after(before: Debounced, frame: InternalFrame, channel: usize) -> Debounced {
    if multiframe_begins(frame.mf_bits, channel) {
        before.with_new_frame(frame.frame_count).with_frame(frame, channel)
    } else {
        before.with_frame(frame, channel)
    }
}

/// The changes that `frame` brings for span `channel`.
pub open spec fn changes_in_channel(before: Debounced, frame: InternalFrame, channel: usize) -> Seq<RobbedBitChange> {
    if multiframe_begins(frame.mf_bits, channel) {
        before.with_new_frame(frame.frame_count).changes_of(frame, channel)
    } else {
        before.changes_of(frame, channel)
    }
}

/// The changes that `frame` brings for the first `n` spans, span by span.
pub open spec fn changes_in_channels(before: Seq<Debounced>, frame: InternalFrame, n: int) -> Seq<RobbedBitChange>
    decreases n,
{
    if n <= 0 {
        Seq::empty()
    } else {
        changes_in_channels(before, frame, n - 1) + changes_in_channel(before[n - 1], frame, (n - 1) as usize)
    }
}

/// The changes as events.
pub open spec fn change_events(changes: Seq<RobbedBitChange>) -> Seq<FramerEvent> {
    Seq::new(
        changes.len(),
        |i: int| FramerEvent::RobbedBitState(changes[i].timestamp, changes[i].address, changes[i].abcd),
    )
}

/// The digits that the detectors at `addresses` found, as events: for each
/// detector that found one, in the order of the detectors.
pub open spec fn digit_events(
    addresses: Seq<TimeslotAddress>,
    found: Seq<Option<DetectionEvent>>,
    n: int,
) -> Seq<FramerEvent>
    decreases n,
{
    if n <= 0 {
        Seq::empty()
    } else {
        let earlier = digit_events(addresses, found, n - 1);
        match found[n - 1] {
            Some(event) => earlier.push(FramerEvent::Digit(addresses[n - 1], event)),
            None => earlier,
        }
    }
}

/// What one frame brought.
pub struct SignalingReport {
    /// Number of frames that are missing before this one, if any are.
    pub dropped_frames: Option<u32>,
    /// The changes of robbed bits, span by span and timeslot by timeslot,
    /// then the digits, detector by detector.
    pub events: Vec<FramerEvent>,
}

/// Follows the signaling of all spans, frame by frame.
pub struct SignalingProcessor<D: Detector> {
    addresses: Vec<TimeslotAddress>,
    detectors: Vec<D>,
    superframe_state: [SuperframeState; 8],
    frame_count_discontinuity_monitor: FrameCountDiscontinuityMonitor,
    handed_over: Ghost<Seq<Seq<i16>>>,
}

impl<D: Detector> SignalingProcessor<D> {
    /// Every detector listens to a timeslot that exists, and no two to the
    /// same.
    pub closed spec fn well_formed(&self) -> bool {
        &&& self.addresses@.len() == self.detectors@.len()
        &&& self.handed_over@.len() == self.detectors@.len()
        &&& forall|i: int| 0 <= i < self.addresses@.len() ==> (#[trigger] self.addresses@[i]).is_valid()
        &&& forall|i: int, j: int|
            0 <= i < j < self.addresses@.len() ==> self.addresses@[i] != self.addresses@[j]
    }

    /// A processor for lines that are idle, without detectors.
    pub fn new() -> (processor: Self)
        ensures
            processor.well_formed(),
            processor.listening() == Seq::<TimeslotAddress>::empty(),
            processor.heard() == Seq::<Seq<i16>>::empty(),
            processor.last_frame_count() == 0,
            forall|channel: int| 0 <= channel < CHANNELS ==> processor.debounced()[channel] == Debounced::idle(),
            processor.debounced().len() == CHANNELS,
    {
        Self {
            addresses: Vec::new(),
            detectors: Vec::new(),
            superframe_state: [SuperframeState::default(); 8],
            frame_count_discontinuity_monitor: FrameCountDiscontinuityMonitor::new(),
            handed_over: Ghost(Seq::empty()),
        }
    }

    /// The timeslots that detectors listen to, in the order in which the
    /// detectors were added.
    pub closed spec fn listening(&self) -> Seq<TimeslotAddress> {
        self.addresses@
    }

    /// What the debouncers of the eight spans hold.
    pub closed spec fn debounced(&self) -> Seq<Debounced> {
        Seq::new(CHANNELS as nat, |channel: int| self.superframe_state[channel].robbed_bit_debouncer@)
    }

    /// The count of the frame taken in last; zero before any frame.
    pub closed spec fn last_frame_count(&self) -> u32 {
        self.frame_count_discontinuity_monitor.last()
    }

    /// Lets `detector` listen to the timeslot at `address`. Returns whether
    /// it does: a timeslot that does not exist, or one that has a detector
    /// already, gets none.
    pub fn add_detector(&mut self, address: TimeslotAddress, detector: D) -> (added: bool)
        requires
            old(self).well_formed(),
        ensures
            final(self).well_formed(),
            added == (address.is_valid() && !old(self).listening().contains(address)),
            final(self).listening() == if added {
                old(self).listening().push(address)
            } else {
                old(self).listening()
            },
            final(self).heard() == if added {
                old(self).heard().push(Seq::empty())
            } else {
                old(self).heard()
            },
            final(self).debounced() == old(self).debounced(),
            final(self).last_frame_count() == old(self).last_frame_count(),
    {
        if !address.in_range() {
            return false;
        }
        let mut i: usize = 0;
        while i < self.addresses.len()
            invariant
                i <= self.addresses@.len(),
                *self == *old(self),
                self.well_formed(),
                forall|k: int| 0 <= k < i ==> self.addresses@[k] != address,
            decreases self.addresses@.len() - i,
        {
            if self.addresses[i] == address {
                return false;
            }
            i += 1;
        }
        self.addresses.push(address);
        self.detectors.push(detector);
        self.handed_over = Ghost(self.handed_over@.push(Seq::empty()));
        true
    }

    /// What the detectors have been given after `frame`: for each
    /// detector, what it had been given before and the sample of its
    /// timeslot in `frame`, decoded.
    pub open spec fn heard_after(before: Seq<Seq<i16>>, addresses: Seq<TimeslotAddress>, frame: InternalFrame) -> Seq<
        Seq<i16>,
    > {
        Seq::new(
            before.len(),
            |i: int| before[i].push(decode_i16_spec(frame.frame.sample(addresses[i]) as int) as i16),
        )
    }

    /// The samples that each detector has been given so far, in order.
    pub closed spec fn heard(&self) -> Seq<Seq<i16>> {
        self.handed_over@
    }

    /// `frame` leads from the state `before` to the state `after` and to
    /// the report `report`, the detectors having found `found`.
    pub open spec fn frame_outcome(
        before: &Self,
        frame: InternalFrame,
        found: Seq<Option<DetectionEvent>>,
        after: &Self,
        report: SignalingReport,
    ) -> bool {
        &&& after.listening() == before.listening()
        &&& after.last_frame_count() == frame.frame_count
        &&& report.dropped_frames == missing_frames(before.last_frame_count(), frame.frame_count)
        &&& after.debounced() == Seq::new(
            CHANNELS as nat,
            |channel: int| debounced_after(before.debounced()[channel], frame, channel as usize),
        )
        &&& after.heard() == Self::heard_after(before.heard(), before.listening(), frame)
        &&& found.len() == before.listening().len()
        &&& report.events@ == change_events(changes_in_channels(before.debounced(), frame, CHANNELS as int))
            + digit_events(before.listening(), found, found.len() as int)
    }

    /// Takes in one frame. A gap in the frame counts is reported. Every
    /// span's debouncer takes the frame, after beginning anew if a
    /// multiframe of the span begins with it, and the changes that it
    /// accepts are reported. Every detector takes the decoded sample of its
    /// timeslot, and what it finds is reported.
    pub fn process_frame(&mut self, frame_in: &InternalFrame) -> (report: SignalingReport)
        requires
            old(self).well_formed(),
        ensures
            final(self).well_formed(),
            exists|found: Seq<Option<DetectionEvent>>| #[trigger]
                Self::frame_outcome(old(self), *frame_in, found, final(self), report),
    {
        let dropped_frames = self.frame_count_discontinuity_monitor.update(frame_in.frame_count);
        let mut events: Vec<FramerEvent> = Vec::new();
        let ghost before = old(self).debounced();

        let mut channel_index: usize = 0;
        while channel_index < CHANNELS
            invariant
                channel_index <= CHANNELS,
                before == old(self).debounced(),
                before.len() == CHANNELS,
                self.well_formed(),
                self.addresses == old(self).addresses,
                self.detectors == old(self).detectors,
                self.handed_over == old(self).handed_over,
                self.last_frame_count() == frame_in.frame_count,
                events@ == change_events(changes_in_channels(before, *frame_in, channel_index as int)),
                forall|channel: int|
                    0 <= channel < channel_index ==> #[trigger] self.superframe_state[channel].robbed_bit_debouncer@
                        == debounced_after(before[channel], *frame_in, channel as usize),
                forall|channel: int|
                    channel_index <= channel < CHANNELS ==> #[trigger] self.superframe_state[channel].robbed_bit_debouncer@
                        == before[channel],
            decreases CHANNELS - channel_index,
        {
            let mut state = self.superframe_state[channel_index];
            let mf = (frame_in.mf_bits >> (channel_index as u8)) & 1u8 != 0;
            if mf {
                state.robbed_bit_debouncer.new_frame(frame_in.frame_count);
            }
            let changes = state.robbed_bit_debouncer.process_frame(frame_in, channel_index);
            self.superframe_state[channel_index] = state;

            let ghost earlier = events@;
            let mut n: usize = 0;
            while n < changes.len()
                invariant
                    n <= changes@.len(),
                    events@ == earlier + change_events(changes@.subrange(0, n as int)),
                decreases changes@.len() - n,
            {
                let change = changes[n];
                events.push(FramerEvent::RobbedBitState(change.timestamp, change.address, change.abcd));
                proof {
                    assert(change_events(changes@.subrange(0, n + 1)) =~= change_events(
                        changes@.subrange(0, n as int),
                    ).push(FramerEvent::RobbedBitState(change.timestamp, change.address, change.abcd)));
                }
                n += 1;
            }
            proof {
                assert(changes@.subrange(0, changes@.len() as int) =~= changes@);
                let done = changes_in_channels(before, *frame_in, channel_index as int);
                assert(change_events(done + changes@) =~= change_events(done) + change_events(changes@));
            }
            channel_index += 1;
        }

        // Update detectors with new input samples.
        let ghost rbs_events = events@;
        let mut found: Vec<Option<DetectionEvent>> = Vec::new();
        let ghost heard_before = old(self).heard();
        let ghost given = Self::heard_after(heard_before, self.addresses@, *frame_in);
        let mut i: usize = 0;
        while i < self.detectors.len()
            invariant
                i <= self.detectors@.len(),
                self.well_formed(),
                self.addresses == old(self).addresses,
                self.detectors@.len() == old(self).detectors@.len(),
                self.last_frame_count() == frame_in.frame_count,
                self.debounced() == Seq::new(
                    CHANNELS as nat,
                    |channel: int| debounced_after(before[channel], *frame_in, channel as usize),
                ),
                heard_before == old(self).heard(),
                heard_before.len() == self.detectors@.len(),
                given == Self::heard_after(heard_before, self.addresses@, *frame_in),
                found@.len() == i,
                events@ == rbs_events,
                self.heard().len() == heard_before.len(),
                forall|k: int| 0 <= k < i ==> #[trigger] self.heard()[k] == given[k],
                forall|k: int| i <= k < self.detectors@.len() ==> #[trigger] self.heard()[k] == heard_before[k],
            decreases self.detectors@.len() - i,
        {
            let address = self.addresses[i];
            let sample_ulaw = frame_in.frame.timeslot(&address);
            let sample_linear = decode_i16(sample_ulaw);
            self.handed_over = Ghost(self.handed_over@.update(i as int, self.handed_over@[i as int].push(sample_linear)));
            let output = self.detectors[i].advance(sample_linear);
            found.push(output);
            i += 1;
        }
        note_digits(&mut events, &self.addresses, &found);
        let report = SignalingReport { dropped_frames, events };
        proof {
            assert(self.heard() =~= Self::heard_after(old(self).heard(), old(self).listening(), *frame_in));
            assert(Self::frame_outcome(old(self), *frame_in, found@, self, report));
        }
        report
    }
}

/// Adds to `events` the digits that the detectors at `addresses` found: for
/// each detector that found one, in the order of the detectors. What was
/// found by more detectors than there are addresses is left out.
pub fn note_digits(events: &mut Vec<FramerEvent>, addresses: &Vec<TimeslotAddress>, found: &Vec<Option<DetectionEvent>>)
    ensures
        final(events)@ == old(events)@ + digit_events(
            addresses@,
            found@,
            if found@.len() <= addresses@.len() {
                found@.len() as int
            } else {
                addresses@.len() as int
            },
        ),
{
    let count = if found.len() <= addresses.len() {
        found.len()
    } else {
        addresses.len()
    };
    let mut i: usize = 0;
    proof {
        assert(events@ =~= old(events)@ + digit_events(addresses@, found@, 0));
    }
    while i < count
        invariant
            i <= count,
            count <= found@.len(),
            count <= addresses@.len(),
            events@ == old(events)@ + digit_events(addresses@, found@, i as int),
        decreases count - i,
    {
        match found[i] {
            Some(event) => {
                events.push(FramerEvent::Digit(addresses[i], event));
                proof {
                    assert(events@ =~= old(events)@ + digit_events(addresses@, found@, i + 1));
                }
            },
            None => {},
        }
        i += 1;
    }
}

} // verus!
