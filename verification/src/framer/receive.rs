//! The receive packet processor: what each IN packet does to the counters,
//! the statistics and the two rings that carry the frames onward.

use vstd::prelude::*;
use ringbuf::Producer;
use crate::framer::frame::InternalFrame;
use crate::framer::ring::{ring_accepted, ring_push};
use crate::framer::statistics::{
    histogram_with, saturating_increment, wrapping_increment, DebugMessage, DebugReport,
    FramerCumulativeStatistics, FramerPeriodicStatistics, PeriodicStatistics, RX_FIFO_DEPTH,
    STATISTICS_PERIOD_FRAMES, TX_FIFO_DEPTH,
};
use crate::framer::wire::{
    rx_frame_bytes, rx_frame_count, rx_usb_report_bytes, RxFrame, RxPacket, RxUSBReport,
    RX_USB_REPORT_SIZE,
};

verus! {

/// Why a packet was set aside.
#[derive(Copy, Clone, Debug, PartialEq, Eq, Structural)]
pub enum RxPacketError {
    /// The report names a FIFO level that the device's FIFO does not have.
    FifoLevelOutOfRange,
}

/// What became of one frame at the two rings.
pub struct Fanout {
    /// The audio ring took the frame.
    pub audio: bool,
    /// The signaling ring took the frame.
    pub signaling: bool,
}

/// What a [`RxPacketProcessor`] holds.
pub struct ReceiveState {
    pub periodic: PeriodicStatistics,
    pub cumulative: FramerCumulativeStatistics,
    /// Frames dropped because the signaling ring was full.
    pub signaling_frames_drop_count: u32,
    /// Packets set aside because their report could not be true.
    pub malformed_packet_count: u32,
    /// The start-of-frame count that the next packet should report.
    pub sof_count_next: u32,
    /// The frame count that the next frame should carry.
    pub frame_count_next: u32,
    /// Lowest transmit FIFO level reported since the levels were reset.
    pub tx_fifo_level_min: u8,
    /// Highest transmit FIFO level reported since the levels were reset.
    pub tx_fifo_level_max: u8,
    /// All frames that the audio ring has taken.
    pub audio_accepted: Seq<InternalFrame>,
    /// All frames that the signaling ring has taken.
    pub signaling_accepted: Seq<InternalFrame>,
}

/// The frame as the rest of the pipeline handles it.
pub open spec fn internal_frame(frame: RxFrame) -> InternalFrame {
    InternalFrame { frame: frame.frame, frame_count: frame.report.frame_count, mf_bits: frame.report.mf_bits }
}

/// The report names FIFO levels that the device's FIFOs have.
pub open spec fn report_is_plausible(report: RxUSBReport) -> bool {
    report.fifo_rx_level < RX_FIFO_DEPTH && report.fifo_tx_level < TX_FIFO_DEPTH
}

impl ReceiveState {
    /// The state with no transmit FIFO level observed.
    pub open spec fn with_tx_fifo_levels_reset(self) -> ReceiveState {
        ReceiveState { tx_fifo_level_min: u8::MAX, tx_fifo_level_max: u8::MIN, ..self }
    }

    /// The state after a packet was set aside.
    pub open spec fn with_malformed_packet(self) -> ReceiveState {
        ReceiveState { malformed_packet_count: saturating_increment(self.malformed_packet_count), ..self }
    }

    /// The state after the report of a packet was taken in: a start-of-frame
    /// count other than the expected one is noted, and the next one expected
    /// is the one after the reported; the FIFO levels are entered in the
    /// histograms and in the range of transmit levels; the device's own
    /// counts are copied.
    pub open spec fn with_report(self, report: RxUSBReport) -> ReceiveState {
        ReceiveState {
            periodic: PeriodicStatistics {
                rx_fifo_level_histogram: histogram_with(
                    self.periodic.rx_fifo_level_histogram,
                    report.fifo_rx_level as int,
                ),
                tx_fifo_level_histogram: histogram_with(
                    self.periodic.tx_fifo_level_histogram,
                    report.fifo_tx_level as int,
                ),
                frame_count: self.periodic.frame_count,
            },
            cumulative: FramerCumulativeStatistics {
                rx_fifo_underflow_count: report.fifo_rx_underflow_count,
                tx_fifo_overflow_count: report.fifo_tx_overflow_count,
                sof_discontinuity_count: if report.sof_count != self.sof_count_next {
                    saturating_increment(self.cumulative.sof_discontinuity_count)
                } else {
                    self.cumulative.sof_discontinuity_count
                },
                ..self.cumulative
            },
            sof_count_next: wrapping_increment(report.sof_count),
            tx_fifo_level_min: if report.fifo_tx_level < self.tx_fifo_level_min {
                report.fifo_tx_level
            } else {
                self.tx_fifo_level_min
            },
            tx_fifo_level_max: if report.fifo_tx_level > self.tx_fifo_level_max {
                report.fifo_tx_level
            } else {
                self.tx_fifo_level_max
            },
            ..self
        }
    }

    /// The period ends with the next frame.
    pub open spec fn statistics_due(self) -> bool {
        saturating_increment(self.periodic.frame_count) >= STATISTICS_PERIOD_FRAMES
    }

    /// What is reported when the period ends with the next frame: the
    /// statistics of the period, that frame counted, and the cumulative
    /// counters as they stand before that frame is looked at.
    pub open spec fn statistics_report(self) -> DebugReport {
        DebugReport::FramerStatistics(
            PeriodicStatistics { frame_count: saturating_increment(self.periodic.frame_count), ..self.periodic },
            self.cumulative,
        )
    }

    /// The state after one frame: the frame is counted, and a period that
    /// ends with it starts afresh; a frame count other than the expected one
    /// is noted, and the next one expected is the one after it; the frame is
    /// in each ring that took it and counted as dropped for each that did
    /// not.
    pub open spec fn with_frame(self, frame: RxFrame, fanout: Fanout) -> ReceiveState {
        ReceiveState {
            periodic: if self.statistics_due() {
                PeriodicStatistics::empty()
            } else {
                PeriodicStatistics {
                    frame_count: saturating_increment(self.periodic.frame_count),
                    ..self.periodic
                }
            },
            cumulative: FramerCumulativeStatistics {
                frame_discontinuity_count: if frame.report.frame_count != self.frame_count_next {
                    saturating_increment(self.cumulative.frame_discontinuity_count)
                } else {
                    self.cumulative.frame_discontinuity_count
                },
                ringbuf_full_drop_count: if fanout.audio {
                    self.cumulative.ringbuf_full_drop_count
                } else {
                    saturating_increment(self.cumulative.ringbuf_full_drop_count)
                },
                ..self.cumulative
            },
            signaling_frames_drop_count: if fanout.signaling {
                self.signaling_frames_drop_count
            } else {
                saturating_increment(self.signaling_frames_drop_count)
            },
            frame_count_next: wrapping_increment(frame.report.frame_count),
            audio_accepted: if fanout.audio {
                self.audio_accepted.push(internal_frame(frame))
            } else {
                self.audio_accepted
            },
            signaling_accepted: if fanout.signaling {
                self.signaling_accepted.push(internal_frame(frame))
            } else {
                self.signaling_accepted
            },
            ..self
        }
    }

    /// The state after a run of frames, taken one after the other.
    pub open spec fn with_frames(self, frames: Seq<RxFrame>, fanout: Seq<Fanout>) -> ReceiveState
        decreases frames.len(),
    {
        if frames.len() == 0 {
            self
        } else {
            self.with_frames(frames.drop_last(), fanout.drop_last()).with_frame(frames.last(), fanout.last())
        }
    }

    /// The statistics reported during a run of frames, in order.
    pub open spec fn reports_of_frames(self, frames: Seq<RxFrame>, fanout: Seq<Fanout>) -> Seq<DebugReport>
        decreases frames.len(),
    {
        if frames.len() == 0 {
            Seq::empty()
        } else {
            let before = self.with_frames(frames.drop_last(), fanout.drop_last());
            let earlier = self.reports_of_frames(frames.drop_last(), fanout.drop_last());
            if before.statistics_due() {
                earlier.push(before.statistics_report())
            } else {
                earlier
            }
        }
    }
}

/// `frames` are the frames that `packet` holds, in order.
pub open spec fn packet_holds(packet: Seq<u8>, frames: Seq<RxFrame>) -> bool {
    &&& frames.len() == rx_frame_count(packet.len() as int)
    &&& forall|i: int| 0 <= i < frames.len() ==> (#[trigger] frames[i]).is_decoded_from(rx_frame_bytes(packet, i))
}

/// What the messages say, one after the other.
pub open spec fn reports_of(messages: Seq<DebugMessage>) -> Seq<DebugReport> {
    Seq::new(messages.len(), |i: int| messages[i]@)
}

/// A packet with frames `frames`, of which the rings took what `fanout`
/// says, leads from `before` to `after` and to the messages `messages`.
pub open spec fn packet_outcome(
    before: ReceiveState,
    report: RxUSBReport,
    frames: Seq<RxFrame>,
    fanout: Seq<Fanout>,
    after: ReceiveState,
    messages: Seq<DebugMessage>,
) -> bool {
    &&& fanout.len() == frames.len()
    &&& after == before.with_report(report).with_frames(frames, fanout)
    &&& reports_of(messages) == before.with_report(report).reports_of_frames(frames, fanout)
}

/// What is not in the bytes of a packet: the frames as they are read from
/// the bytes, and what the rings did with each of them.
pub struct PacketWitness {
    pub frames: Seq<RxFrame>,
    pub fanout: Seq<Fanout>,
}

/// The bytes can be taken in as a packet: they are enough for a report,
/// and the report is plausible.
pub open spec fn bytes_are_acceptable(bytes: Seq<u8>) -> bool {
    bytes.len() >= RX_USB_REPORT_SIZE && report_is_plausible(RxUSBReport::decode(rx_usb_report_bytes(bytes)))
}

/// `witness` holds the frames of the packet `bytes`, and for each of them
/// what the rings did.
pub open spec fn witness_fits(bytes: Seq<u8>, witness: PacketWitness) -> bool {
    bytes_are_acceptable(bytes) ==> packet_holds(bytes, witness.frames) && witness.fanout.len()
        == witness.frames.len()
}

impl ReceiveState {
    /// The state after the bytes of one packet: after its report and its
    /// frames if the bytes can be taken in as a packet, and else after a
    /// packet set aside.
    pub open spec fn with_bytes(self, bytes: Seq<u8>, witness: PacketWitness) -> ReceiveState {
        if bytes_are_acceptable(bytes) {
            self.with_report(RxUSBReport::decode(rx_usb_report_bytes(bytes))).with_frames(
                witness.frames,
                witness.fanout,
            )
        } else {
            self.with_malformed_packet()
        }
    }

    /// The statistics reported while the bytes of one packet are taken in.
    pub open spec fn reports_of_bytes(self, bytes: Seq<u8>, witness: PacketWitness) -> Seq<DebugReport> {
        if bytes_are_acceptable(bytes) {
            self.with_report(RxUSBReport::decode(rx_usb_report_bytes(bytes))).reports_of_frames(
                witness.frames,
                witness.fanout,
            )
        } else {
            Seq::empty()
        }
    }
}

/// Takes IN packets apart: checks the counters that the device sends along,
/// keeps statistics, and hands every frame to the audio ring and to the
/// signaling ring.
pub struct RxPacketProcessor {
    unprocessed_frames_producer: Producer<InternalFrame>,
    signaling_frames_producer: Producer<InternalFrame>,
    framer_periodic_statistics: FramerPeriodicStatistics,
    framer_cumulative_statistics: FramerCumulativeStatistics,
    signaling_frames_drop_count: u32,
    malformed_packet_count: u32,
    sof_count_next: u32,
    frame_count_next: u32,
    tx_fifo_level_min: u8,
    tx_fifo_level_max: u8,
}

impl View for RxPacketProcessor {
    type V = ReceiveState;

    closed spec fn view(&self) -> ReceiveState {
        ReceiveState {
            periodic: self.framer_periodic_statistics@,
            cumulative: self.framer_cumulative_statistics,
            signaling_frames_drop_count: self.signaling_frames_drop_count,
            malformed_packet_count: self.malformed_packet_count,
            sof_count_next: self.sof_count_next,
            frame_count_next: self.frame_count_next,
            tx_fifo_level_min: self.tx_fifo_level_min,
            tx_fifo_level_max: self.tx_fifo_level_max,
            audio_accepted: ring_accepted(self.unprocessed_frames_producer),
            signaling_accepted: ring_accepted(self.signaling_frames_producer),
        }
    }
}

impl RxPacketProcessor {
    /// A processor that feeds the two rings whose producing ends it is
    /// given. It expects the counts of the device to begin at zero.
    pub fn new(frames_in: Producer<InternalFrame>, signaling_frames_producer: Producer<InternalFrame>) -> (processor:
        Self)
        ensures
            processor@ == (ReceiveState {
                periodic: PeriodicStatistics::empty(),
                cumulative: FramerCumulativeStatistics::zero(),
                signaling_frames_drop_count: 0,
                malformed_packet_count: 0,
                sof_count_next: 0,
                frame_count_next: 0,
                tx_fifo_level_min: u8::MAX,
                tx_fifo_level_max: u8::MIN,
                audio_accepted: ring_accepted(frames_in),
                signaling_accepted: ring_accepted(signaling_frames_producer),
            }),
    {
        Self {
            unprocessed_frames_producer: frames_in,
            signaling_frames_producer,
            framer_periodic_statistics: FramerPeriodicStatistics::default(),
            framer_cumulative_statistics: FramerCumulativeStatistics::default(),
            signaling_frames_drop_count: 0,
            malformed_packet_count: 0,
            sof_count_next: 0,
            frame_count_next: 0,
            tx_fifo_level_min: u8::MAX,
            tx_fifo_level_max: u8::MIN,
        }
    }

    /// Forgets the transmit FIFO levels seen so far: the range is empty
    /// until the next report.
    pub fn reset_tx_fifo_level_stats(&mut self)
        ensures
            final(self)@ == old(self)@.with_tx_fifo_levels_reset(),
    {
        self.tx_fifo_level_max = u8::MIN;
        self.tx_fifo_level_min = u8::MAX;
    }

    /// Lowest and highest transmit FIFO level reported since the levels
    /// were reset; the lowest is above the highest when none was.
    pub fn tx_fifo_level_range(&self) -> (range: (u8, u8))
        ensures
            range.0 == self@.tx_fifo_level_min,
            range.1 == self@.tx_fifo_level_max,
    {
        (self.tx_fifo_level_min, self.tx_fifo_level_max)
    }

    /// The statistics of the period that is under way.
    pub fn periodic_statistics(&self) -> (statistics: FramerPeriodicStatistics)
        ensures
            statistics@ == self@.periodic,
    {
        self.framer_periodic_statistics
    }

    /// The cumulative counters.
    pub fn cumulative_statistics(&self) -> (statistics: FramerCumulativeStatistics)
        ensures
            statistics == self@.cumulative,
    {
        self.framer_cumulative_statistics
    }

    /// Number of frames that the signaling ring did not take.
    pub fn signaling_frames_drop_count(&self) -> (count: u32)
        ensures
            count == self@.signaling_frames_drop_count,
    {
        self.signaling_frames_drop_count
    }

    /// Number of packets set aside.
    pub fn malformed_packet_count(&self) -> (count: u32)
        ensures
            count == self@.malformed_packet_count,
    {
        self.malformed_packet_count
    }

    /// The start-of-frame count that the next packet should report.
    pub fn sof_count_next(&self) -> (count: u32)
        ensures
            count == self@.sof_count_next,
    {
        self.sof_count_next
    }

    /// The frame count that the next frame should carry.
    pub fn frame_count_next(&self) -> (count: u32)
        ensures
            count == self@.frame_count_next,
    {
        self.frame_count_next
    }

    /// Takes in the report of a packet.
    fn account_report(&mut self, report: &RxUSBReport)
        requires
            report_is_plausible(*report),
        ensures
            final(self)@ == old(self)@.with_report(*report),
    {
        // Check that the USB start-of-frame count is sequential. If frames
        // were skipped or repeated, make a note of it.
        if report.sof_count != self.sof_count_next {
            self.framer_cumulative_statistics.sof_discontinuity_count =
                self.framer_cumulative_statistics.sof_discontinuity_count.saturating_add(1);
        }
        self.sof_count_next = report.sof_count.wrapping_add(1);

        let rx_level = report.fifo_rx_level as usize;
        let tx_level = report.fifo_tx_level as usize;
        let rx_seen = self.framer_periodic_statistics.rx_fifo_level_histogram[rx_level];
        self.framer_periodic_statistics.rx_fifo_level_histogram[rx_level] = rx_seen.saturating_add(1);
        let tx_seen = self.framer_periodic_statistics.tx_fifo_level_histogram[tx_level];
        self.framer_periodic_statistics.tx_fifo_level_histogram[tx_level] = tx_seen.saturating_add(1);
        self.framer_cumulative_statistics.rx_fifo_underflow_count = report.fifo_rx_underflow_count;
        self.framer_cumulative_statistics.tx_fifo_overflow_count = report.fifo_tx_overflow_count;

        if report.fifo_tx_level < self.tx_fifo_level_min {
            self.tx_fifo_level_min = report.fifo_tx_level;
        }
        if report.fifo_tx_level > self.tx_fifo_level_max {
            self.tx_fifo_level_max = report.fifo_tx_level;
        }
        proof {
            let after = old(self)@.with_report(*report);
            assert(self@.periodic.rx_fifo_level_histogram =~= after.periodic.rx_fifo_level_histogram);
            assert(self@.periodic.tx_fifo_level_histogram =~= after.periodic.tx_fifo_level_histogram);
        }
    }

    /// Takes in one frame: counts it, checks its count, and offers it to
    /// both rings. Returns the statistics of the period if the period ends
    /// with this frame.
    fn account_frame(&mut self, frame: &RxFrame) -> (outcome: (Option<DebugMessage>, Ghost<Fanout>))
        ensures
            final(self)@ == old(self)@.with_frame(*frame, outcome.1@),
            outcome.0 is Some <==> old(self)@.statistics_due(),
            outcome.0 is Some ==> outcome.0->0@ == old(self)@.statistics_report(),
    {
        let mut message: Option<DebugMessage> = None;
        self.framer_periodic_statistics.frame_count = self.framer_periodic_statistics.frame_count.saturating_add(1);
        if self.framer_periodic_statistics.frame_count >= STATISTICS_PERIOD_FRAMES {
            message = Some(
                DebugMessage::FramerStatistics(self.framer_periodic_statistics, self.framer_cumulative_statistics),
            );
            self.framer_periodic_statistics = FramerPeriodicStatistics::default();
        }
        // Check that the frame count is sequential. If frames were skipped
        // or repeated, make a note of it.

        if frame.report.frame_count != self.frame_count_next {
            self.framer_cumulative_statistics.frame_discontinuity_count =
                self.framer_cumulative_statistics.frame_discontinuity_count.saturating_add(1);
        }
        self.frame_count_next = frame.report.frame_count.wrapping_add(1);

        let internal = frame.to_internal();
        let audio = ring_push(&mut self.unprocessed_frames_producer, internal);
        if !audio {
            self.framer_cumulative_statistics.ringbuf_full_drop_count =
                self.framer_cumulative_statistics.ringbuf_full_drop_count.saturating_add(1);
        }
        let signaling = ring_push(&mut self.signaling_frames_producer, internal);
        if !signaling {
            self.signaling_frames_drop_count = self.signaling_frames_drop_count.saturating_add(1);
        }
        (message, Ghost(Fanout { audio, signaling }))
    }

    /// Takes in a report and the frames that came with it, whatever the
    /// rings do with the frames: for each way the rings can take or refuse
    /// them, the state and the messages are the ones that
    /// [`packet_outcome`] gives. A report that names a FIFO level which the
    /// device does not have is noted, and nothing else changes.
    pub fn process_frames(&mut self, report: &RxUSBReport, frames: &Vec<RxFrame>) -> (result: Result<
        Vec<DebugMessage>,
        RxPacketError,
    >)
        ensures
            result is Ok <==> report_is_plausible(*report),
            result is Ok ==> exists|fanout: Seq<Fanout>| #[trigger]
                packet_outcome(old(self)@, *report, frames@, fanout, final(self)@, result->Ok_0@),
            result matches Err(error) ==> error == RxPacketError::FifoLevelOutOfRange && final(self)@ == old(
                self,
            )@.with_malformed_packet(),
    {
        if report.fifo_rx_level as usize >= RX_FIFO_DEPTH || report.fifo_tx_level as usize >= TX_FIFO_DEPTH {
            self.malformed_packet_count = self.malformed_packet_count.saturating_add(1);
            return Err(RxPacketError::FifoLevelOutOfRange);
        }
        self.account_report(report);
        let ghost start = self@;
        let ghost mut fanout: Seq<Fanout> = Seq::empty();
        let mut messages: Vec<DebugMessage> = Vec::new();
        let mut index: usize = 0;
        proof {
            assert(reports_of(messages@) =~= start.reports_of_frames(frames@.subrange(0, 0), fanout));
        }
        while index < frames.len()
            invariant
                index <= frames@.len(),
                fanout.len() == index,
                self@ == start.with_frames(frames@.subrange(0, index as int), fanout),
                reports_of(messages@) == start.reports_of_frames(frames@.subrange(0, index as int), fanout),
            decreases frames@.len() - index,
        {
            let ghost before = self@;
            let ghost earlier = messages@;
            let (message, taken) = self.account_frame(&frames[index]);
            if let Some(message) = message {
                messages.push(message);
            }
            proof {
                let done = frames@.subrange(0, index as int);
                let next = frames@.subrange(0, index + 1);
                let longer = fanout.push(taken@);
                assert(next.drop_last() =~= done);
                assert(longer.drop_last() =~= fanout);
                assert(next.last() == frames@[index as int]);
                assert(longer.last() == taken@);
                if before.statistics_due() {
                    assert(reports_of(messages@) =~= reports_of(earlier).push(before.statistics_report()));
                } else {
                    assert(reports_of(messages@) =~= reports_of(earlier));
                }
                fanout = longer;
            }
            index += 1;
        }
        proof {
            assert(frames@.subrange(0, frames@.len() as int) =~= frames@);
            assert(packet_outcome(old(self)@, *report, frames@, fanout, self@, messages@));
        }
        let ghost said = messages@;
        let ghost witness = fanout;
        let result: Result<Vec<DebugMessage>, RxPacketError> = Ok(messages);
        assert(result->Ok_0@ == said);
        assert(packet_outcome(old(self)@, *report, frames@, witness, self@, result->Ok_0@));
        result
    }

    /// Takes in one IN packet: its report, then its frames in order, as
    /// [`RxPacketProcessor::process_frames`] does.
    pub fn process(&mut self, packet: &RxPacket) -> (result: Result<Vec<DebugMessage>, RxPacketError>)
        ensures
            result is Ok <==> report_is_plausible(RxUSBReport::decode(rx_usb_report_bytes(packet@))),
            result is Ok ==> exists|frames: Seq<RxFrame>, fanout: Seq<Fanout>|
                packet_holds(packet@, frames) && #[trigger] packet_outcome(
                    old(self)@,
                    RxUSBReport::decode(rx_usb_report_bytes(packet@)),
                    frames,
                    fanout,
                    final(self)@,
                    result->Ok_0@,
                ),
            result matches Err(error) ==> error == RxPacketError::FifoLevelOutOfRange && final(self)@ == old(
                self,
            )@.with_malformed_packet(),
    {
        let report = packet.usb_report();
        let frames = packet.frames();
        self.process_frames(&report, &frames)
    }
}

impl RxPacketProcessor {
    /// Takes in the bytes that one isochronous packet delivered. Bytes that
    /// are too few for a report, or whose report names a FIFO level which
    /// the device does not have, are set aside and counted; any others are
    /// taken in as [`RxPacketProcessor::process`] does. Returns the
    /// statistics that fell due.
    pub fn receive(&mut self, bytes: &[u8]) -> (messages: Vec<DebugMessage>)
        ensures
            exists|witness: PacketWitness| #[trigger]
                witness_fits(bytes@, witness) && final(self)@ == old(self)@.with_bytes(bytes@, witness)
                    && reports_of(messages@) == old(self)@.reports_of_bytes(bytes@, witness),
    {
        let packet = match RxPacket::from_slice(bytes) {
            Some(packet) => packet,
            None => {
                self.malformed_packet_count = self.malformed_packet_count.saturating_add(1);
                return self.nothing_to_report(Ghost(bytes@), Ghost(*old(self)));
            },
        };
        match self.process(&packet) {
            Ok(messages) => {
                proof {
                    let (frames, fanout) = choose|frames: Seq<RxFrame>, fanout: Seq<Fanout>|
                        packet_holds(bytes@, frames) && #[trigger] packet_outcome(
                            old(self)@,
                            RxUSBReport::decode(rx_usb_report_bytes(bytes@)),
                            frames,
                            fanout,
                            self@,
                            messages@,
                        );
                    let witness = PacketWitness { frames, fanout };
                    assert(witness_fits(bytes@, witness) && self@ == old(self)@.with_bytes(bytes@, witness)
                        && reports_of(messages@) == old(self)@.reports_of_bytes(bytes@, witness));
                }
                messages
            },
            Err(_) => self.nothing_to_report(Ghost(bytes@), Ghost(*old(self))),
        }
    }

    /// No messages, for bytes that were set aside.
    fn nothing_to_report(&self, Ghost(bytes): Ghost<Seq<u8>>, Ghost(before): Ghost<Self>) -> (messages: Vec<
        DebugMessage,
    >)
        requires
            !bytes_are_acceptable(bytes),
            self@ == before@.with_malformed_packet(),
        ensures
            exists|witness: PacketWitness| #[trigger]
                witness_fits(bytes, witness) && self@ == before@.with_bytes(bytes, witness) && reports_of(
                    messages@,
                ) == before@.reports_of_bytes(bytes, witness),
    {
        let messages: Vec<DebugMessage> = Vec::new();
        proof {
            let witness = PacketWitness { frames: Seq::empty(), fanout: Seq::empty() };
            assert(reports_of(messages@) =~= Seq::<DebugReport>::empty());
            assert(witness_fits(bytes, witness) && self@ == before@.with_bytes(bytes, witness) && reports_of(
                messages@,
            ) == before@.reports_of_bytes(bytes, witness));
        }
        messages
    }
}

/// A packet and a frame that carry the expected counts are not counted as
/// discontinuities, and each moves the count expected next on by exactly
/// one, from the largest count to zero.
pub proof fn lemma_counts_in_sequence_advance_by_one(
    state: ReceiveState,
    report: RxUSBReport,
    frame: RxFrame,
    fanout: Fanout,
)
    requires
        report.sof_count == state.sof_count_next,
        frame.report.frame_count == state.frame_count_next,
    ensures
        state.with_report(report).sof_count_next == wrapping_increment(state.sof_count_next),
        state.with_report(report).cumulative.sof_discontinuity_count
            == state.cumulative.sof_discontinuity_count,
        state.with_frame(frame, fanout).frame_count_next == wrapping_increment(state.frame_count_next),
        state.with_frame(frame, fanout).cumulative.frame_discontinuity_count
            == state.cumulative.frame_discontinuity_count,
{
}

/// A packet without frames changes nothing beyond what its report changes:
/// nothing is offered to the rings and no statistics are reported.
pub proof fn lemma_packet_without_frames(state: ReceiveState, report: RxUSBReport, fanout: Seq<Fanout>)
    ensures
        state.with_report(report).with_frames(Seq::empty(), fanout) == state.with_report(report),
        state.with_report(report).reports_of_frames(Seq::empty(), fanout) == Seq::<DebugReport>::empty(),
        state.with_report(report).audio_accepted == state.audio_accepted,
        state.with_report(report).signaling_accepted == state.signaling_accepted,
{
}

/// Every FIFO level from empty to one below the depth is taken in, and is
/// entered in the histogram at its own place.
pub proof fn lemma_fifo_levels_within_depth(state: ReceiveState, report: RxUSBReport)
    requires
        state.periodic.well_formed(),
        report.fifo_rx_level < RX_FIFO_DEPTH,
        report.fifo_tx_level < TX_FIFO_DEPTH,
    ensures
        report_is_plausible(report),
        state.with_report(report).periodic.well_formed(),
        state.with_report(report).periodic.rx_fifo_level_histogram[report.fifo_rx_level as int]
            == saturating_increment(state.periodic.rx_fifo_level_histogram[report.fifo_rx_level as int]),
        state.with_report(report).periodic.tx_fifo_level_histogram[report.fifo_tx_level as int]
            == saturating_increment(state.periodic.tx_fifo_level_histogram[report.fifo_tx_level as int]),
{
}

} // verus!
