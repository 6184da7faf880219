//! The loopback pump: what is done when a transfer from the adapter
//! completes, and what is put into a transfer to the adapter.
//!
//! Frames received go through the audio processor and back to the adapter.
//! The adapter takes them at its own pace; the number of frames sent is
//! matched to that pace by watching the level of its transmit FIFO.

use vstd::prelude::*;
use ringbuf::{Consumer, Producer};
use crate::framer::audio::{AudioProcessor, ToneGenerator, ToneSamples};
use crate::framer::frame::{InternalFrame, TimeslotAddress};
use crate::framer::receive::{reports_of, witness_fits, PacketWitness, ReceiveState, RxPacketProcessor};
use crate::framer::ring::{ring_accepted, ring_delivered, ring_pop, ring_push};
use crate::framer::statistics::{saturating_increment, DebugMessage, DebugReport};
use crate::framer::wire::{encode_tx_packet, tx_packet_encoding, TxUSBReport};

verus! {

/// Number of frames that the ring between the receiver and the audio
/// processor holds, and the ring after the processor: 5 milliseconds.
pub const AUDIO_RINGBUFFER_FRAMES: usize = 40;

/// Number of frames that the ring to the signaling processor holds: the
/// signaling processor runs at a lower priority and needs more slack.
pub const SIGNALING_RINGBUFFER_FRAMES: usize = 200;

/// Number of packets in a transfer: one millisecond, nominally eight
/// frames.
pub const PACKETS_PER_TRANSFER: usize = 8;

/// Number of transfers in flight in each direction.
pub const TRANSFERS_COUNT: usize = 8;

/// Number of bytes that a packet can take.
pub const PACKET_LENGTH: usize = 512;

/// Fewest packets in flight that absorb two milliseconds of delay on the
/// host.
pub const PACKETS_IN_FLIGHT_MIN: usize = 16;

/// The level of the transmit FIFO around which it is held: while the level
/// stays above, too much is being sent; while it stays below, too little.
pub const TX_FIFO_LEVEL_LOW: u8 = 12;

/// Tells whether `transfers` transfers of `packets` packets each are enough
/// to keep the stream going over two milliseconds of delay on the host.
pub fn pool_is_deep_enough(transfers: usize, packets: usize) -> (enough: bool)
    ensures
        enough == (transfers * packets >= PACKETS_IN_FLIGHT_MIN),
{
    if transfers >= PACKETS_IN_FLIGHT_MIN || packets >= PACKETS_IN_FLIGHT_MIN {
        assert(transfers * packets >= PACKETS_IN_FLIGHT_MIN || transfers == 0 || packets == 0) by (nonlinear_arith)
            requires
                transfers >= PACKETS_IN_FLIGHT_MIN || packets >= PACKETS_IN_FLIGHT_MIN,
        ;
        assert(transfers == 0 || packets == 0 ==> transfers * packets == 0) by (nonlinear_arith);
        transfers > 0 && packets > 0
    } else {
        assert(transfers * packets < 256) by (nonlinear_arith)
            requires
                transfers < 16,
                packets < 16,
        ;
        transfers * packets >= PACKETS_IN_FLIGHT_MIN
    }
}

/// What is done to match the pace of the adapter.
#[derive(Copy, Clone, Debug, PartialEq, Eq, Structural)]
pub struct RateMatch {
    /// One processed frame is thrown away.
    pub discard: bool,
    /// Number of frames for the first packet of the transfer.
    pub first_packet_frames: usize,
}

/// What is done when the level of the transmit FIFO ranged from `min` to
/// `max` during the last transfer received. A range whose lowest level is
/// above its highest is no range: nothing was observed, and nothing is
/// changed. A range that lies above [`TX_FIFO_LEVEL_LOW`] altogether calls
/// for one frame less: the first packet is sent empty, and one frame is
/// thrown away. A range that lies below altogether calls for one frame
/// more. Any other range calls for nothing.
pub open spec fn rate_match_for(min: u8, max: u8) -> RateMatch {
    if min <= max && min > TX_FIFO_LEVEL_LOW {
        RateMatch { discard: true, first_packet_frames: 0 }
    } else if min <= max && max < TX_FIFO_LEVEL_LOW {
        RateMatch { discard: false, first_packet_frames: 2 }
    } else {
        RateMatch { discard: false, first_packet_frames: 1 }
    }
}

/// Decides what is done to match the pace of the adapter.
pub fn rate_match(min: u8, max: u8) -> (plan: RateMatch)
    ensures
        plan == rate_match_for(min, max),
{
    if min <= max {
        // min/max are valid (not set to MAX/MIN).
        if min > TX_FIFO_LEVEL_LOW {
            // Draw down the TX FIFO level: it is too high.
            RateMatch { discard: true, first_packet_frames: 0 }
        } else if max < TX_FIFO_LEVEL_LOW {
            RateMatch { discard: false, first_packet_frames: 2 }
        } else {
            RateMatch { discard: false, first_packet_frames: 1 }
        }
    } else {
        RateMatch { discard: false, first_packet_frames: 1 }
    }
}

/// Number of frames meant for packet `packet` of a transfer: what the plan
/// says for the first, one for every other.
pub open spec fn frames_planned(plan: RateMatch, packet: int) -> int {
    if packet == 0 {
        plan.first_packet_frames as int
    } else {
        1
    }
}

/// The report that begins every OUT packet.
pub open spec fn tx_report() -> TxUSBReport {
    TxUSBReport { frame_count: 0 }
}

/// The bytes of the packets of a transfer received.
pub open spec fn packet_bytes(packets: Seq<Vec<u8>>) -> Seq<Seq<u8>> {
    Seq::new(packets.len(), |i: int| packets[i]@)
}

/// The state of the receiver after the first `n` packets.
pub open spec fn state_after_packets(
    before: ReceiveState,
    packets: Seq<Seq<u8>>,
    witnesses: Seq<PacketWitness>,
    n: int,
) -> ReceiveState
    decreases n,
{
    if n <= 0 {
        before
    } else {
        state_after_packets(before, packets, witnesses, n - 1).with_bytes(packets[n - 1], witnesses[n - 1])
    }
}

/// The statistics reported during the first `n` packets.
pub open spec fn reports_of_packets(
    before: ReceiveState,
    packets: Seq<Seq<u8>>,
    witnesses: Seq<PacketWitness>,
    n: int,
) -> Seq<DebugReport>
    decreases n,
{
    if n <= 0 {
        Seq::empty()
    } else {
        reports_of_packets(before, packets, witnesses, n - 1) + state_after_packets(
            before,
            packets,
            witnesses,
            n - 1,
        ).reports_of_bytes(packets[n - 1], witnesses[n - 1])
    }
}

/// A transfer with packets `packets` leads the receiver from `before` to
/// `after` and to the messages `messages`: the range of transmit FIFO
/// levels is begun anew, the packets are taken in one after the other, and
/// the range is reported last.
pub open spec fn transfer_in_outcome(
    before: ReceiveState,
    packets: Seq<Seq<u8>>,
    witnesses: Seq<PacketWitness>,
    after: ReceiveState,
    messages: Seq<DebugMessage>,
) -> bool {
    let start = before.with_tx_fifo_levels_reset();
    &&& witnesses.len() == packets.len()
    &&& forall|i: int| 0 <= i < packets.len() ==> witness_fits(packets[i], #[trigger] witnesses[i])
    &&& after == state_after_packets(start, packets, witnesses, packets.len() as int)
    &&& reports_of(messages) == reports_of_packets(start, packets, witnesses, packets.len() as int).push(
        DebugReport::TxFIFORange(after.tx_fifo_level_min, after.tx_fifo_level_max),
    )
}

/// One frame on its way through the audio processor.
pub struct AudioStep {
    /// The frame as it came from the receiver.
    pub taken: InternalFrame,
    /// The samples of the tones at that moment.
    pub tones: ToneSamples,
    /// The frame as it left the processor.
    pub made: InternalFrame,
    /// The ring to the transmitter took the frame.
    pub accepted: bool,
}

/// The frames taken from the receiver in the first `n` steps.
pub open spec fn frames_taken(steps: Seq<AudioStep>, n: int) -> Seq<InternalFrame>
    decreases n,
{
    if n <= 0 {
        Seq::empty()
    } else {
        frames_taken(steps, n - 1).push(steps[n - 1].taken)
    }
}

/// The frames handed to the transmitter in the first `n` steps.
pub open spec fn frames_handed_on(steps: Seq<AudioStep>, n: int) -> Seq<InternalFrame>
    decreases n,
{
    if n <= 0 {
        Seq::empty()
    } else if steps[n - 1].accepted {
        frames_handed_on(steps, n - 1).push(steps[n - 1].made)
    } else {
        frames_handed_on(steps, n - 1)
    }
}

/// The count of dropped frames after the first `n` steps.
pub open spec fn drops_after(count: u32, steps: Seq<AudioStep>, n: int) -> u32
    decreases n,
{
    if n <= 0 {
        count
    } else if steps[n - 1].accepted {
        drops_after(count, steps, n - 1)
    } else {
        saturating_increment(drops_after(count, steps, n - 1))
    }
}

/// The frames of the first `n` packets, one packet after the other.
pub open spec fn frames_carried(carried: Seq<Seq<InternalFrame>>, n: int) -> Seq<InternalFrame>
    decreases n,
{
    if n <= 0 {
        Seq::empty()
    } else {
        frames_carried(carried, n - 1) + carried[n - 1]
    }
}

/// What a [`LoopbackFrameHandler`] holds, apart from the cross-point
/// matrix.
pub struct LoopbackState {
    pub receive: ReceiveState,
    /// All frames that the audio processor has taken from the receiver.
    pub unprocessed_delivered: Seq<InternalFrame>,
    /// All frames that the ring to the transmitter has taken.
    pub processed_accepted: Seq<InternalFrame>,
    /// All frames that were taken from the ring to the transmitter.
    pub processed_delivered: Seq<InternalFrame>,
    /// Frames dropped because the ring to the transmitter was full.
    pub processed_frames_drop_count: u32,
}

/// Handles the transfers of the frame stream in both directions.
pub struct LoopbackFrameHandler<G: ToneGenerator> {
    rx_packet_processor: RxPacketProcessor,
    unprocessed_frames_consumer: Consumer<InternalFrame>,
    processed_frames_producer: Producer<InternalFrame>,
    processed_frames_consumer: Consumer<InternalFrame>,
    processor: AudioProcessor<G>,
    processed_frames_drop_count: u32,
}

impl<G: ToneGenerator> View for LoopbackFrameHandler<G> {
    type V = LoopbackState;

    closed spec fn view(&self) -> LoopbackState {
        LoopbackState {
            receive: self.rx_packet_processor@,
            unprocessed_delivered: ring_delivered(self.unprocessed_frames_consumer),
            processed_accepted: ring_accepted(self.processed_frames_producer),
            processed_delivered: ring_delivered(self.processed_frames_consumer),
            processed_frames_drop_count: self.processed_frames_drop_count,
        }
    }
}

impl<G: ToneGenerator> LoopbackFrameHandler<G> {
    /// A handler around the given receiver and audio processor. The
    /// consuming end given first is the one of the ring that the receiver
    /// feeds with frames for the audio processor; the other two ends are
    /// those of the ring that carries the processed frames.
    pub fn new(
        rx_packet_processor: RxPacketProcessor,
        unprocessed_frames_consumer: Consumer<InternalFrame>,
        processed_frames_producer: Producer<InternalFrame>,
        processed_frames_consumer: Consumer<InternalFrame>,
        processor: AudioProcessor<G>,
    ) -> (handler: Self)
        ensures
            handler@ == (LoopbackState {
                receive: rx_packet_processor@,
                unprocessed_delivered: ring_delivered(unprocessed_frames_consumer),
                processed_accepted: ring_accepted(processed_frames_producer),
                processed_delivered: ring_delivered(processed_frames_consumer),
                processed_frames_drop_count: 0,
            }),
            handler.processor() == processor,
    {
        Self {
            rx_packet_processor,
            unprocessed_frames_consumer,
            processed_frames_producer,
            processed_frames_consumer,
            processor,
            processed_frames_drop_count: 0,
        }
    }

    /// The audio processor.
    pub closed spec fn processor(&self) -> AudioProcessor<G> {
        self.processor
    }

    /// The receiver, to look at its counters.
    pub fn rx_packet_processor(&self) -> (receiver: &RxPacketProcessor)
        ensures
            receiver@ == self@.receive,
    {
        &self.rx_packet_processor
    }

    /// The audio processor, to change its matrix.
    pub fn processor_mut(&mut self) -> (processor: &mut AudioProcessor<G>)
        ensures
            *processor == old(self).processor(),
            *final(processor) == final(self).processor(),
            final(self)@ == old(self)@,
    {
        &mut self.processor
    }

    /// Number of frames that the ring to the transmitter did not take.
    pub fn processed_frames_drop_count(&self) -> (count: u32)
        ensures
            count == self@.processed_frames_drop_count,
    {
        self.processed_frames_drop_count
    }

    /// Takes in the packets of a transfer that has completed, those that
    /// arrived without fault. Returns what there is to tell: the statistics
    /// that fell due, then the range of transmit FIFO levels that the
    /// packets reported.
    pub fn handle_in(&mut self, packets: &Vec<Vec<u8>>) -> (messages: Vec<DebugMessage>)
        ensures
            exists|witnesses: Seq<PacketWitness>| #[trigger]
                transfer_in_outcome(
                    old(self)@.receive,
                    packet_bytes(packets@),
                    witnesses,
                    final(self)@.receive,
                    messages@,
                ),
            final(self)@ == (LoopbackState { receive: final(self)@.receive, ..old(self)@ }),
            final(self).processor() == old(self).processor(),
    {
        self.rx_packet_processor.reset_tx_fifo_level_stats();
        let ghost start = self@.receive;
        let ghost bytes = packet_bytes(packets@);
        let ghost mut witnesses: Seq<PacketWitness> = Seq::empty();
        let mut messages: Vec<DebugMessage> = Vec::new();
        let mut i: usize = 0;
        proof {
            assert(reports_of(messages@) =~= reports_of_packets(start, bytes, witnesses, 0));
        }
        while i < packets.len()
            invariant
                i <= packets@.len(),
                bytes == packet_bytes(packets@),
                witnesses.len() == i,
                forall|k: int| 0 <= k < i ==> witness_fits(bytes[k], #[trigger] witnesses[k]),
                self@ == (LoopbackState { receive: self@.receive, ..old(self)@ }),
                self.processor() == old(self).processor(),
                self@.receive == state_after_packets(start, bytes, witnesses, i as int),
                reports_of(messages@) == reports_of_packets(start, bytes, witnesses, i as int),
            decreases packets@.len() - i,
        {
            let ghost before = self@.receive;
            let ghost told = messages@;
            let fresh = self.rx_packet_processor.receive(packets[i].as_slice());
            let ghost witness = choose|witness: PacketWitness| #[trigger]
                witness_fits(bytes[i as int], witness) && self@.receive == before.with_bytes(
                    bytes[i as int],
                    witness,
                ) && reports_of(fresh@) == before.reports_of_bytes(bytes[i as int], witness);
            let mut n: usize = 0;
            while n < fresh.len()
                invariant
                    n <= fresh@.len(),
                    messages@ == told + fresh@.subrange(0, n as int),
                decreases fresh@.len() - n,
            {
                messages.push(fresh[n]);
                proof {
                    assert(fresh@.subrange(0, n + 1) =~= fresh@.subrange(0, n as int).push(fresh@[n as int]));
                }
                n += 1;
            }
            proof {
                assert(fresh@.subrange(0, fresh@.len() as int) =~= fresh@);
                assert(reports_of(told + fresh@) =~= reports_of(told) + reports_of(fresh@));
                let longer = witnesses.push(witness);
                lemma_packets_prefix(start, bytes, witnesses, longer, i as int);
                witnesses = longer;
            }
            i += 1;
        }
        // Tell the range last: it is of no use before the transfer is over.
        let range = self.rx_packet_processor.tx_fifo_level_range();
        let ghost told = messages@;
        messages.push(DebugMessage::TxFIFORange(range));
        proof {
            assert(reports_of(messages@) =~= reports_of(told).push(DebugReport::TxFIFORange(range.0, range.1)));
            assert(transfer_in_outcome(old(self)@.receive, bytes, witnesses, self@.receive, messages@));
        }
        messages
    }

    /// `steps` lead from `before` to `after`: every frame taken from the
    /// receiver went through the audio processor, which gave each outgoing
    /// timeslot what its patch says and kept the frame's count and framing
    /// bits, and then to the ring to the transmitter, or, that ring being
    /// full, was dropped and counted.
    pub open spec fn audio_outcome(before: &Self, steps: Seq<AudioStep>, after: &Self) -> bool {
        &&& steps.len() <= AUDIO_RINGBUFFER_FRAMES
        &&& after@.receive == before@.receive
        &&& after@.processed_delivered == before@.processed_delivered
        &&& after@.unprocessed_delivered == before@.unprocessed_delivered + frames_taken(steps, steps.len() as int)
        &&& after@.processed_accepted == before@.processed_accepted + frames_handed_on(steps, steps.len() as int)
        &&& after@.processed_frames_drop_count == drops_after(
            before@.processed_frames_drop_count,
            steps,
            steps.len() as int,
        )
        &&& forall|address: TimeslotAddress|
            address.is_valid() ==> after.processor().patch_at(address) == before.processor().patch_at(address)
        &&& forall|i: int|
            0 <= i < steps.len() ==> {
                let step = #[trigger] steps[i];
                &&& step.made.frame_count == step.taken.frame_count
                &&& step.made.mf_bits == step.taken.mf_bits
                &&& before.processor().mixes(step.taken.frame, step.tones, step.made.frame)
            }
    }

    /// Puts the frames that the receiver has queued through the audio
    /// processor and queues them for the transmitter. Returns how many
    /// frames were taken from the receiver.
    pub fn process_audio(&mut self) -> (count: usize)
        ensures
            exists|steps: Seq<AudioStep>| steps.len() == count && #[trigger] Self::audio_outcome(
                old(self),
                steps,
                final(self),
            ),
    {
        let ghost mut steps: Seq<AudioStep> = Seq::empty();
        let mut count: usize = 0;
        proof {
            assert(self@.unprocessed_delivered =~= old(self)@.unprocessed_delivered + frames_taken(steps, 0));
            assert(self@.processed_accepted =~= old(self)@.processed_accepted + frames_handed_on(steps, 0));
        }
        while count < AUDIO_RINGBUFFER_FRAMES
            invariant
                count <= AUDIO_RINGBUFFER_FRAMES,
                steps.len() == count,
                Self::audio_outcome(old(self), steps, self),
            decreases AUDIO_RINGBUFFER_FRAMES - count,
        {
            let ghost before = *self;
            let unprocessed_frame = match ring_pop(&mut self.unprocessed_frames_consumer) {
                Some(frame) => frame,
                None => {
                    break ;
                },
            };
            let ghost patches = self.processor;
            let processed_frame = self.processor.process_frame(&unprocessed_frame.frame);
            let made = InternalFrame {
                frame: processed_frame,
                frame_count: unprocessed_frame.frame_count,
                mf_bits: unprocessed_frame.mf_bits,
            };
            let accepted = ring_push(&mut self.processed_frames_producer, made);
            if !accepted {
                self.processed_frames_drop_count = self.processed_frames_drop_count.saturating_add(1);
            }
            proof {
                let tones = choose|tones: ToneSamples| #[trigger]
                    patches.mixes(unprocessed_frame.frame, tones, processed_frame);
                assert forall|address: TimeslotAddress| address.is_valid() implies #[trigger] processed_frame.sample(
                    address,
                ) == crate::framer::audio::patched_sample(
                    old(self).processor().patch_at(address),
                    unprocessed_frame.frame,
                    tones,
                ) by {
                    assert(patches.patch_at(address) == old(self).processor().patch_at(address));
                }
                let step = AudioStep { taken: unprocessed_frame, tones, made, accepted };
                let longer = steps.push(step);
                lemma_steps_prefix(old(self)@.processed_frames_drop_count, steps, longer, count as int);
                assert(longer.drop_last() =~= steps);
                let n = count as int + 1;
                assert(frames_taken(longer, n) == frames_taken(steps, count as int).push(unprocessed_frame));
                assert(self@.unprocessed_delivered =~= old(self)@.unprocessed_delivered + frames_taken(longer, n));
                assert(self@.processed_accepted =~= old(self)@.processed_accepted + frames_handed_on(longer, n));
                assert(self@.processed_frames_drop_count == drops_after(
                    old(self)@.processed_frames_drop_count,
                    longer,
                    n,
                ));
                assert(old(self).processor().mixes(step.taken.frame, step.tones, step.made.frame));
                assert forall|i: int| 0 <= i < longer.len() implies {
                    let step = #[trigger] longer[i];
                    &&& step.made.frame_count == step.taken.frame_count
                    &&& step.made.mf_bits == step.taken.mf_bits
                    &&& old(self).processor().mixes(step.taken.frame, step.tones, step.made.frame)
                } by {
                    if i < count {
                        assert(longer[i] == steps[i]);
                    }
                }
                steps = longer;
            }
            count += 1;
        }
        count
    }

    /// `carried` leads from `before` to `after` and to the packets
    /// `packets`: one frame was thrown away first if the plan says so and
    /// there was one; every packet carries the frames that were there for
    /// it, no more than were planned, after the report that begins it; the
    /// frames thrown away and carried are the frames taken from the ring,
    /// in order.
    pub open spec fn transfer_out_outcome(
        before: LoopbackState,
        discarded: Seq<InternalFrame>,
        carried: Seq<Seq<InternalFrame>>,
        after: LoopbackState,
        packets: Seq<Vec<u8>>,
    ) -> bool {
        let plan = rate_match_for(before.receive.tx_fifo_level_min, before.receive.tx_fifo_level_max);
        &&& after == (LoopbackState { processed_delivered: after.processed_delivered, ..before })
        &&& discarded.len() <= if plan.discard {
            1int
        } else {
            0int
        }
        &&& carried.len() == packets.len()
        &&& forall|i: int|
            0 <= i < packets.len() ==> (#[trigger] carried[i]).len() <= frames_planned(plan, i) && packets[i]@
                == tx_packet_encoding(tx_report(), carried[i])
        &&& after.processed_delivered == before.processed_delivered + discarded + frames_carried(
            carried,
            carried.len() as int,
        )
    }

    /// Fills the `num_iso_packets` packets of a transfer to the adapter.
    /// Returns the bytes of each packet.
    pub fn handle_out(&mut self, num_iso_packets: usize) -> (packets: Vec<Vec<u8>>)
        ensures
            packets@.len() == num_iso_packets,
            final(self).processor() == old(self).processor(),
            exists|discarded: Seq<InternalFrame>, carried: Seq<Seq<InternalFrame>>| #[trigger]
                Self::transfer_out_outcome(old(self)@, discarded, carried, final(self)@, packets@),
    {
        let range = self.rx_packet_processor.tx_fifo_level_range();
        let plan = rate_match(range.0, range.1);
        let ghost mut discarded: Seq<InternalFrame> = Seq::empty();
        if plan.discard {
            // Simple way to draw down the TX FIFO level if it is too high:
            // drop a frame.
            let dropped = ring_pop(&mut self.processed_frames_consumer);
            proof {
                if let Some(frame) = dropped {
                    discarded = seq![frame];
                }
            }
        }
        let report = TxUSBReport { frame_count: 0 };
        let ghost mut carried: Seq<Seq<InternalFrame>> = Seq::empty();
        let mut packets: Vec<Vec<u8>> = Vec::new();
        let mut i: usize = 0;
        proof {
            assert(self@.processed_delivered =~= old(self)@.processed_delivered + discarded + frames_carried(
                carried,
                0,
            ));
        }
        while i < num_iso_packets
            invariant
                i <= num_iso_packets,
                report == tx_report(),
                plan == rate_match_for(old(self)@.receive.tx_fifo_level_min, old(self)@.receive.tx_fifo_level_max),
                plan.first_packet_frames <= 2,
                self.processor() == old(self).processor(),
                packets@.len() == i,
                carried.len() == i,
                self@ == (LoopbackState { processed_delivered: self@.processed_delivered, ..old(self)@ }),
                forall|k: int|
                    0 <= k < i ==> (#[trigger] carried[k]).len() <= frames_planned(plan, k) && packets@[k]@
                        == tx_packet_encoding(tx_report(), carried[k]),
                self@.processed_delivered == old(self)@.processed_delivered + discarded + frames_carried(
                    carried,
                    i as int,
                ),
            decreases num_iso_packets - i,
        {
            let planned: usize = if i == 0 {
                plan.first_packet_frames
            } else {
                1
            };
            let ghost delivered = self@.processed_delivered;
            let mut frames: Vec<InternalFrame> = Vec::new();
            while frames.len() < planned
                invariant
                    frames@.len() <= planned,
                    self.processor() == old(self).processor(),
                    self@ == (LoopbackState { processed_delivered: self@.processed_delivered, ..old(self)@ }),
                    self@.processed_delivered == delivered + frames@,
                decreases planned - frames@.len(),
            {
                match ring_pop(&mut self.processed_frames_consumer) {
                    Some(frame_out) => {
                        frames.push(frame_out);
                    },
                    None => {
                        break ;
                    },
                }
            }
            let packet = encode_tx_packet(&report, &frames);
            packets.push(packet);
            proof {
                let longer = carried.push(frames@);
                lemma_carried_prefix(carried, longer, i as int);
                assert(longer.drop_last() =~= carried);
                assert((old(self)@.processed_delivered + discarded + frames_carried(carried, i as int)) + frames@
                    =~= old(self)@.processed_delivered + discarded + (frames_carried(carried, i as int) + frames@));
                carried = longer;
            }
            i += 1;
        }
        proof {
            assert(Self::transfer_out_outcome(old(self)@, discarded, carried, self@, packets@));
        }
        packets
    }
}

/// What the first `n` packets did depends on those packets and on nothing
/// after them.
pub proof fn lemma_packets_prefix(
    before: ReceiveState,
    packets: Seq<Seq<u8>>,
    witnesses: Seq<PacketWitness>,
    longer: Seq<PacketWitness>,
    n: int,
)
    requires
        0 <= n <= witnesses.len() <= longer.len(),
        forall|k: int| 0 <= k < n ==> witnesses[k] == longer[k],
    ensures
        state_after_packets(before, packets, longer, n) == state_after_packets(before, packets, witnesses, n),
        reports_of_packets(before, packets, longer, n) == reports_of_packets(before, packets, witnesses, n),
    decreases n,
{
    if n > 0 {
        lemma_packets_prefix(before, packets, witnesses, longer, n - 1);
    }
}

/// What the first `n` steps did depends on those steps and on nothing
/// after them.
pub proof fn lemma_steps_prefix(count: u32, steps: Seq<AudioStep>, longer: Seq<AudioStep>, n: int)
    requires
        0 <= n <= steps.len() <= longer.len(),
        forall|k: int| 0 <= k < n ==> steps[k] == longer[k],
    ensures
        frames_taken(longer, n) == frames_taken(steps, n),
        frames_handed_on(longer, n) == frames_handed_on(steps, n),
        drops_after(count, longer, n) == drops_after(count, steps, n),
    decreases n,
{
    if n > 0 {
        lemma_steps_prefix(count, steps, longer, n - 1);
    }
}

/// What the first `n` packets carry depends on those packets and on
/// nothing after them.
pub proof fn lemma_carried_prefix(carried: Seq<Seq<InternalFrame>>, longer: Seq<Seq<InternalFrame>>, n: int)
    requires
        0 <= n <= carried.len() <= longer.len(),
        forall|k: int| 0 <= k < n ==> carried[k] == longer[k],
    ensures
        frames_carried(longer, n) == frames_carried(carried, n),
    decreases n,
{
    if n > 0 {
        lemma_carried_prefix(carried, longer, n - 1);
    }
}

/// A level of the transmit FIFO that stays at one place above
/// [`TX_FIFO_LEVEL_LOW`] for a whole transfer calls for an empty first
/// packet and for one frame to be thrown away; every other packet is meant
/// to carry one frame. Without anything observed, every packet is meant to
/// carry one frame.
pub proof fn lemma_rate_match_draws_down(level: u8, packet: int)
    requires
        level > TX_FIFO_LEVEL_LOW,
        packet > 0,
    ensures
        rate_match_for(level, level) == (RateMatch { discard: true, first_packet_frames: 0 }),
        frames_planned(rate_match_for(level, level), 0) == 0,
        frames_planned(rate_match_for(level, level), packet) == 1,
        rate_match_for(u8::MAX, u8::MIN) == (RateMatch { discard: false, first_packet_frames: 1 }),
{
}

} // verus!
