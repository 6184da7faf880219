use ringbuf::{Consumer, RingBuffer};
use tedium::codec::ulaw::encode_i14;
use tedium::framer::audio::{
    AudioProcessor, Patch, Patching, ProcessorMessage, ToneGenerator, TonePlant, ToneSamples, ToneSource,
};
use tedium::framer::frame::{Frame, InternalFrame, TimeslotAddress};
use tedium::framer::loopback::{
    pool_is_deep_enough, rate_match, LoopbackFrameHandler, RateMatch, AUDIO_RINGBUFFER_FRAMES,
    PACKETS_PER_TRANSFER, PACKET_LENGTH, SIGNALING_RINGBUFFER_FRAMES, TRANSFERS_COUNT, TX_FIFO_LEVEL_LOW,
};
use tedium::framer::receive::RxPacketProcessor;
use tedium::framer::statistics::DebugMessage;

/// A tone that rises by `step` with every sample.
struct Ramp {
    value: i16,
    step: i16,
}

impl ToneGenerator for Ramp {
    fn output(&self) -> i16 {
        self.value
    }

    fn advance(&mut self) {
        self.value += self.step;
    }
}

fn plant(dial: Option<Ramp>, ringback: Option<Ramp>) -> TonePlant<Ramp> {
    TonePlant { dial_tone_precise: dial, ringback }
}

/// The bytes of an IN packet with one frame whose samples count up from
/// `frame_count`.
fn in_packet(frame_count: u32, sof_count: u32, tx_level: u8) -> Vec<u8> {
    let mut bytes: Vec<u8> = (0..192u32).map(|i| (frame_count + i) as u8).collect();
    bytes.extend_from_slice(&frame_count.to_le_bytes());
    bytes.push(0);
    bytes.extend_from_slice(&sof_count.to_le_bytes());
    bytes.push(1);
    bytes.push(tx_level);
    bytes.extend_from_slice(&[0, 0, 0, 0, 0]);
    bytes
}

fn handler(
    unprocessed: usize,
    processed: usize,
    tones: TonePlant<Ramp>,
) -> (LoopbackFrameHandler<Ramp>, Consumer<InternalFrame>) {
    let (unprocessed_in, unprocessed_out) = RingBuffer::<InternalFrame>::new(unprocessed).split();
    let (signaling_in, signaling_out) = RingBuffer::<InternalFrame>::new(SIGNALING_RINGBUFFER_FRAMES).split();
    let (processed_in, processed_out) = RingBuffer::<InternalFrame>::new(processed).split();
    let receiver = RxPacketProcessor::new(unprocessed_in, signaling_in);
    let processor = AudioProcessor::new(tones);
    (LoopbackFrameHandler::new(receiver, unprocessed_out, processed_in, processed_out, processor), signaling_out)
}

/// Takes in one transfer of eight packets, one frame each, that report the
/// given transmit FIFO levels, and puts the frames through the processor.
fn transfer_in(handler: &mut LoopbackFrameHandler<Ramp>, first: u32, levels: [u8; 8]) -> Vec<DebugMessage> {
    let packets: Vec<Vec<u8>> =
        levels.iter().enumerate().map(|(i, &level)| in_packet(first + i as u32, first + i as u32, level)).collect();
    let messages = handler.handle_in(&packets);
    assert_eq!(handler.process_audio(), 8);
    messages
}

/// The frame counts that the packet carries.
fn frame_counts(packet: &[u8]) -> Vec<u32> {
    assert_eq!((packet.len() - 4) % 196, 0);
    assert_eq!(&packet[..4], &[0, 0, 0, 0]);
    packet[4..].chunks(196).map(|frame| u32::from_le_bytes([frame[0], frame[1], frame[2], frame[3]])).collect()
}

#[test]
fn sizes_of_the_pipeline() {
    assert_eq!(AUDIO_RINGBUFFER_FRAMES, 40);
    assert_eq!(SIGNALING_RINGBUFFER_FRAMES, 200);
    assert_eq!(PACKETS_PER_TRANSFER, 8);
    assert_eq!(TRANSFERS_COUNT, 8);
    assert_eq!(PACKET_LENGTH, 512);
    assert_eq!(TX_FIFO_LEVEL_LOW, 12);
    assert!(4 + 2 * 196 <= PACKET_LENGTH);
}

#[test]
fn pool_needs_sixteen_packets_in_flight() {
    assert!(pool_is_deep_enough(TRANSFERS_COUNT, PACKETS_PER_TRANSFER));
    assert!(pool_is_deep_enough(2, 8));
    assert!(pool_is_deep_enough(16, 1));
    assert!(pool_is_deep_enough(1, 16));
    assert!(!pool_is_deep_enough(1, 15));
    assert!(!pool_is_deep_enough(3, 5));
    assert!(!pool_is_deep_enough(0, 100));
    assert!(!pool_is_deep_enough(100, 0));
    assert!(pool_is_deep_enough(usize::MAX, 1));
    assert!(pool_is_deep_enough(usize::MAX, usize::MAX));
}

#[test]
fn rate_match_by_range_of_levels() {
    let down = RateMatch { discard: true, first_packet_frames: 0 };
    let up = RateMatch { discard: false, first_packet_frames: 2 };
    let hold = RateMatch { discard: false, first_packet_frames: 1 };
    assert_eq!(rate_match(20, 20), down);
    assert_eq!(rate_match(13, 31), down);
    assert_eq!(rate_match(12, 31), hold);
    assert_eq!(rate_match(12, 12), hold);
    assert_eq!(rate_match(0, 12), hold);
    assert_eq!(rate_match(5, 20), hold);
    assert_eq!(rate_match(0, 11), up);
    assert_eq!(rate_match(11, 11), up);
    assert_eq!(rate_match(0, 0), up);
    assert_eq!(rate_match(255, 0), hold);
    assert_eq!(rate_match(20, 13), hold);
    assert_eq!(rate_match(5, 3), hold);
}

#[test]
fn level_that_stays_high_empties_the_first_packet_and_discards_a_frame() {
    let (mut handler, _signaling) = handler(40, 40, plant(None, None));
    let messages = transfer_in(&mut handler, 0, [20; 8]);
    assert_eq!(messages.len(), 1);
    match messages[0] {
        DebugMessage::TxFIFORange(range) => assert_eq!(range, (20, 20)),
        ref other => panic!("unexpected message {:?}", other),
    }
    let packets = handler.handle_out(8);
    assert_eq!(packets.len(), 8);
    assert_eq!(packets[0].len(), 4);
    assert_eq!(frame_counts(&packets[0]), Vec::<u32>::new());
    for (i, packet) in packets.iter().enumerate().skip(1) {
        assert_eq!(packet.len(), 4 + 196);
        assert_eq!(frame_counts(packet), vec![i as u32]);
    }
    // Frame 0 was thrown away, frames 1 to 7 were sent: nothing is left.
    let packets = handler.handle_out(1);
    assert_eq!(packets[0].len(), 4);
}

#[test]
fn level_that_stays_low_fills_the_first_packet_twice() {
    let (mut handler, _signaling) = handler(40, 40, plant(None, None));
    transfer_in(&mut handler, 0, [5, 6, 7, 8, 9, 10, 11, 3]);
    assert_eq!(handler.rx_packet_processor().tx_fifo_level_range(), (3, 11));
    let packets = handler.handle_out(8);
    assert_eq!(frame_counts(&packets[0]), vec![0, 1]);
    assert_eq!(packets[0].len(), 4 + 2 * 196);
    for i in 1..7 {
        assert_eq!(frame_counts(&packets[i]), vec![i as u32 + 1]);
    }
    assert_eq!(packets[7].len(), 4);
}

#[test]
fn level_around_the_threshold_sends_one_frame_a_packet() {
    let (mut handler, _signaling) = handler(40, 40, plant(None, None));
    transfer_in(&mut handler, 100, [11, 12, 13, 12, 11, 12, 13, 12]);
    let packets = handler.handle_out(8);
    for (i, packet) in packets.iter().enumerate() {
        assert_eq!(frame_counts(packet), vec![100 + i as u32]);
    }
}

#[test]
fn without_anything_received_packets_hold_only_their_report() {
    let (mut handler, _signaling) = handler(40, 40, plant(None, None));
    let packets = handler.handle_out(8);
    assert_eq!(packets.len(), 8);
    for packet in &packets {
        assert_eq!(packet, &vec![0u8, 0, 0, 0]);
    }
    assert!(handler.handle_out(0).is_empty());
}

#[test]
fn range_of_levels_is_begun_anew_with_every_transfer() {
    let (mut handler, _signaling) = handler(40, 40, plant(None, None));
    transfer_in(&mut handler, 0, [20; 8]);
    let messages = transfer_in(&mut handler, 8, [10; 8]);
    match messages.last() {
        Some(DebugMessage::TxFIFORange(range)) => assert_eq!(*range, (10, 10)),
        other => panic!("unexpected message {:?}", other),
    }
    assert_eq!(handler.rx_packet_processor().tx_fifo_level_range(), (10, 10));
    let messages = handler.handle_in(&Vec::new());
    match messages.last() {
        Some(DebugMessage::TxFIFORange(range)) => assert_eq!(*range, (255, 0)),
        other => panic!("unexpected message {:?}", other),
    }
}

#[test]
fn malformed_packets_in_a_transfer_are_counted_and_the_rest_is_taken() {
    let (mut handler, mut signaling) = handler(40, 40, plant(None, None));
    let packets = vec![in_packet(0, 0, 12), vec![1, 2, 3], in_packet(1, 1, 40), in_packet(1, 1, 12)];
    let messages = handler.handle_in(&packets);
    assert_eq!(messages.len(), 1);
    assert_eq!(handler.rx_packet_processor().malformed_packet_count(), 2);
    assert_eq!(handler.rx_packet_processor().frame_count_next(), 2);
    assert_eq!(handler.rx_packet_processor().cumulative_statistics().sof_discontinuity_count, 0);
    assert_eq!(handler.process_audio(), 2);
    assert_eq!(signaling.pop().unwrap().frame_count, 0);
    assert_eq!(signaling.pop().unwrap().frame_count, 1);
    assert!(signaling.pop().is_none());
}

#[test]
fn statistics_fall_due_in_the_middle_of_a_transfer() {
    let (mut handler, mut signaling) = handler(40, 40, plant(None, None));
    let mut told = Vec::new();
    for transfer in 0..1001u32 {
        for message in transfer_in(&mut handler, transfer * 8, [12; 8]) {
            told.push((transfer, message));
        }
        handler.handle_out(8);
        while signaling.pop().is_some() {}
    }
    let statistics: Vec<u32> = told
        .iter()
        .filter_map(|(transfer, message)| match message {
            DebugMessage::FramerStatistics(periodic, cumulative) => {
                assert_eq!(periodic.frame_count, 8000);
                assert_eq!(periodic.tx_fifo_level_histogram[12], 8000);
                assert_eq!(cumulative.ringbuf_full_drop_count, 0);
                Some(*transfer)
            }
            _ => None,
        })
        .collect();
    assert_eq!(statistics, vec![999]);
    assert_eq!(told.len(), 1002);
    assert_eq!(handler.processed_frames_drop_count(), 0);
}

#[test]
fn full_ring_to_the_transmitter_drops_frames_and_counts_them() {
    let (mut handler, _signaling) = handler(40, 2, plant(None, None));
    let packets: Vec<Vec<u8>> = (0..5u32).map(|i| in_packet(i, i, 12)).collect();
    handler.handle_in(&packets);
    assert_eq!(handler.process_audio(), 5);
    assert_eq!(handler.processed_frames_drop_count(), 3);
    let packets = handler.handle_out(4);
    assert_eq!(frame_counts(&packets[0]), vec![0]);
    assert_eq!(frame_counts(&packets[1]), vec![1]);
    assert_eq!(packets[2].len(), 4);
    assert_eq!(packets[3].len(), 4);
}

#[test]
fn audio_is_processed_forty_frames_at_a_time() {
    let (mut handler, _signaling) = handler(64, 64, plant(None, None));
    let packets: Vec<Vec<u8>> = (0..50u32).map(|i| in_packet(i, i, 12)).collect();
    handler.handle_in(&packets);
    assert_eq!(handler.process_audio(), 40);
    assert_eq!(handler.process_audio(), 10);
    assert_eq!(handler.process_audio(), 0);
}

#[test]
fn looped_frames_carry_what_the_matrix_says() {
    let (mut handler, _signaling) = handler(40, 40, plant(Some(Ramp { value: 100, step: 50 }), None));
    let output = TimeslotAddress::new(2, 3);
    let input = TimeslotAddress::new(5, 7);
    assert!(handler.processor_mut().process_message(ProcessorMessage::Patch(output, Patch::Input(input))));
    assert!(handler
        .processor_mut()
        .process_message(ProcessorMessage::Patch(TimeslotAddress::new(0, 0), Patch::Tone(ToneSource::DialTonePrecise))));
    handler.handle_in(&vec![in_packet(9, 0, 12), in_packet(10, 1, 12)]);
    assert_eq!(handler.process_audio(), 2);
    let packets = handler.handle_out(2);
    for (n, packet) in packets.iter().enumerate() {
        assert_eq!(frame_counts(packet), vec![9 + n as u32]);
        let samples = &packet[8..];
        assert_eq!(samples.len(), 192);
        let position = |address: &TimeslotAddress| address.timeslot * 8 + address.channel;
        assert_eq!(samples[position(&output)], (9 + n + position(&input)) as u8);
        assert_eq!(samples[0], encode_i14(150 + 50 * n as i16));
        for (i, &sample) in samples.iter().enumerate() {
            if i != 0 && i != position(&output) {
                assert_eq!(sample, 0xff);
            }
        }
    }
}

#[test]
fn audio_processor_starts_idle() {
    let mut processor = AudioProcessor::new(plant(None, None));
    let frame_in = Frame::from_samples(&[0x12; 192]);
    let frame_out = processor.process_frame(&frame_in);
    for channel in 0..8 {
        for timeslot in 0..24 {
            assert_eq!(frame_out.timeslot(&TimeslotAddress::new(channel, timeslot)), 0xff);
        }
    }
}

#[test]
fn audio_processor_routes_inputs_and_tones() {
    let tones = plant(Some(Ramp { value: 0, step: 1000 }), Some(Ramp { value: -5000, step: 0 }));
    let mut processor = AudioProcessor::new(tones);
    let samples: Vec<u8> = (0..192u32).map(|i| i as u8).collect();
    let frame_in = Frame::from_samples(&samples);
    let patches = [
        (TimeslotAddress::new(0, 0), Patch::Input(TimeslotAddress::new(7, 23))),
        (TimeslotAddress::new(7, 23), Patch::Input(TimeslotAddress::new(0, 0))),
        (TimeslotAddress::new(1, 1), Patch::Tone(ToneSource::DialTonePrecise)),
        (TimeslotAddress::new(2, 2), Patch::Tone(ToneSource::Ringback)),
        (TimeslotAddress::new(3, 3), Patch::Input(TimeslotAddress::new(3, 3))),
        (TimeslotAddress::new(4, 4), Patch::Idle),
    ];
    for (address, patch) in patches {
        assert!(processor.process_message(ProcessorMessage::Patch(address, patch)));
    }
    for n in 1..=3i16 {
        let frame_out = processor.process_frame(&frame_in);
        assert_eq!(frame_out.timeslot(&TimeslotAddress::new(0, 0)), 191);
        assert_eq!(frame_out.timeslot(&TimeslotAddress::new(7, 23)), 0);
        assert_eq!(frame_out.timeslot(&TimeslotAddress::new(1, 1)), encode_i14(1000 * n));
        assert_eq!(frame_out.timeslot(&TimeslotAddress::new(2, 2)), encode_i14(-5000));
        assert_eq!(frame_out.timeslot(&TimeslotAddress::new(3, 3)), 27);
        assert_eq!(frame_out.timeslot(&TimeslotAddress::new(4, 4)), 0xff);
        assert_eq!(frame_out.timeslot(&TimeslotAddress::new(5, 5)), 0xff);
    }
}

#[test]
fn tone_without_generator_is_silent() {
    let mut processor = AudioProcessor::new(plant(None, None));
    let address = TimeslotAddress::new(6, 6);
    assert!(processor.process_message(ProcessorMessage::Patch(address, Patch::Tone(ToneSource::Ringback))));
    let frame_out = processor.process_frame(&Frame::from_samples(&[0x00; 192]));
    assert_eq!(frame_out.timeslot(&address), encode_i14(0));
    assert_eq!(frame_out.timeslot(&address), 0xff);
}

#[test]
fn patch_that_names_no_timeslot_is_refused() {
    let mut processor = AudioProcessor::new(plant(None, None));
    let good = TimeslotAddress::new(0, 0);
    assert!(!processor.process_message(ProcessorMessage::Patch(TimeslotAddress::new(8, 0), Patch::Idle)));
    assert!(!processor.process_message(ProcessorMessage::Patch(TimeslotAddress::new(0, 24), Patch::Idle)));
    assert!(!processor.process_message(ProcessorMessage::Patch(good, Patch::Input(TimeslotAddress::new(8, 0)))));
    assert!(!processor.process_message(ProcessorMessage::Patch(good, Patch::Input(TimeslotAddress::new(0, 24)))));
    assert!(!Patch::Input(TimeslotAddress::new(9, 9)).in_range());
    assert!(Patch::Input(TimeslotAddress::new(7, 23)).in_range());
    assert!(Patch::Tone(ToneSource::Ringback).in_range());
    let frame_out = processor.process_frame(&Frame::from_samples(&[0x33; 192]));
    assert_eq!(frame_out.timeslot(&good), 0xff);
}

#[test]
fn patching_holds_a_patch_for_every_timeslot() {
    let mut patching = Patching::default();
    for channel in 0..8 {
        for timeslot in 0..24 {
            assert_eq!(patching.timeslot(&TimeslotAddress::new(channel, timeslot)), Patch::Idle);
        }
    }
    let address = TimeslotAddress::new(4, 20);
    patching.set_timeslot(&address, Patch::Tone(ToneSource::DialTonePrecise));
    assert_eq!(patching.timeslot(&address), Patch::Tone(ToneSource::DialTonePrecise));
    assert_eq!(patching.timeslot(&TimeslotAddress::new(4, 19)), Patch::Idle);
    let frame_in = Frame::from_samples(&[0x44; 192]);
    let tones = ToneSamples { dial_tone_precise: 0x91, ringback: 0x92 };
    let frame_out = AudioProcessor::<Ramp>::mix(&patching, &frame_in, &tones);
    assert_eq!(frame_out.timeslot(&address), 0x91);
    assert_eq!(frame_out.timeslot(&TimeslotAddress::new(0, 0)), 0xff);
}
