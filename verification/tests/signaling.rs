use tedium::codec::ulaw::decode_i16;
use tedium::detector::{DetectionEvent, Detector};
use tedium::framer::frame::{Frame, InternalFrame, TimeslotAddress};
use tedium::framer::monitor::{LineStateInterrupt, LineStateRobbedBitState};
use tedium::framer::processor::SignalingProcessor;
use tedium::framer::signaling::{
    ExtendedSuperFrameState, FrameCountDiscontinuityMonitor, RobbedBitChange, RobbedBitDebouncer,
    RobbedBitFrame, SuperframeState,
};
use tedium::framer::FramerEvent;

/// A frame in which every sample is `fill`, but for the sample at
/// `address`, whose lowest bit is `bit`.
fn frame_with_bit(frame_count: u32, mf_bits: u8, fill: u8, address: &TimeslotAddress, bit: u8) -> InternalFrame {
    let mut frame = Frame::from_samples(&[fill; 192]);
    frame.set_timeslot(address, 0xfe | bit);
    InternalFrame { frame, frame_count, mf_bits }
}

/// The lowest bit that a timeslot showing `abcd` has in the frame at
/// `position` of a superframe.
fn bit_of(abcd: u8, position: u32) -> u8 {
    match position {
        5 => (abcd >> 3) & 1,
        11 => (abcd >> 2) & 1,
        17 => (abcd >> 1) & 1,
        23 => abcd & 1,
        _ => 1,
    }
}

/// The frames of one superframe of span 0 that begins at `start`: every
/// timeslot shows `others`, but for the one at `address`, which shows `abcd`.
fn superframe(start: u32, address: &TimeslotAddress, abcd: u8, others: u8) -> Vec<InternalFrame> {
    (0..24u32)
        .map(|position| {
            let mf_bits = if position == 0 { 0xff } else { 0x00 };
            let fill = 0xfe | bit_of(others, position);
            frame_with_bit(start + position, mf_bits, fill, address, bit_of(abcd, position))
        })
        .collect()
}

#[test]
fn robbed_bits_are_collected_at_four_frames_of_a_superframe() {
    let address = TimeslotAddress::new(2, 7);
    let mut collected = RobbedBitFrame::from_timestamp(1000);
    assert_eq!(collected.timeslot, [0; 24]);
    assert_eq!(collected.bits_collected, 0);
    for frame in superframe(1000, &address, 0b1001, 0b0110) {
        let position = frame.frame_count - 1000;
        let complete = collected.process_frame(&frame, 2);
        assert_eq!(complete, position == 23);
        let seen = match position {
            0..=4 => 0b0000,
            5..=10 => 0b0001,
            11..=16 => 0b0011,
            17..=22 => 0b0111,
            _ => 0b1111,
        };
        assert_eq!(collected.bits_collected, seen);
    }
    assert_eq!(collected.timeslot[7], 0b1001);
    assert_eq!(collected.timeslot[6], 0b0110);
    assert_eq!(collected.superframe_frame_count, 1000);
}

#[test]
fn robbed_bits_ignore_frames_of_other_superframes() {
    let address = TimeslotAddress::new(0, 0);
    let mut collected = RobbedBitFrame::from_timestamp(48);
    assert!(!collected.process_frame(&frame_with_bit(47, 0, 0xff, &address, 1), 0));
    assert!(!collected.process_frame(&frame_with_bit(72, 0, 0xff, &address, 1), 0));
    assert!(!collected.process_frame(&frame_with_bit(48 + 29, 0, 0xff, &address, 1), 0));
    assert_eq!(collected.bits_collected, 0);
    assert_eq!(collected.timeslot, [0; 24]);
}

#[test]
fn robbed_bits_superframe_with_a_missing_signaling_frame_is_not_complete() {
    let address = TimeslotAddress::new(0, 0);
    let mut collected = RobbedBitFrame::from_timestamp(0);
    for frame in superframe(0, &address, 0b1111, 0b1111) {
        if frame.frame_count == 11 {
            continue;
        }
        assert!(!collected.process_frame(&frame, 0));
    }
    assert_eq!(collected.bits_collected, 0b1101);
}

#[test]
fn robbed_bit_registers_keep_four_bits() {
    let address = TimeslotAddress::new(0, 0);
    let mut collected = RobbedBitFrame::default();
    assert_eq!(collected.timeslot, [0b0101; 24]);
    collected.process_frame(&frame_with_bit(5, 0, 0xff, &address, 1), 0);
    assert_eq!(collected.timeslot[0], 0b1011);
    collected.process_frame(&frame_with_bit(11, 0, 0xff, &address, 1), 0);
    assert_eq!(collected.timeslot[0], 0b0111);
}

#[test]
fn robbed_bit_frame_counts_wrap() {
    let address = TimeslotAddress::new(0, 0);
    let start = u32::MAX - 9;
    let mut collected = RobbedBitFrame::from_timestamp(start);
    let mut complete = false;
    for position in 0..24u32 {
        let frame = frame_with_bit(start.wrapping_add(position), 0, 0xff, &address, 1);
        complete = collected.process_frame(&frame, 0);
    }
    assert!(complete);
    assert_eq!(collected.timeslot, [0b1111; 24]);
}

#[test]
fn off_hook_edge_is_reported_once_with_the_time_of_the_first_superframe() {
    let address = TimeslotAddress::new(0, 9);
    let mut debouncer = RobbedBitDebouncer::new();
    let mut changes: Vec<RobbedBitChange> = Vec::new();
    let mut start = 24u32;
    for _ in 0..4 {
        for frame in superframe(start, &address, 0b0101, 0b0101) {
            if frame.mf_bits & 1 != 0 {
                debouncer.new_frame(frame.frame_count);
            }
            changes.extend(debouncer.process_frame(&frame, 0));
        }
        start += 24;
    }
    assert!(changes.is_empty());
    let first_matching = start;
    for _ in 0..2 {
        for frame in superframe(start, &address, 0b1111, 0b0101) {
            if frame.mf_bits & 1 != 0 {
                debouncer.new_frame(frame.frame_count);
            }
            let fresh = debouncer.process_frame(&frame, 0);
            if frame.frame_count != first_matching + 47 {
                assert!(fresh.is_empty());
            }
            changes.extend(fresh);
        }
        start += 24;
    }
    assert_eq!(changes, vec![RobbedBitChange { timestamp: first_matching, address, abcd: 0b1111 }]);
    assert_eq!(debouncer.state.timeslot[9], 0b1111);
    assert_eq!(debouncer.state.timeslot[8], 0b0101);
}

#[test]
fn change_seen_in_one_superframe_only_is_not_accepted() {
    let address = TimeslotAddress::new(3, 0);
    let mut debouncer = RobbedBitDebouncer::new();
    let mut changes: Vec<RobbedBitChange> = Vec::new();
    let mut start = 0u32;
    for abcd in [0b0101u8, 0b1111, 0b0101, 0b1100, 0b0011, 0b0101, 0b0101] {
        for frame in superframe(start, &address, abcd, 0b0101) {
            if frame.mf_bits & 8 != 0 {
                debouncer.new_frame(frame.frame_count);
            }
            changes.extend(debouncer.process_frame(&frame, 3));
        }
        start += 24;
    }
    assert!(changes.is_empty());
    assert_eq!(debouncer.state.timeslot, [0b0101; 24]);
}

#[test]
fn change_back_is_reported_after_two_superframes_again() {
    let address = TimeslotAddress::new(0, 23);
    let mut debouncer = RobbedBitDebouncer::new();
    let mut changes: Vec<RobbedBitChange> = Vec::new();
    let mut start = 0u32;
    for abcd in [0b1111u8, 0b1111, 0b1111, 0b0101, 0b0101] {
        for frame in superframe(start, &address, abcd, 0b0101) {
            if frame.mf_bits & 1 != 0 {
                debouncer.new_frame(frame.frame_count);
            }
            changes.extend(debouncer.process_frame(&frame, 0));
        }
        start += 24;
    }
    assert_eq!(
        changes,
        vec![
            RobbedBitChange { timestamp: 0, address, abcd: 0b1111 },
            RobbedBitChange { timestamp: 72, address, abcd: 0b0101 },
        ]
    );
}

#[test]
fn debouncer_starts_idle() {
    let debouncer = RobbedBitDebouncer::new();
    assert_eq!(debouncer.state.timeslot, [0b0101; 24]);
    assert_eq!(debouncer.accumulator.timeslot, [0b0101; 24]);
    assert_eq!(debouncer.history.timeslot, [0b0101; 24]);
    let state = SuperframeState::default();
    assert_eq!(state.robbed_bit_debouncer.state.timeslot, [0b0101; 24]);
}

#[test]
fn framing_bits_go_to_three_streams() {
    let mut state = ExtendedSuperFrameState::from_timestamp(100);
    let address = TimeslotAddress::new(0, 0);
    for position in 0..24u32 {
        let frame = frame_with_bit(100 + position, 0, 0xff, &address, 1);
        let mf = position % 4 == 3 || position == 1;
        let complete = state.process_frame(&frame, mf);
        assert!(!complete);
    }
    assert_eq!(state.framing_bits, 0b111111);
    assert_eq!(state.crc_bits, 0b100000);
    assert_eq!(state.fdl_bits, 0);
    assert_eq!(state.superframe_frame_count, 100);
    state.bits_collected = 0x7f_ffff;
    assert!(state.process_frame(&frame_with_bit(123, 0, 0xff, &address, 1), true));
    assert!(!state.process_frame(&frame_with_bit(122, 0, 0xff, &address, 1), true));
    assert!(!state.process_frame(&frame_with_bit(124, 0, 0xff, &address, 1), true));
    let fresh = ExtendedSuperFrameState::default();
    assert_eq!(fresh.superframe_frame_count, 0);
    assert_eq!(fresh.bits_collected, 0);
}

#[test]
fn frame_count_monitor_reports_gaps() {
    let mut monitor = FrameCountDiscontinuityMonitor::new();
    assert_eq!(monitor.update(10), None);
    assert_eq!(monitor.update(11), None);
    assert_eq!(monitor.update(15), Some(3));
    assert_eq!(monitor.update(16), None);
    assert_eq!(monitor.update(16), Some(u32::MAX));
    assert_eq!(monitor.update(u32::MAX), Some(u32::MAX - 17));
    assert_eq!(monitor.update(0), None);
    assert_eq!(monitor.update(7), None);
    assert_eq!(monitor.update(9), Some(1));
}

/// Finds the digit 5 in every sample that decodes to `trigger`.
struct SampleDetector {
    trigger: i16,
    samples: Vec<i16>,
}

impl Detector for SampleDetector {
    fn advance(&mut self, sample: i16) -> Option<DetectionEvent> {
        self.samples.push(sample);
        if sample == self.trigger {
            Some(DetectionEvent::DtmfDigit('5'))
        } else {
            None
        }
    }
}

#[test]
fn signaling_processor_on_a_silent_line_reports_nothing() {
    let mut processor: SignalingProcessor<SampleDetector> = SignalingProcessor::new();
    assert!(processor.add_detector(TimeslotAddress::new(0, 0), SampleDetector { trigger: 1234, samples: Vec::new() }));
    let frame = Frame::from_samples(&[0xff; 192]);
    for frame_count in 0..8000u32 {
        let report = processor.process_frame(&InternalFrame { frame, frame_count, mf_bits: 0 });
        assert_eq!(report.dropped_frames, None);
        assert!(report.events.is_empty());
    }
}

#[test]
fn signaling_processor_reports_robbed_bit_changes_of_every_span() {
    let mut processor: SignalingProcessor<SampleDetector> = SignalingProcessor::new();
    let mut events: Vec<(u32, FramerEvent)> = Vec::new();
    let mut start = 24u32;
    let address = TimeslotAddress::new(0, 4);
    for abcd in [0b0101u8, 0b0101, 0b1111, 0b1111] {
        for frame in superframe(start, &address, abcd, 0b0101) {
            let report = processor.process_frame(&frame);
            assert_eq!(report.dropped_frames, None);
            for event in report.events {
                events.push((frame.frame_count, event));
            }
        }
        start += 24;
    }
    // Only span 0 has a sample in the frame that differs from the others.
    assert_eq!(events.len(), 1);
    match events[0] {
        (at, FramerEvent::RobbedBitState(timestamp, changed, abcd)) => {
            assert_eq!(at, 24 + 4 * 24 - 1);
            assert_eq!(timestamp, 24 + 2 * 24);
            assert_eq!(changed, address);
            assert_eq!(abcd, 0b1111);
        }
        ref other => panic!("unexpected event {:?}", other),
    }
}

#[test]
fn signaling_processor_without_multiframe_marks_collects_nothing_new() {
    let mut processor: SignalingProcessor<SampleDetector> = SignalingProcessor::new();
    let frame = Frame::from_samples(&[0xff; 192]);
    for frame_count in 1..200u32 {
        let report = processor.process_frame(&InternalFrame { frame, frame_count, mf_bits: 0 });
        assert!(report.events.is_empty());
    }
}

#[test]
fn signaling_processor_reports_dropped_frames() {
    let mut processor: SignalingProcessor<SampleDetector> = SignalingProcessor::new();
    let frame = Frame::default();
    assert_eq!(processor.process_frame(&InternalFrame { frame, frame_count: 5, mf_bits: 0 }).dropped_frames, None);
    assert_eq!(processor.process_frame(&InternalFrame { frame, frame_count: 6, mf_bits: 0 }).dropped_frames, None);
    assert_eq!(
        processor.process_frame(&InternalFrame { frame, frame_count: 10, mf_bits: 0 }).dropped_frames,
        Some(3)
    );
}

#[test]
fn signaling_processor_feeds_detectors_decoded_samples() {
    let mut processor: SignalingProcessor<SampleDetector> = SignalingProcessor::new();
    let first = TimeslotAddress::new(1, 2);
    let second = TimeslotAddress::new(7, 23);
    let trigger = decode_i16(0x35);
    assert!(processor.add_detector(first, SampleDetector { trigger, samples: Vec::new() }));
    assert!(processor.add_detector(second, SampleDetector { trigger, samples: Vec::new() }));
    assert!(!processor.add_detector(first, SampleDetector { trigger, samples: Vec::new() }));
    assert!(!processor.add_detector(TimeslotAddress::new(8, 0), SampleDetector { trigger, samples: Vec::new() }));
    assert!(!processor.add_detector(TimeslotAddress::new(0, 24), SampleDetector { trigger, samples: Vec::new() }));

    let mut frame = Frame::default();
    let report = processor.process_frame(&InternalFrame { frame, frame_count: 1, mf_bits: 0 });
    assert!(report.events.is_empty());

    frame.set_timeslot(&second, 0x35);
    let report = processor.process_frame(&InternalFrame { frame, frame_count: 2, mf_bits: 0 });
    assert_eq!(report.events.len(), 1);
    match report.events[0] {
        FramerEvent::Digit(address, event) => {
            assert_eq!(address, second);
            assert_eq!(event, DetectionEvent::DtmfDigit('5'));
        }
        ref other => panic!("unexpected event {:?}", other),
    }

    frame.set_timeslot(&first, 0x35);
    let report = processor.process_frame(&InternalFrame { frame, frame_count: 3, mf_bits: 0 });
    assert_eq!(report.events.len(), 2);
    match (report.events[0], report.events[1]) {
        (FramerEvent::Digit(a, _), FramerEvent::Digit(b, _)) => {
            assert_eq!(a, first);
            assert_eq!(b, second);
        }
        ref other => panic!("unexpected events {:?}", other),
    }
}

#[test]
fn line_state_from_interrupts() {
    let mut line = LineStateInterrupt::new(1_000);
    assert!(!line.off_hook());
    assert_eq!(line.abcd, 0b0101);
    assert_eq!(line.set_state(2_000, false, true, false, true), None);
    assert_eq!(line.timestamp, 1_000);
    assert_eq!(line.set_state(4_500, true, true, true, true), Some((3_500, true)));
    assert!(line.off_hook());
    assert_eq!(line.set_state(4_000, true, true, false, false), Some((0, true)));
    assert_eq!(line.set_state(9_000, true, false, true, true), Some((5_000, false)));
    assert_eq!(line.abcd, 0b1011);
}

#[test]
fn line_state_from_robbed_bits() {
    let mut line = LineStateRobbedBitState::default();
    assert!(!line.off_hook());
    assert_eq!(line.set_state(800, 0b0101), None);
    assert_eq!(line.frame_count, 0);
    assert_eq!(line.set_state(8_000, 0b1111), Some((1_000, true)));
    assert_eq!(line.frame_count, 8_000);
    assert!(line.off_hook());
    assert_eq!(line.set_state(8_007, 0b1101), Some((0, true)));
    assert_eq!(line.set_state(8_015, 0b0111), Some((1, false)));
    assert_eq!(line.set_state(7, 0xf0 | 0b1100), Some((((7u64 + (1 << 32)) - 8_015) / 8, true)));
    assert_eq!(line.abcd, 0b1100);
}

#[test]
fn digits_are_noted_in_the_order_of_the_detectors() {
    let addresses = vec![TimeslotAddress::new(0, 0), TimeslotAddress::new(1, 1), TimeslotAddress::new(2, 2)];
    let found = vec![Some(DetectionEvent::DtmfDigit('1')), None, Some(DetectionEvent::PulseDigit('3'))];
    let mut events = vec![FramerEvent::RobbedBitState(7, TimeslotAddress::new(5, 5), 0b1111)];
    tedium::framer::processor::note_digits(&mut events, &addresses, &found);
    assert_eq!(events.len(), 3);
    assert!(matches!(events[0], FramerEvent::RobbedBitState(7, _, 0b1111)));
    match (events[1], events[2]) {
        (FramerEvent::Digit(first, a), FramerEvent::Digit(second, b)) => {
            assert_eq!((first, a), (addresses[0], DetectionEvent::DtmfDigit('1')));
            assert_eq!((second, b), (addresses[2], DetectionEvent::PulseDigit('3')));
        }
        ref other => panic!("unexpected events {:?}", other),
    }
    // More findings than addresses: the rest is left out.
    let mut events = Vec::new();
    let found = vec![None, None, None, Some(DetectionEvent::DtmfDigit('9'))];
    tedium::framer::processor::note_digits(&mut events, &addresses, &found);
    assert!(events.is_empty());
}
