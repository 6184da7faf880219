use tedium::detector::dtmf::{
    detect, key, DetectionState, DetectionStateMachine, Detector, DetectorGroup, WindowsDue, KEY_MAP,
    LEVEL_MAX, LEVEL_MIN, WINDOW_HIGH, WINDOW_LOW,
};
use tedium::detector::DetectionEvent;

const QUIET: i32 = -6000;

/// The powers of a group in which the tone at `index` has `level`.
fn tone(index: usize, level: i32) -> [i32; 4] {
    let mut powers = [QUIET; 4];
    powers[index] = level;
    powers
}

#[test]
fn every_key_of_the_dial_is_detected() {
    let keys = [['1', '2', '3', 'A'], ['4', '5', '6', 'B'], ['7', '8', '9', 'C'], ['*', '0', '#', 'D']];
    assert_eq!(KEY_MAP, keys);
    for row in 0..4 {
        for column in 0..4 {
            assert_eq!(key(row, column), keys[row][column]);
            assert_eq!(detect(&tone(row, -1000), &tone(column, -1000)), Some(keys[row][column]));
        }
    }
}

#[test]
fn tone_at_the_lowest_level_counts_and_a_hundredth_below_does_not() {
    assert_eq!(LEVEL_MIN, -2500);
    assert_eq!(detect(&tone(1, -2500), &tone(1, -2500)), Some('5'));
    assert_eq!(detect(&tone(1, -2501), &tone(1, -2500)), None);
    assert_eq!(detect(&tone(1, -2500), &tone(1, -2501)), None);
    assert_eq!(detect(&tone(1, -2501), &tone(1, -2501)), None);
}

#[test]
fn tone_at_the_highest_level_counts_and_a_hundredth_above_does_not() {
    assert_eq!(LEVEL_MAX, 0);
    assert_eq!(detect(&tone(0, 0), &tone(3, 0)), Some('A'));
    assert_eq!(detect(&tone(0, 1), &tone(3, 0)), None);
    assert_eq!(detect(&tone(0, 0), &tone(3, 1)), None);
}

#[test]
fn strongest_tone_must_exceed_the_next_by_ten_decibels() {
    assert_eq!(detect(&[-2000, -1000, QUIET, QUIET], &tone(2, -1000)), Some('6'));
    assert_eq!(detect(&[-1999, -1000, QUIET, QUIET], &tone(2, -1000)), None);
    assert_eq!(detect(&tone(1, -1000), &[QUIET, QUIET, -1000, -2000]), Some('6'));
    assert_eq!(detect(&tone(1, -1000), &[QUIET, QUIET, -1000, -1999]), None);
    assert_eq!(detect(&[-1000, -1000, -1000, -1000], &tone(2, -1000)), None);
}

#[test]
fn twist_must_be_between_minus_eight_and_plus_four_decibels() {
    assert_eq!(detect(&tone(3, -1000), &tone(0, -600)), Some('*'));
    assert_eq!(detect(&tone(3, -1000), &tone(0, -599)), None);
    assert_eq!(detect(&tone(3, -1000), &tone(0, -1800)), Some('*'));
    assert_eq!(detect(&tone(3, -1000), &tone(0, -1801)), None);
}

#[test]
fn extreme_levels_do_not_overflow() {
    assert_eq!(detect(&[i32::MAX, i32::MIN, i32::MIN, i32::MIN], &tone(0, -1000)), None);
    assert_eq!(detect(&[i32::MIN, i32::MIN, i32::MIN, i32::MIN], &[i32::MAX; 4]), None);
    assert_eq!(detect(&[0, i32::MIN, i32::MIN, i32::MIN], &[i32::MIN, 0, i32::MIN, i32::MIN]), Some('2'));
}

#[test]
fn detector_group_counts_windows() {
    let mut group = DetectorGroup::new(5, 3);
    let ends: Vec<bool> = (0..12).map(|_| group.iterate()).collect();
    assert_eq!(
        ends,
        vec![false, true, false, false, false, false, true, false, false, false, false, true]
    );
}

#[test]
fn digit_begins_with_the_third_window_that_shows_it() {
    let mut machine = DetectionStateMachine::new();
    assert_eq!(machine.state, DetectionState::S0);
    assert_eq!(machine.last_detection, None);
    assert_eq!(machine.feed(Some('5')), None);
    assert_eq!(machine.state, DetectionState::S0);
    assert_eq!(machine.feed(Some('5')), None);
    assert_eq!(machine.state, DetectionState::S2);
    assert_eq!(machine.feed(Some('5')), Some(DetectionEvent::DtmfDigit('5')));
    assert_eq!(machine.state, DetectionState::S3);
    assert_eq!(machine.last_detection, Some('5'));
    for _ in 0..10 {
        assert_eq!(machine.feed(Some('5')), None);
        assert_eq!(machine.state, DetectionState::S3);
    }
}

#[test]
fn digit_begins_again_only_after_a_pause() {
    let mut machine = DetectionStateMachine::new();
    let mut events = Vec::new();
    let windows = [
        Some('7'), Some('7'), Some('7'), Some('7'),
        None,
        Some('7'), Some('7'), Some('7'),
        None, None,
        Some('7'), Some('7'), Some('7'),
    ];
    for (n, window) in windows.into_iter().enumerate() {
        if let Some(event) = machine.feed(window) {
            events.push((n, event));
        }
    }
    assert_eq!(events, vec![(2, DetectionEvent::DtmfDigit('7')), (12, DetectionEvent::DtmfDigit('7'))]);
}

#[test]
fn chatter_begins_no_digit() {
    let mut machine = DetectionStateMachine::new();
    for window in [Some('1'), Some('2'), Some('1'), None, Some('1'), Some('1'), Some('2'), Some('2'), Some('2')] {
        assert_eq!(machine.feed(window), None);
    }
    assert_eq!(machine.state, DetectionState::S3);
}

#[test]
fn state_that_no_window_enters_behaves_as_written() {
    let mut machine = DetectionStateMachine { state: DetectionState::S1, last_detection: Some('9') };
    assert_eq!(machine.feed(Some('9')), Some(DetectionEvent::DtmfDigit('9')));
    assert_eq!(machine.state, DetectionState::S3);
    let mut machine = DetectionStateMachine { state: DetectionState::S1, last_detection: Some('9') };
    assert_eq!(machine.feed(Some('8')), None);
    assert_eq!(machine.state, DetectionState::S0);
}

#[test]
fn windows_end_every_106_samples_and_the_low_groups_take_turns() {
    assert_eq!(WINDOW_LOW, 212);
    assert_eq!(WINDOW_HIGH, 106);
    let mut detector = Detector::new();
    let mut due = Vec::new();
    for sample in 1..=530usize {
        let windows = detector.advance();
        assert_eq!(windows.high, windows.low.is_some());
        if windows.high {
            due.push((sample, windows));
        }
    }
    assert_eq!(
        due,
        vec![
            (106, WindowsDue { low: Some(1), high: true }),
            (212, WindowsDue { low: Some(0), high: true }),
            (318, WindowsDue { low: Some(1), high: true }),
            (424, WindowsDue { low: Some(0), high: true }),
            (530, WindowsDue { low: Some(1), high: true }),
        ]
    );
}

#[test]
fn digit_five_between_silences_is_reported_exactly_once() {
    // 50 ms of silence, 100 ms of 770 Hz and 1336 Hz at -10 dBm0, 50 ms of
    // silence, at 8000 samples a second: a window is taken for the tone
    // when the tone lasts through all of its 106 samples.
    let silence = [QUIET; 4];
    let mut detector = Detector::new();
    let mut events = Vec::new();
    for sample in 1..=1600usize {
        let windows = detector.advance();
        if windows.high {
            let window_start = sample - 106;
            let in_tone = window_start >= 400 && sample <= 1200;
            let (low, high) = if in_tone { (tone(1, -1000), tone(1, -1000)) } else { (silence, silence) };
            if let Some(event) = detector.window(&low, &high) {
                events.push((sample, event));
            }
        }
    }
    assert_eq!(events.len(), 1);
    assert_eq!(events[0].1, DetectionEvent::DtmfDigit('5'));
}
