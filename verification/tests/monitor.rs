use tedium::detector::DetectionEvent;
use tedium::framer::frame::TimeslotAddress;
use tedium::framer::monitor::{LineMonitor, LineReport, Told};
use tedium::framer::FramerEvent;

/// A report of span `channel` that carries the frame status with the
/// signaling bits `abcd` of the 24 timeslots.
fn signaling_report(channel: u8, abcd: [u8; 24]) -> Vec<u8> {
    let mut bytes = vec![channel, 0x01, 0x20];
    for pair in abcd.chunks(2) {
        bytes.push((pair[0] << 4) | pair[1]);
    }
    bytes
}

fn changes_of(told: Told) -> Vec<LineReport> {
    match told {
        Told::Status(_, changes) => changes,
        _ => panic!("the status was not read"),
    }
}

#[test]
fn interrupt_event_holds_the_report() {
    match FramerEvent::interrupt(5, &[1, 2, 3]) {
        Some(FramerEvent::Interrupt { timestamp, data, length }) => {
            assert_eq!(timestamp, 5);
            assert_eq!(length, 3);
            assert_eq!(&data[..3], &[1, 2, 3]);
            assert!(data[3..].iter().all(|&byte| byte == 0));
        }
        other => panic!("unexpected event {:?}", other),
    }
    assert!(FramerEvent::interrupt(5, &[]).is_none());
    assert!(FramerEvent::interrupt(5, &[0x55; 257]).is_none());
    match FramerEvent::interrupt(u64::MAX, &[0x55; 256]) {
        Some(FramerEvent::Interrupt { data, length, .. }) => {
            assert_eq!(length, 256);
            assert_eq!(data, [0x55; 256]);
        }
        other => panic!("unexpected event {:?}", other),
    }
}

#[test]
fn monitor_tells_the_lines_that_an_interrupt_changes() {
    let mut monitor = LineMonitor::new(1_000);
    let mut abcd = [0b0101u8; 24];
    abcd[3] = 0b1111;
    abcd[10] = 0b0000;
    let event = FramerEvent::interrupt(4_000, &signaling_report(2, abcd)).unwrap();
    match monitor.handle(&event) {
        Told::Status(status, changes) => {
            assert_eq!(status.channel_index, 2);
            assert_eq!(status.t1frame.unwrap().sig.unwrap().rsars[3].0, 0b1111);
            assert_eq!(
                changes,
                vec![
                    LineReport::Interrupt { address: TimeslotAddress::new(2, 3), lasted: 3_000, off_hook: true },
                    LineReport::Interrupt { address: TimeslotAddress::new(2, 10), lasted: 3_000, off_hook: false },
                ]
            );
        }
        _ => panic!("the status was not read"),
    }
    // The same bits again change nothing.
    let event = FramerEvent::interrupt(5_000, &signaling_report(2, abcd)).unwrap();
    assert!(changes_of(monitor.handle(&event)).is_empty());
    // The lines of another span are still idle.
    let event = FramerEvent::interrupt(6_000, &signaling_report(3, abcd)).unwrap();
    assert_eq!(changes_of(monitor.handle(&event)).len(), 2);
    // Back to idle.
    let event = FramerEvent::interrupt(9_500, &signaling_report(2, [0b0101; 24])).unwrap();
    assert_eq!(
        changes_of(monitor.handle(&event)),
        vec![
            LineReport::Interrupt { address: TimeslotAddress::new(2, 3), lasted: 5_500, off_hook: false },
            LineReport::Interrupt { address: TimeslotAddress::new(2, 10), lasted: 5_500, off_hook: false },
        ]
    );
}

#[test]
fn monitor_tells_an_interrupt_without_signaling() {
    let mut monitor = LineMonitor::new(0);
    let event = FramerEvent::interrupt(1, &[0x04, 0x04, 0xaa]).unwrap();
    match monitor.handle(&event) {
        Told::Status(status, changes) => {
            assert_eq!(status.channel_index, 4);
            assert_eq!(status.slip.unwrap().sbisr.0, 0xaa);
            assert!(changes.is_empty());
        }
        _ => panic!("the status was not read"),
    }
}

#[test]
fn monitor_sets_aside_what_it_cannot_read() {
    let mut monitor = LineMonitor::new(0);
    assert_eq!(monitor.bad_status_count(), 0);
    let truncated = FramerEvent::interrupt(1, &[0x00, 0x01]).unwrap();
    assert!(matches!(monitor.handle(&truncated), Told::BadStatus));
    let trailing = FramerEvent::interrupt(1, &[0x00, 0x00, 0x00]).unwrap();
    assert!(matches!(monitor.handle(&trailing), Told::BadStatus));
    let overlong = FramerEvent::Interrupt { timestamp: 1, data: [0; 256], length: 257 };
    assert!(matches!(monitor.handle(&overlong), Told::BadStatus));
    let none = FramerEvent::Interrupt { timestamp: 1, data: [0; 256], length: 0 };
    assert!(matches!(monitor.handle(&none), Told::BadStatus));
    assert_eq!(monitor.bad_status_count(), 4);
    let good = FramerEvent::interrupt(1, &[0x00, 0x00]).unwrap();
    assert!(matches!(monitor.handle(&good), Told::Status(_, _)));
    assert_eq!(monitor.bad_status_count(), 4);
}

#[test]
fn monitor_ignores_the_signaling_of_a_span_that_does_not_exist() {
    let mut monitor = LineMonitor::new(0);
    let event = FramerEvent::interrupt(1, &signaling_report(8, [0b1111; 24])).unwrap();
    assert!(changes_of(monitor.handle(&event)).is_empty());
    let event = FramerEvent::interrupt(1, &signaling_report(7, [0b1111; 24])).unwrap();
    assert_eq!(changes_of(monitor.handle(&event)).len(), 24);
}

#[test]
fn monitor_passes_digits_on() {
    let mut monitor = LineMonitor::new(0);
    let address = TimeslotAddress::new(1, 1);
    let event = FramerEvent::Digit(address, DetectionEvent::DtmfDigit('#'));
    match monitor.handle(&event) {
        Told::Digit(at, digit) => {
            assert_eq!(at, address);
            assert_eq!(digit, DetectionEvent::DtmfDigit('#'));
        }
        _ => panic!("the digit was not told"),
    }
}

#[test]
fn monitor_tells_the_lines_that_robbed_bits_change() {
    let mut monitor = LineMonitor::new(0);
    let address = TimeslotAddress::new(1, 2);
    let told = monitor.handle(&FramerEvent::RobbedBitState(8_000, address, 0b1111));
    assert!(matches!(
        told,
        Told::Line(Some(LineReport::RobbedBits { address: a, lasted: 1_000, off_hook: true })) if a == address
    ));
    let told = monitor.handle(&FramerEvent::RobbedBitState(9_000, address, 0b1111));
    assert!(matches!(told, Told::Line(None)));
    let told = monitor.handle(&FramerEvent::RobbedBitState(8_800, TimeslotAddress::new(1, 3), 0b0101));
    assert!(matches!(told, Told::Line(None)));
    assert_eq!(
        monitor.robbed_bit_state(8_800, address, 0b0100),
        Some(LineReport::RobbedBits { address, lasted: 100, off_hook: false })
    );
    assert_eq!(monitor.robbed_bit_state(9_000, TimeslotAddress::new(8, 0), 0b1111), None);
    assert_eq!(monitor.robbed_bit_state(9_000, TimeslotAddress::new(0, 24), 0b1111), None);
}
