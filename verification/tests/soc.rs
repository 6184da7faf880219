use tedium::framer::device::{Device, DeviceAccess, Xyz};
use tedium::soc::bus::{BusAccess, RecordingBus, RegisterBus};
use tedium::soc::framer::{Access, FramerControl, Window};
use tedium::soc::peripheral::Peripheral;
use tedium::soc::test_points::TestPoints;
use tedium::soc::uart::{Uart, HEXCHAR, UART_TX_DATA, UART_TX_READY};
use tedium::soc::usb::{USBEndpointIn, USBEndpointOut};

fn read(address: u32, value: u32) -> BusAccess {
    BusAccess::Read { address, value }
}

fn write(address: u32, value: u32) -> BusAccess {
    BusAccess::Write { address, value }
}

/// What was written to the register at `address`, in order.
fn written(bus: &RecordingBus, address: u32) -> Vec<u32> {
    bus.record()
        .iter()
        .filter_map(|access| match access {
            BusAccess::Write { address: a, value } if *a == address => Some(*value),
            _ => None,
        })
        .collect()
}

#[test]
fn recording_bus_answers_reads_in_order_and_then_with_zero() {
    let mut bus = RecordingBus::new(vec![7, 8]);
    assert_eq!(bus.read(0x10), 7);
    bus.write(0x14, 99);
    assert_eq!(bus.read(0x18), 8);
    assert_eq!(bus.read(0x1c), 0);
    assert_eq!(bus.record(), &vec![read(0x10, 7), write(0x14, 99), read(0x18, 8), read(0x1c, 0)]);
}

#[test]
fn peripheral_registers_are_words_from_the_base() {
    let peripheral = Peripheral::new(0x8000_1000);
    assert_eq!(peripheral.address(0), 0x8000_1000);
    assert_eq!(peripheral.address(1), 0x8000_1004);
    assert_eq!(peripheral.address(13), 0x8000_1034);
    assert_eq!(Peripheral::new(0xffff_fffc).address(1), 0);
    assert_eq!(Peripheral::new(0).address(u32::MAX), 0xffff_fffc);
    let mut bus = RecordingBus::new(vec![0x1234_5678]);
    assert_eq!(peripheral.register_read(&mut bus, 2), 0x1234_5678);
    peripheral.register_write(&mut bus, 3, 0xdead_beef);
    assert_eq!(bus.record(), &vec![read(0x8000_1008, 0x1234_5678), write(0x8000_100c, 0xdead_beef)]);
}

#[test]
fn test_points_keep_their_levels() {
    let mut bus = RecordingBus::new(Vec::new());
    let mut points = TestPoints::new(0x9000_0000);
    points.set(&mut bus, 0);
    points.set(&mut bus, 31);
    points.toggle(&mut bus, 4);
    points.toggle(&mut bus, 0);
    points.clear(&mut bus, 31);
    points.clear(&mut bus, 7);
    points.toggle(&mut bus, 4);
    assert_eq!(
        written(&bus, 0x9000_0000),
        vec![0x0000_0001, 0x8000_0001, 0x8000_0011, 0x8000_0010, 0x0000_0010, 0x0000_0010, 0x0000_0000]
    );
    assert_eq!(bus.record().len(), 7);
}

#[test]
fn framer_control_lines() {
    let mut bus = RecordingBus::new(Vec::new());
    let control = FramerControl::new(0xa000_0000);
    control.set_reset(&mut bus, true);
    control.set_outputs_control(&mut bus, true);
    control.set_reset(&mut bus, false);
    control.set_outputs_control(&mut bus, false);
    assert_eq!(
        bus.record(),
        &vec![write(0xa000_0000, 1), write(0xa000_0004, 1), write(0xa000_0000, 0), write(0xa000_0004, 0)]
    );
}

#[test]
fn framer_registers_are_the_low_bytes_of_the_window() {
    let mut bus = RecordingBus::new(vec![0xffff_ff42, 0x0000_0100]);
    let access = Access::new(0xb000_0000);
    assert_eq!(access.read(&mut bus, 0x0102), 0x42);
    assert_eq!(access.read(&mut bus, 0xffff), 0x00);
    access.write(&mut bus, 0x7fff, 0xa5);
    assert_eq!(
        bus.record(),
        &vec![
            read(0xb000_0000 + 4 * 0x0102, 0xffff_ff42),
            read(0xb000_0000 + 4 * 0xffff, 0x0000_0100),
            write(0xb000_0000 + 4 * 0x7fff, 0xa5),
        ]
    );
}

#[test]
fn uart_waits_for_the_transmitter_before_every_character() {
    let base = 0xc000_0000;
    let data = base + 4 * UART_TX_DATA;
    let ready = base + 4 * UART_TX_READY;
    let mut bus = RecordingBus::new(vec![0, 0, 1, 1]);
    let uart = Uart::new(base);
    assert!(uart.write_char(&mut bus, b'A'));
    assert!(uart.write_char(&mut bus, b'B'));
    assert_eq!(
        bus.record(),
        &vec![
            read(ready, 0),
            read(ready, 0),
            read(ready, 1),
            write(data, 0x41),
            read(ready, 1),
            write(data, 0x42),
        ]
    );
}

#[test]
fn uart_writes_hexadecimal_digits_highest_first() {
    let base = 0xc000_0000;
    let data = base + 4 * UART_TX_DATA;
    let uart = Uart::new(base);

    let mut bus = RecordingBus::new(vec![1; 2]);
    assert_eq!(uart.write_hex_u8(&mut bus, 0x0f), 2);
    assert_eq!(written(&bus, data), vec![b'0' as u32, b'f' as u32]);

    let mut bus = RecordingBus::new(vec![1; 4]);
    assert_eq!(uart.write_hex_u16(&mut bus, 0xbeef), 4);
    assert_eq!(written(&bus, data), b"beef".iter().map(|&c| c as u32).collect::<Vec<u32>>());

    let mut bus = RecordingBus::new(vec![1; 8]);
    assert_eq!(uart.write_hex_u32(&mut bus, 0x0123_9abc), 8);
    assert_eq!(written(&bus, data), b"01239abc".iter().map(|&c| c as u32).collect::<Vec<u32>>());

    assert_eq!(&HEXCHAR, b"0123456789abcdef");
}

#[test]
fn uart_writes_strings_byte_by_byte() {
    let base = 0xc000_0000;
    let data = base + 4 * UART_TX_DATA;
    let uart = Uart::new(base);
    let mut bus = RecordingBus::new(vec![1; 16]);
    assert_eq!(uart.write_str(&mut bus, "ok\u{e9}\n"), 5);
    assert_eq!(written(&bus, data), vec![0x6f, 0x6b, 0xc3, 0xa9, 0x0a]);
    assert_eq!(uart.write_str(&mut bus, ""), 0);
    assert_eq!(written(&bus, data).len(), 5);
    assert_eq!(Uart::EOL, b'\n');
    assert_eq!(Uart::SPACE, b' ');
}

#[test]
fn usb_in_endpoint_registers() {
    let base = 0xd000_0000;
    let endpoint = USBEndpointIn::new(base);
    let mut bus = RecordingBus::new(vec![1, 0, 0, 1, 0, 1, 0x1c3]);
    endpoint.write_fifo(&mut bus, 0xab);
    endpoint.transmit(&mut bus, 2);
    endpoint.reset(&mut bus);
    endpoint.set_stall(&mut bus);
    endpoint.clear_stall(&mut bus);
    assert!(endpoint.is_idle(&mut bus));
    assert!(!endpoint.is_idle(&mut bus));
    assert!(endpoint.is_fifo_empty(&mut bus));
    assert!(!endpoint.is_fifo_empty(&mut bus));
    assert!(!endpoint.is_interrupt_pending(&mut bus));
    assert!(endpoint.is_interrupt_pending(&mut bus));
    assert_eq!(endpoint.get_pid(&mut bus), 0xc3);
    endpoint.set_pid(&mut bus, 1);
    assert_eq!(
        bus.record(),
        &vec![
            write(base, 0xab),
            write(base + 4, 2),
            write(base + 8, 1),
            write(base + 12, 1),
            write(base + 12, 0),
            read(base + 16, 1),
            read(base + 16, 0),
            read(base + 20, 0),
            read(base + 20, 1),
            read(base + 24, 0),
            read(base + 24, 1),
            read(base + 28, 0x1c3),
            write(base + 28, 1),
        ]
    );
}

#[test]
fn usb_out_endpoint_registers() {
    let base = 0xe000_0000;
    let endpoint = USBEndpointOut::new(base);
    let answers: Vec<u32> = (0..11u32).map(|n| 0x100 + n).collect();
    let mut bus = RecordingBus::new(answers);
    assert_eq!(endpoint.get_data(&mut bus), 0);
    assert_eq!(endpoint.get_data_ep(&mut bus), 1);
    assert_eq!(endpoint.get_epno(&mut bus), 2);
    assert_eq!(endpoint.get_enable(&mut bus), 3);
    assert_eq!(endpoint.get_stall(&mut bus), 4);
    assert_eq!(endpoint.get_have(&mut bus), 5);
    assert_eq!(endpoint.get_pend(&mut bus), 6);
    assert_eq!(endpoint.get_pid(&mut bus), 7);
    assert_eq!(endpoint.get_ev_status(&mut bus), 0x108);
    assert_eq!(endpoint.get_ev_pending(&mut bus), 0x109);
    assert_eq!(endpoint.get_ev_enable(&mut bus), 0x10a);
    let reads: Vec<u32> = bus
        .record()
        .iter()
        .map(|access| match access {
            BusAccess::Read { address, .. } => (*address - base) / 4,
            BusAccess::Write { .. } => panic!("a getter wrote"),
        })
        .collect();
    assert_eq!(reads, vec![0, 1, 3, 4, 6, 7, 8, 9, 11, 12, 13]);

    let mut bus = RecordingBus::new(Vec::new());
    endpoint.reset(&mut bus);
    endpoint.set_epno(&mut bus, 0x13);
    endpoint.set_enable(&mut bus, 0x14);
    endpoint.set_prime(&mut bus, 0x15);
    endpoint.set_stall(&mut bus, 0x16);
    endpoint.set_have(&mut bus, 0x17);
    endpoint.set_pend(&mut bus, 0x18);
    endpoint.set_pid(&mut bus, 0x19);
    endpoint.set_owner(&mut bus, 0x1a);
    endpoint.set_ev_pending(&mut bus, 0xffff_0001);
    endpoint.set_ev_enable(&mut bus, 0xffff_0002);
    assert_eq!(
        bus.record(),
        &vec![
            write(base + 4 * 2, 1),
            write(base + 4 * 3, 0x13),
            write(base + 4 * 4, 0x14),
            write(base + 4 * 5, 0x15),
            write(base + 4 * 6, 0x16),
            write(base + 4 * 7, 0x17),
            write(base + 4 * 8, 0x18),
            write(base + 4 * 9, 0x19),
            write(base + 4 * 10, 0x1a),
            write(base + 4 * 12, 0xffff_0001),
            write(base + 4 * 13, 0xffff_0002),
        ]
    );
}

#[test]
fn window_carries_single_reads_and_writes() {
    let base = 0x8010_0000;
    let mut window = Window::new(Access::new(base), RecordingBus::new(vec![0x0000_01a5]));
    assert_eq!(window.read(0x0b00), Ok(0xa5));
    assert_eq!(window.write(0x7fff, 0x5a), Ok(()));
    assert_eq!(window.read(0x0000), Ok(0x00));
    assert_eq!(
        window.bus().record(),
        &vec![read(base + 4 * 0x0b00, 0x0000_01a5), write(base + 4 * 0x7fff, 0x5a), read(base, 0)]
    );
}

#[test]
fn device_reaches_its_registers_by_its_way_of_access() {
    let base = 0x8010_0000;
    let bus = RecordingBus::new(vec![0x11, 0xffff_ff22]);
    let mut device = Device::new(Window::new(Access::new(base), bus));
    assert_eq!(device.register_read(0x0102), Ok(0x11));
    assert_eq!(device.register_write(0x4102, 0xf0), Ok(()));
    assert_eq!(device.register_read(0xffff), Ok(0x22));
    assert_eq!(device.register_write(0x0000, 0x00), Ok(()));
    let window = device.into_access();
    assert_eq!(
        window.bus().record(),
        &vec![
            read(base + 4 * 0x0102, 0x11),
            write(base + 4 * 0x4102, 0xf0),
            read(base + 4 * 0xffff, 0xffff_ff22),
            write(base, 0x00),
        ]
    );
}
