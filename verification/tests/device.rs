use tedium::framer::device::{from_libusb, Addressing, Error, RSCRBitmap};

#[test]
fn device_addressing_channel_nxxx() {
    assert_eq!(Addressing::channel_nxxx(0, 0x000), 0x0000);
    assert_eq!(Addressing::channel_nxxx(7, 0x123), 0x7123);
    assert_eq!(Addressing::channel_nxxx(0, 0xfff), 0x0fff);
    assert_eq!(Addressing::channel_nxxx(7, 0xfff), 0x7fff);
}

#[test]
fn device_addressing_channel_nxxx_timeslot() {
    assert_eq!(Addressing::channel_nxxx_timeslot(0, 0x300, 0), 0x0300);
    assert_eq!(Addressing::channel_nxxx_timeslot(0, 0x3c0, 23), 0x03d7);
    assert_eq!(Addressing::channel_nxxx_timeslot(7, 0x500, 8), 0x7508);
    assert_eq!(Addressing::channel_nxxx_timeslot(7, 0x1d0, 15), 0x71df);
}

#[test]
fn device_addressing_channel_0fnx() {
    assert_eq!(Addressing::channel_0fnx(0, 0), 0x0f00);
    assert_eq!(Addressing::channel_0fnx(0, 15), 0x0f0f);
    assert_eq!(Addressing::channel_0fnx(7, 0), 0x0f70);
    assert_eq!(Addressing::channel_0fnx(7, 15), 0x0f7f);
}

#[test]
fn device_addressing_global_0fex() {
    assert_eq!(Addressing::global_0fex(0x0), 0x0fe0);
    assert_eq!(Addressing::global_0fex(0xf), 0x0fef);
}

#[test]
fn device_addressing_global() {
    assert_eq!(Addressing::global(0x0000), 0x0000);
    assert_eq!(Addressing::global(0xffff), 0xffff);
}

#[test]
fn rds0mr_registers_have_a_gap_and_a_jump() {
    assert_eq!(Addressing::rds0mr(0, 0), 0x015f);
    assert_eq!(Addressing::rds0mr(0, 3), 0x0162);
    // 0xN163 is not an RDS0MR register.
    assert_eq!(Addressing::rds0mr(0, 4), 0x0164);
    assert_eq!(Addressing::rds0mr(3, 15), 0x316f);
    // From 0xN16f the set continues at 0xN1c0.
    assert_eq!(Addressing::rds0mr(3, 16), 0x31c0);
    assert_eq!(Addressing::rds0mr(7, 23), 0x71c7);
}

#[test]
fn rscr_bitmap_reads_registers_highest_bit_first() {
    let bitmap = RSCRBitmap::from_registers([0b1000_0000, 0b0000_0001, 0b0100_0010]);
    assert_eq!(bitmap.len(), 24);
    for index in 0..24 {
        let expected = index == 0 || index == 15 || index == 17 || index == 22;
        assert_eq!(bitmap.changed(index), expected, "timeslot {index}");
    }
    assert_eq!(bitmap.0, (1 << 0) | (1 << 15) | (1 << 17) | (1 << 22));
}

#[test]
fn rscr_bitmap_changed_reads_single_bits() {
    let bitmap = RSCRBitmap(0b101);
    assert!(bitmap.changed(0));
    assert!(!bitmap.changed(1));
    assert!(bitmap.changed(2));
    assert!(!bitmap.changed(23));
}

#[test]
fn usb_status_codes_map_to_errors() {
    assert_eq!(from_libusb(-1), Error::Io);
    assert_eq!(from_libusb(-2), Error::InvalidParam);
    assert_eq!(from_libusb(-3), Error::Access);
    assert_eq!(from_libusb(-4), Error::NoDevice);
    assert_eq!(from_libusb(-5), Error::NotFound);
    assert_eq!(from_libusb(-6), Error::Busy);
    assert_eq!(from_libusb(-7), Error::Timeout);
    assert_eq!(from_libusb(-8), Error::Overflow);
    assert_eq!(from_libusb(-9), Error::Pipe);
    assert_eq!(from_libusb(-10), Error::Interrupted);
    assert_eq!(from_libusb(-11), Error::NoMem);
    assert_eq!(from_libusb(-12), Error::NotSupported);
    assert_eq!(from_libusb(-99), Error::Other);
    assert_eq!(from_libusb(0), Error::Other);
    assert_eq!(from_libusb(-13), Error::Other);
}
