pub mod bus;
pub mod framer;
pub mod peripheral;
pub mod test_points;
pub mod uart;
pub mod usb;
