//! The host side of an adapter that terminates eight T1 spans and carries
//! their frames over USB.
//!
//! * [`codec`]: μ-law encoding and decoding.
//! * [`detector`]: detection of dialled digits.
//! * [`esf`]: a decoder of the extended superframe, bit by bit.
//! * [`framer`]: the frame stream in both directions, signaling, the
//!   cross-point matrix, and the status reports of the framer chip.
//! * [`soc`]: the peripherals that the adapter's own processor drives.

pub mod codec;
pub mod detector;
pub mod esf;
pub mod framer;
pub mod soc;
