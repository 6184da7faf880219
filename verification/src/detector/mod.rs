//! Detectors of in-band signaling.

use vstd::prelude::*;

pub mod dtmf;

verus! {

/// What a detector has found.
#[derive(Copy, Clone, Debug, PartialEq, Eq, Structural)]
pub enum DetectionEvent {
    /// A key of the tone dial was pressed.
    DtmfDigit(char),
    /// A digit was dialled with pulses.
    PulseDigit(char),
}

/// A detector that listens to one timeslot, sample by sample.
pub trait Detector {
    /// Takes in the next sample, as decoded from its μ-law code to a 16-bit
    /// linear value. Returns what the detector has found with it, if
    /// anything.
    fn advance(&mut self, sample: i16) -> Option<DetectionEvent>;
}

} // verus!
