//! The audio processor: for every frame received, a frame to send, made by
//! a cross-point matrix from the samples received and from tones.

use vstd::prelude::*;
use crate::codec::ulaw::{encode_i14, encode_i14_spec};
use crate::framer::frame::{
    Frame, Sample, TimeslotAddress, CHANNELS, FRAME_SAMPLES, SAMPLE_IDLE, TIMESLOTS_PER_CHANNEL,
};

verus! {

/// The tones that the tone plant makes.
#[derive(Copy, Clone, PartialEq, Eq, Structural, Hash, Debug)]
pub enum ToneSource {
    DialTonePrecise,
    Ringback,
}

/// What an outgoing timeslot carries.
#[derive(Copy, Clone, Debug, PartialEq, Eq, Structural)]
pub enum Patch {
    /// Silence.
    Idle,
    /// What the given incoming timeslot carries.
    Input(TimeslotAddress),
    /// The given tone.
    Tone(ToneSource),
}

impl Patch {
    /// The patch names nothing that does not exist.
    pub open spec fn is_valid(self) -> bool {
        self matches Patch::Input(source) ==> source.is_valid()
    }

    /// Tells whether the patch names nothing that does not exist.
    pub fn in_range(&self) -> (valid: bool)
        ensures
            valid == self.is_valid(),
    {
        match self {
            Patch::Input(source) => source.in_range(),
            _ => true,
        }
    }
}

/// A change to the cross-point matrix.
#[derive(Copy, Clone, Debug)]
pub enum ProcessorMessage {
    /// The outgoing timeslot at the address is to carry what the patch says.
    Patch(TimeslotAddress, Patch),
}

/// One sample of each tone, as μ-law codes.
#[derive(Copy, Clone, Debug, PartialEq, Eq, Structural)]
pub struct ToneSamples {
    pub dial_tone_precise: Sample,
    pub ringback: Sample,
}

impl ToneSamples {
    /// The sample of the tone `source`.
    pub open spec fn of(self, source: ToneSource) -> Sample {
        match source {
            ToneSource::DialTonePrecise => self.dial_tone_precise,
            ToneSource::Ringback => self.ringback,
        }
    }
}

/// The sample that an outgoing timeslot with the given patch carries.
pub open spec fn patched_sample(patch: Patch, frame_in: Frame, tones: ToneSamples) -> Sample {
    match patch {
        Patch::Idle => SAMPLE_IDLE,
        Patch::Input(source) => frame_in.sample(source),
        Patch::Tone(source) => tones.of(source),
    }
}

/// The cross-point matrix: a patch for every outgoing timeslot.
pub struct Patching {
    map: [[Patch; CHANNELS]; TIMESLOTS_PER_CHANNEL],
}

impl Patching {
    #[verifier::type_invariant]
    spec fn sources_exist(&self) -> bool {
        forall|timeslot: int, channel: int|
            0 <= timeslot < TIMESLOTS_PER_CHANNEL && 0 <= channel < CHANNELS ==> (
            #[trigger] self.map[timeslot][channel]).is_valid()
    }

    /// The patch of the outgoing timeslot at `address`.
    pub closed spec fn patch_at(&self, address: TimeslotAddress) -> Patch {
        self.map[address.timeslot as int][address.channel as int]
    }

    /// The patch of the outgoing timeslot at `address`. No patch names an
    /// incoming timeslot that does not exist.
    pub fn timeslot(&self, address: &TimeslotAddress) -> (patch: Patch)
        requires
            address.is_valid(),
        ensures
            patch == self.patch_at(*address),
            patch.is_valid(),
    {
        proof {
            use_type_invariant(self);
        }
        self.map[address.timeslot][address.channel]
    }

    /// Gives the outgoing timeslot at `address` the patch `patch`.
    pub fn set_timeslot(&mut self, address: &TimeslotAddress, patch: Patch)
        requires
            address.is_valid(),
            patch.is_valid(),
        ensures
            final(self).patch_at(*address) == patch,
            forall|other: TimeslotAddress|
                other.is_valid() && other != *address ==> final(self).patch_at(other) == old(self).patch_at(other),
    {
        proof {
            use_type_invariant(&*self);
        }
        let mut map = self.map;
        map[address.timeslot][address.channel] = patch;
        *self = Patching { map };
    }
}

impl Default for Patching {
    /// Every outgoing timeslot idle.
    fn default() -> (patching: Self)
        ensures
            forall|address: TimeslotAddress| address.is_valid() ==> patching.patch_at(address) == Patch::Idle,
    {
        Self { map: [[Patch::Idle; CHANNELS]; TIMESLOTS_PER_CHANNEL] }
    }
}

/// A source of a tone: one sample for every frame.
pub trait ToneGenerator {
    /// The current sample, linear, in the 14-bit range of the encoder.
    fn output(&self) -> i16;

    /// Moves on by one sample.
    fn advance(&mut self);
}

/// The generators of the tones. A tone without a generator is silent.
pub struct TonePlant<G: ToneGenerator> {
    pub dial_tone_precise: Option<G>,
    pub ringback: Option<G>,
}

/// Makes the frame to send from the frame received.
pub struct AudioProcessor<G: ToneGenerator> {
    patching: Patching,
    tone_plant: TonePlant<G>,
}

impl<G: ToneGenerator> AudioProcessor<G> {
    /// A processor with every outgoing timeslot idle.
    pub fn new(tone_plant: TonePlant<G>) -> (processor: Self)
        ensures
            forall|address: TimeslotAddress| address.is_valid() ==> processor.patch_at(address) == Patch::Idle,
    {
        Self { patching: Patching::default(), tone_plant }
    }

    /// The patch of the outgoing timeslot at `address`.
    pub closed spec fn patch_at(&self, address: TimeslotAddress) -> Patch {
        self.patching.patch_at(address)
    }

    /// `frame_out` is the frame to send when `frame_in` was received and
    /// the tones stand at `tones`: every outgoing timeslot carries what its
    /// patch says.
    pub open spec fn mixes(&self, frame_in: Frame, tones: ToneSamples, frame_out: Frame) -> bool {
        forall|address: TimeslotAddress|
            address.is_valid() ==> #[trigger] frame_out.sample(address) == patched_sample(
                self.patch_at(address),
                frame_in,
                tones,
            )
    }

    /// The message says what can be done: its address and its patch name
    /// timeslots that exist.
    pub open spec fn message_is_valid(message: ProcessorMessage) -> bool {
        match message {
            ProcessorMessage::Patch(address, patch) => address.is_valid() && patch.is_valid(),
        }
    }

    /// Carries out a change to the matrix. A message that names a timeslot
    /// which does not exist changes nothing. Returns whether the change
    /// was made.
    pub fn process_message(&mut self, message: ProcessorMessage) -> (applied: bool)
        ensures
            applied == Self::message_is_valid(message),
            forall|other: TimeslotAddress|
                other.is_valid() ==> final(self).patch_at(other) == match message {
                    ProcessorMessage::Patch(address, patch) => if applied && other == address {
                        patch
                    } else {
                        old(self).patch_at(other)
                    },
                },
    {
        match message {
            ProcessorMessage::Patch(address, patch) => {
                if address.in_range() && patch.in_range() {
                    self.patching.set_timeslot(&address, patch);
                    true
                } else {
                    false
                }
            },
        }
    }

    /// The frame to send when `frame_in` was received and the tones stand
    /// at `tones`: every outgoing timeslot carries what its patch says.
    pub fn mix(patching: &Patching, frame_in: &Frame, tones: &ToneSamples) -> (frame_out: Frame)
        ensures
            forall|address: TimeslotAddress|
                address.is_valid() ==> #[trigger] frame_out.sample(address) == patched_sample(
                    patching.patch_at(address),
                    *frame_in,
                    *tones,
                ),
    {
        let mut frame_out = Frame::default();
        let mut out_channel: usize = 0;
        while out_channel < CHANNELS
            invariant
                out_channel <= CHANNELS,
                forall|address: TimeslotAddress|
                    address.is_valid() && address.channel < out_channel ==> #[trigger] frame_out.sample(address)
                        == patched_sample(patching.patch_at(address), *frame_in, *tones),
            decreases CHANNELS - out_channel,
        {
            let mut out_timeslot: usize = 0;
            while out_timeslot < TIMESLOTS_PER_CHANNEL
                invariant
                    out_channel < CHANNELS,
                    out_timeslot <= TIMESLOTS_PER_CHANNEL,
                    forall|address: TimeslotAddress|
                        address.is_valid() && (address.channel < out_channel || (address.channel == out_channel
                            && address.timeslot < out_timeslot)) ==> #[trigger] frame_out.sample(address)
                            == patched_sample(patching.patch_at(address), *frame_in, *tones),
                decreases TIMESLOTS_PER_CHANNEL - out_timeslot,
            {
                let timeslot_address = TimeslotAddress::new(out_channel, out_timeslot);
                let sample = match patching.timeslot(&timeslot_address) {
                    Patch::Idle => SAMPLE_IDLE,
                    Patch::Input(address) => frame_in.timeslot(&address),
                    Patch::Tone(source) => match source {
                        ToneSource::DialTonePrecise => tones.dial_tone_precise,
                        ToneSource::Ringback => tones.ringback,
                    },
                };
                let ghost before = frame_out;
                frame_out.set_timeslot(&timeslot_address, sample);
                proof {
                    assert forall|address: TimeslotAddress|
                        address.is_valid() && (address.channel < out_channel || (address.channel == out_channel
                            && address.timeslot < out_timeslot + 1)) implies #[trigger] frame_out.sample(address)
                        == patched_sample(patching.patch_at(address), *frame_in, *tones) by {
                        before.lemma_view_len();
                        assert(0 <= address.position() < FRAME_SAMPLES);
                        if address != timeslot_address {
                            assert(address.position() != timeslot_address.position());
                            assert(frame_out.sample(address) == before.sample(address));
                        }
                    }
                }
                out_timeslot += 1;
            }
            out_channel += 1;
        }
        frame_out
    }

    /// Moves every tone on by one sample, then makes the frame to send
    /// from `frame_in`. Every outgoing timeslot carries what its patch
    /// says, the tones being what the generators give after they moved on,
    /// or silence where there is no generator.
    pub fn process_frame(&mut self, frame_in: &Frame) -> (frame_out: Frame)
        ensures
            forall|address: TimeslotAddress|
                address.is_valid() ==> final(self).patch_at(address) == old(self).patch_at(address),
            exists|tones: ToneSamples| #[trigger] old(self).mixes(*frame_in, tones, frame_out),
    {
        // Update generator outputs.
        let mut dial_tone_precise: i16 = 0;
        match &mut self.tone_plant.dial_tone_precise {
            Some(generator) => {
                generator.advance();
                dial_tone_precise = generator.output();
            },
            None => {},
        }
        let mut ringback: i16 = 0;
        match &mut self.tone_plant.ringback {
            Some(generator) => {
                generator.advance();
                ringback = generator.output();
            },
            None => {},
        }
        let tones = ToneSamples {
            dial_tone_precise: encode_i14(dial_tone_precise),
            ringback: encode_i14(ringback),
        };
        // Compute output samples.
        let frame_out = Self::mix(&self.patching, frame_in, &tones);
        proof {
            assert(old(self).mixes(*frame_in, tones, frame_out));
        }
        frame_out
    }
}

/// A tone without a generator is silent: the code of silence is the code of
/// the sample zero.
pub proof fn lemma_silence_is_zero()
    ensures
        encode_i14_spec(0) == SAMPLE_IDLE,
{
}

} // verus!
