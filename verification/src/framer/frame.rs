//! Timeslot addresses and the fixed-layout telephony frame.

use vstd::prelude::*;

verus! {

/// One μ-law byte.
pub type Sample = u8;

/// Number of spans terminated by the adapter.
pub const CHANNELS: usize = 8;

/// Number of timeslots that each span carries per frame.
pub const TIMESLOTS_PER_CHANNEL: usize = 24;

/// Number of samples in a frame.
pub const FRAME_SAMPLES: usize = 192;

/// The sample that an idle timeslot carries.
pub const SAMPLE_IDLE: Sample = 0xff;

/// Names one timeslot of one span.
#[derive(Copy, Clone, PartialEq, Eq, Structural, Hash, Debug)]
pub struct TimeslotAddress {
    pub channel: usize,
    pub timeslot: usize,
}

impl TimeslotAddress {
    pub fn new(channel: usize, timeslot: usize) -> (address: Self)
        ensures
            address.channel == channel,
            address.timeslot == timeslot,
    {
        Self { channel, timeslot }
    }

    /// The address names a timeslot that exists.
    pub open spec fn is_valid(&self) -> bool {
        self.channel < CHANNELS && self.timeslot < TIMESLOTS_PER_CHANNEL
    }

    /// Position of the addressed sample in a frame: samples are laid out
    /// timeslot by timeslot, the eight spans of a timeslot side by side.
    pub open spec fn position(&self) -> int {
        self.timeslot * CHANNELS + self.channel
    }

    /// Tells whether the address names a timeslot that exists.
    pub fn in_range(&self) -> (valid: bool)
        ensures
            valid == self.is_valid(),
    {
        self.channel < CHANNELS && self.timeslot < TIMESLOTS_PER_CHANNEL
    }
}

/// 24 timeslots of 8 spans, one sample each.
#[derive(Copy, Clone, Debug)]
pub struct Frame {
    timeslot: [[Sample; CHANNELS]; TIMESLOTS_PER_CHANNEL],
}

impl View for Frame {
    type V = Seq<Sample>;

    /// The 192 samples in the order in which they travel.
    closed spec fn view(&self) -> Seq<Sample> {
        Seq::new(FRAME_SAMPLES as nat, |i: int| self.timeslot[i / CHANNELS as int][i % CHANNELS as int])
    }
}

impl Frame {
    /// The sample at `address`.
    pub open spec fn sample(&self, address: TimeslotAddress) -> Sample {
        self@[address.position()]
    }

    pub proof fn lemma_view_len(&self)
        ensures
            self@.len() == FRAME_SAMPLES,
    {
    }

    pub fn timeslot(&self, address: &TimeslotAddress) -> (sample: Sample)
        requires
            address.is_valid(),
        ensures
            sample == self.sample(*address),
    {
        self.timeslot[address.timeslot][address.channel]
    }

    /// Puts `sample` at `address`.
    pub fn set_timeslot(&mut self, address: &TimeslotAddress, sample: Sample)
        requires
            address.is_valid(),
        ensures
            final(self)@ == old(self)@.update(address.position(), sample),
    {
        self.timeslot[address.timeslot][address.channel] = sample;
    }

    pub fn timeslot_mut(&mut self, address: &TimeslotAddress) -> (sample: &mut Sample)
        requires
            address.is_valid(),
        ensures
            *sample == old(self).sample(*address),
            final(self)@ == old(self)@.update(address.position(), *final(sample)),
    {
        &mut self.timeslot[address.timeslot][address.channel]
    }
}

impl Frame {
    /// The frame that holds `samples`, which are in the order in which they
    /// travel.
    pub fn from_samples(samples: &[Sample]) -> (frame: Self)
        requires
            samples@.len() == FRAME_SAMPLES,
        ensures
            frame@ == samples@,
    {
        let mut frame = Self { timeslot: [[SAMPLE_IDLE; CHANNELS]; TIMESLOTS_PER_CHANNEL] };
        let mut i: usize = 0;
        while i < FRAME_SAMPLES
            invariant
                i <= FRAME_SAMPLES,
                samples@.len() == FRAME_SAMPLES,
                forall|j: int| 0 <= j < i ==> frame.timeslot[j / 8][j % 8] == samples@[j],
            decreases FRAME_SAMPLES - i,
        {
            frame.timeslot[i / CHANNELS][i % CHANNELS] = samples[i];
            i += 1;
        }
        assert(frame@ =~= samples@);
        frame
    }

    /// Appends the 192 samples to `out`, in the order in which they travel.
    pub fn append_samples(&self, out: &mut Vec<Sample>)
        ensures
            final(out)@ == old(out)@ + self@,
    {
        let mut i: usize = 0;
        while i < FRAME_SAMPLES
            invariant
                i <= FRAME_SAMPLES,
                out@ == old(out)@ + self@.subrange(0, i as int),
            decreases FRAME_SAMPLES - i,
        {
            out.push(self.timeslot[i / CHANNELS][i % CHANNELS]);
            i += 1;
            assert(self@.subrange(0, i as int) == self@.subrange(0, i as int - 1).push(self@[i as int - 1]));
        }
        assert(self@.subrange(0, FRAME_SAMPLES as int) == self@);
    }
}

impl Default for Frame {
    /// A frame of idle samples.
    fn default() -> (frame: Self)
        ensures
            frame@ == Seq::new(FRAME_SAMPLES as nat, |i: int| SAMPLE_IDLE),
    {
        Self { timeslot: [[SAMPLE_IDLE; CHANNELS]; TIMESLOTS_PER_CHANNEL] }
    }
}

/// A received frame with what the framer reported of it.
#[derive(Copy, Clone, Debug)]
pub struct InternalFrame {
    pub frame: Frame,
    /// The framer's running count of frames.
    pub frame_count: u32,
    /// Bit `c` is set when a multiframe of span `c` begins with this frame.
    pub mf_bits: u8,
}

} // verus!
