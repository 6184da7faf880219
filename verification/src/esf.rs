//! A decoder of the T1 extended superframe, bit by bit.
//!
//! An extended superframe is 24 frames of 193 bits. The first bit of each
//! frame is the framing bit; the other 192 are the payload, 24 timeslots of
//! 8 bits. The framing bits of the 24 frames carry three things in turn:
//! every other frame a bit of the facility data link, and of the frames
//! between in turn a bit of the checksum and a bit of the frame alignment
//! signal, which is `001011`.
//!
//! The decoder hunts for the alignment signal at every one of the 193
//! places at which the framing bit may be, and once it has found it, takes
//! the stream apart. It goes back to hunting when two of the last four
//! superframes failed their checksum.

use vstd::prelude::*;

verus! {

/// Number of bits in a frame.
pub const FRAME_LENGTH: usize = 193;

/// Number of frames in an extended superframe.
pub const ESF_FRAME_COUNT: usize = 24;

/// The places of the alignment signal among the last 24 framing bits.
pub const FRAMING_FAS_MASK: u32 = 0b0001_0001_0001_0001_0001_0001;

/// The alignment signal `001011` at those places, its last bit lowest.
pub const FRAMING_FAS_MATCH: u32 = 0b0000_0000_0001_0000_0001_0001;

/// Number of times that the alignment signal must be seen at a place before
/// the place is taken for the framing bit.
pub const FRAMING_FAS_MATCH_THRESHOLD: u8 = 100;

/// Number of superframes whose checksums are remembered.
pub const CRC_MEMORY: u8 = 4;

/// Number of failed checksums among those remembered at which the decoder
/// goes back to hunting.
pub const CRC_FAILURES_TOLERATED: u8 = 2;

/// The bit at place `index` of a run of bytes, the highest bit of each byte
/// first.
pub open spec fn bit_at(bytes: Seq<u8>, index: int) -> bool {
    (bytes[index / 8] >> ((7 - index % 8) as u8)) & 1u8 != 0
}

/// The bits of a run of bytes, one after the other.
pub struct Bits {
    vec: Vec<u8>,
    idx_now: usize,
    idx_end: usize,
}

impl Bits {
    /// The bits of `d`, from the highest bit of its first byte on.
    pub fn new(d: &[u8]) -> (bits: Bits)
        requires
            d@.len() * 8 <= usize::MAX,
        ensures
            bits.bytes() == d@,
            bits.position() == 0,
    {
        let mut vec: Vec<u8> = Vec::new();
        let mut i: usize = 0;
        while i < d.len()
            invariant
                i <= d@.len(),
                vec@ == d@.subrange(0, i as int),
            decreases d@.len() - i,
        {
            vec.push(d[i]);
            proof {
                assert(d@.subrange(0, i + 1) =~= d@.subrange(0, i as int).push(d@[i as int]));
            }
            i += 1;
        }
        proof {
            assert(d@.subrange(0, d@.len() as int) =~= d@);
        }
        Bits { vec, idx_now: 0, idx_end: d.len() * 8 }
    }

    #[verifier::type_invariant]
    spec fn within(&self) -> bool {
        self.idx_end == self.vec@.len() * 8 && self.idx_now <= self.idx_end
    }

    /// The bytes that hold the bits.
    pub closed spec fn bytes(&self) -> Seq<u8> {
        self.vec@
    }

    /// Number of bits that were handed out.
    pub closed spec fn position(&self) -> int {
        self.idx_now as int
    }

    /// Hands out the next bit, if one is left.
    pub fn next(&mut self) -> (bit: Option<bool>)
        ensures
            final(self).bytes() == old(self).bytes(),
            0 <= old(self).position() <= old(self).bytes().len() * 8,
            bit is Some <==> old(self).position() < old(self).bytes().len() * 8,
            bit is Some ==> bit->0 == bit_at(old(self).bytes(), old(self).position()) && final(self).position()
                == old(self).position() + 1,
            bit is None ==> final(self).position() == old(self).position(),
    {
        proof {
            use_type_invariant(&*self);
        }
        if self.idx_now == self.idx_end {
            None
        } else {
            let byte_idx = self.idx_now / 8;
            let bit_idx: u8 = (7 - self.idx_now % 8) as u8;
            let value = (self.vec[byte_idx] >> bit_idx) & 1u8;
            self.idx_now = self.idx_now + 1;
            Some(value != 0)
        }
    }
}

/// The bits `value` with `bit` shifted in from the right.
pub open spec fn shifted(value: u32, bit: bool) -> u32 {
    (value << 1u32) | (if bit { 1u32 } else { 0u32 })
}

/// The lowest `width` bits set.
pub open spec fn low_bits(width: usize) -> u32 {
    ((1u32 << (width as u32)) - 1) as u32
}

proof fn lemma_low_bits(width: u32, value: u32)
    by (bit_vector)
    requires
        width < 32,
    ensures
        1 <= (1u32 << width),
        value & (((1u32 << width) - 1) as u32) <= ((1u32 << width) - 1) as u32,
        width == 6 ==> (1u32 << width) == 64,
        width == 12 ==> (1u32 << width) == 4096,
        width == 5 ==> (1u32 << width) == 32,
{
}

/// Keeps the last bits of a stream: as many as its width.
#[derive(Copy, Clone, Debug)]
pub struct BitAccumulator {
    value: u32,
    width: usize,
}

impl BitAccumulator {
    /// An accumulator of `width` bits, all zero.
    pub fn new(width: usize) -> (accumulator: BitAccumulator)
        requires
            width < 32,
        ensures
            accumulator.bits() == 0,
            accumulator.width() == width,
    {
        BitAccumulator { value: 0, width }
    }

    #[verifier::type_invariant]
    spec fn fits(&self) -> bool {
        self.width < 32
    }

    /// All bits taken in, as far as 32 bits hold them.
    pub closed spec fn bits(&self) -> u32 {
        self.value
    }

    /// Number of bits that count.
    pub closed spec fn width(&self) -> usize {
        self.width
    }

    /// Takes in one bit.
    pub fn update(&mut self, bit: bool)
        ensures
            final(self).width() == old(self).width(),
            final(self).bits() == shifted(old(self).bits(), bit),
    {
        proof {
            use_type_invariant(&*self);
        }
        let value = (self.value << 1u32) | (if bit { 1u32 } else { 0u32 });
        *self = BitAccumulator { value, width: self.width };
    }

    /// The bits that count, all set.
    pub fn mask(&self) -> (mask: u32)
        ensures
            self.width() < 32,
            mask == low_bits(self.width()),
    {
        proof {
            use_type_invariant(self);
            lemma_low_bits(self.width as u32, 0);
        }
        (1u32 << (self.width as u32)) - 1
    }

    /// The last bits taken in, as many as count.
    pub fn value(&self) -> (value: u32)
        ensures
            value == self.bits() & low_bits(self.width()),
            value <= low_bits(self.width()),
    {
        proof {
            use_type_invariant(self);
            lemma_low_bits(self.width as u32, self.value);
        }
        self.value & self.mask()
    }
}

/// The six-bit remainder `remainder` after one more bit: the bit is added
/// to the highest place, the whole is multiplied by x, and x^6 is replaced
/// by x + 1.
pub open spec fn crc6_step(remainder: u32, bit: bool) -> u32 {
    let fed = remainder ^ (if bit { 32u32 } else { 0u32 });
    if fed & 32u32 != 0 {
        ((fed << 1u32) & 63u32) ^ 3u32
    } else {
        (fed << 1u32) & 63u32
    }
}

/// The remainder of a run of bits, begun at zero.
pub open spec fn crc6_of(bits: Seq<bool>) -> u32
    decreases bits.len(),
{
    if bits.len() == 0 {
        0
    } else {
        crc6_step(crc6_of(bits.drop_last()), bits.last())
    }
}

proof fn lemma_crc6(remainder: u32, bit: bool)
    by (bit_vector)
    ensures
        ({
            let top = 1u32 << 5u32;
            let fed = remainder ^ (if bit { top } else { 0u32 });
            let next = if fed & top != 0 {
                (fed << 1u32) ^ 3u32
            } else {
                fed << 1u32
            };
            let low = remainder & 63u32;
            let low_fed = low ^ (if bit { 32u32 } else { 0u32 });
            next & 63u32 == (if low_fed & 32u32 != 0 {
                ((low_fed << 1u32) & 63u32) ^ 3u32
            } else {
                (low_fed << 1u32) & 63u32
            })
        }),
        (remainder & 63u32) & 63u32 == remainder & 63u32,
        0u32 & 63u32 == 0u32,
        ((1u32 << 6u32) - 1) as u32 == 63u32,
        (1u32 << 5u32) == 32u32,
{
}

/// A cyclic redundancy check of six bits with the polynomial x^6 + x + 1.
#[derive(Copy, Clone, Debug)]
pub struct CRC {
    remainder: u32,
}

impl CRC {
    /// The polynomial without its highest term.
    pub const POLY: u32 = 0x03;

    /// Number of bits of the remainder.
    pub const WIDTH: usize = 6;

    /// A check that has seen nothing.
    pub fn new_crc6() -> (crc: CRC)
        ensures
            crc.remainder() == 0,
    {
        proof {
            lemma_crc6(0, false);
        }
        CRC { remainder: 0 }
    }

    /// The remainder of all that was taken in: six bits.
    pub closed spec fn remainder(&self) -> u32 {
        self.remainder & 63u32
    }

    /// Begins anew.
    pub fn reset(&mut self)
        ensures
            final(self).remainder() == 0,
    {
        proof {
            lemma_crc6(0, false);
        }
        self.remainder = 0;
    }

    /// The highest place of the remainder.
    pub fn top_bit(&self) -> (top: u32)
        ensures
            top == 32,
    {
        proof {
            lemma_crc6(0, false);
        }
        1u32 << 5u32
    }

    /// Takes in one bit.
    pub fn update(&mut self, bit: bool)
        ensures
            final(self).remainder() == crc6_step(old(self).remainder(), bit),
    {
        proof {
            lemma_crc6(self.remainder, bit);
        }
        let top = 1u32 << 5u32;
        let fed = self.remainder ^ (if bit { top } else { 0u32 });
        let do_poly_div = fed & top != 0;
        let mut remainder = fed << 1u32;
        if do_poly_div {
            remainder = remainder ^ 3u32;
        }
        self.remainder = remainder;
    }

    /// The remainder.
    pub fn finalize(&self) -> (remainder: u32)
        ensures
            remainder == self.remainder(),
            remainder < 64,
    {
        proof {
            lemma_crc6(self.remainder, false);
            lemma_low_bits(6, self.remainder);
        }
        self.remainder & (((1u32 << 6u32) - 1) as u32)
    }
}

/// Takes the checksum of a run of bits.
pub fn crc6(bits: &Vec<bool>) -> (remainder: u32)
    ensures
        remainder == crc6_of(bits@),
{
    let mut crc = CRC::new_crc6();
    let mut i: usize = 0;
    while i < bits.len()
        invariant
            i <= bits@.len(),
            crc.remainder() == crc6_of(bits@.subrange(0, i as int)),
        decreases bits@.len() - i,
    {
        crc.update(bits[i]);
        proof {
            assert(bits@.subrange(0, i + 1).drop_last() =~= bits@.subrange(0, i as int));
        }
        i += 1;
    }
    proof {
        assert(bits@.subrange(0, bits@.len() as int) =~= bits@);
    }
    crc.finalize()
}

/// What a superframe has brought, told when the next begins.
#[derive(Copy, Clone, Debug, PartialEq, Eq, Structural)]
pub struct SuperframeReport {
    /// The last six bits of the alignment signal.
    pub fas: u32,
    /// The checksum received, six bits.
    pub crc: u32,
    /// The checksum that was to be received.
    pub crc_expected: u32,
    /// Whether the two are the same.
    pub crc_ok: bool,
    /// The last twelve bits of the data link.
    pub dl: u32,
}

/// What an [`ExtendedSuperFrameDemux`] holds.
pub struct Demultiplexed {
    /// Place of the next bit in its frame: 0 is the framing bit.
    pub bit_n: int,
    /// Place of the frame in its superframe.
    pub frame_n: int,
    pub fas: u32,
    pub crc: u32,
    pub dl: u32,
    /// The last eight bits of each timeslot.
    pub channel: Seq<u8>,
    /// The checksum of the superframe so far.
    pub crc6: u32,
    /// The checksum of the superframe before.
    pub crc_expected: u32,
}

/// The timeslot to which the payload bit at place `bit_n` belongs.
pub open spec fn timeslot_of(bit_n: int) -> int {
    (bit_n - 1) / 8
}

/// The last eight bits `register` with `bit` shifted in.
pub open spec fn octet_with(register: u8, bit: bool) -> u8 {
    (register << 1u8) | (if bit { 1u8 } else { 0u8 })
}

impl Demultiplexed {
    /// The places are within a frame and within a superframe.
    pub open spec fn in_step(self) -> bool {
        0 <= self.bit_n < FRAME_LENGTH && 0 <= self.frame_n < ESF_FRAME_COUNT && self.channel.len() == 24
    }

    /// The next bit is the framing bit with which a superframe begins.
    pub open spec fn superframe_begins(self) -> bool {
        self.bit_n == 0 && self.frame_n == 0
    }

    /// What is told of the superframe that has ended, when the next
    /// begins.
    pub open spec fn report(self) -> SuperframeReport {
        SuperframeReport {
            fas: self.fas & low_bits(6),
            crc: self.crc & low_bits(6),
            crc_expected: self.crc_expected,
            crc_ok: self.crc & low_bits(6) == self.crc_expected,
            dl: self.dl & low_bits(12),
        }
    }

    /// What is held after one more bit. When a superframe begins, the
    /// checksum of the one before becomes the one to be received, and the
    /// checksum begins anew. A framing bit goes to the data link in every
    /// other frame, and in the frames between in turn to the checksum
    /// received and to the alignment signal; a payload bit goes to its
    /// timeslot. Every bit goes into the checksum, the framing bit as a
    /// one. Then the places move on.
    pub open spec fn with_bit(self, bit: bool) -> Demultiplexed {
        let f_bit = self.bit_n == 0;
        let begun = self.superframe_begins();
        let crc6 = if begun {
            0u32
        } else {
            self.crc6
        };
        Demultiplexed {
            bit_n: if self.bit_n + 1 == FRAME_LENGTH {
                0
            } else {
                self.bit_n + 1
            },
            frame_n: if self.bit_n + 1 == FRAME_LENGTH {
                if self.frame_n + 1 == ESF_FRAME_COUNT {
                    0
                } else {
                    self.frame_n + 1
                }
            } else {
                self.frame_n
            },
            dl: if f_bit && self.frame_n % 2 == 0 {
                shifted(self.dl, bit)
            } else {
                self.dl
            },
            crc: if f_bit && self.frame_n % 4 == 1 {
                shifted(self.crc, bit)
            } else {
                self.crc
            },
            fas: if f_bit && self.frame_n % 4 == 3 {
                shifted(self.fas, bit)
            } else {
                self.fas
            },
            channel: if f_bit {
                self.channel
            } else {
                self.channel.update(
                    timeslot_of(self.bit_n),
                    octet_with(self.channel[timeslot_of(self.bit_n)], bit),
                )
            },
            crc6: crc6_step(crc6, bit || f_bit),
            crc_expected: if begun {
                self.crc6
            } else {
                self.crc_expected
            },
        }
    }
}

/// Takes a stream of frames apart, once the place of the framing bit is
/// known.
#[derive(Copy, Clone, Debug)]
pub struct ExtendedSuperFrameDemux {
    bit_n: usize,
    frame_n: usize,
    fas: BitAccumulator,
    crc: BitAccumulator,
    dl: BitAccumulator,
    channel: [u8; 24],
    crc6: CRC,
    crc_expected: u32,
}

impl View for ExtendedSuperFrameDemux {
    type V = Demultiplexed;

    closed spec fn view(&self) -> Demultiplexed {
        Demultiplexed {
            bit_n: self.bit_n as int,
            frame_n: self.frame_n as int,
            fas: self.fas.bits(),
            crc: self.crc.bits(),
            dl: self.dl.bits(),
            channel: self.channel@,
            crc6: self.crc6.remainder(),
            crc_expected: self.crc_expected,
        }
    }
}

impl ExtendedSuperFrameDemux {
    /// The widths of the three streams of framing bits are what they
    /// should be, and the places are within a frame and a superframe.
    pub closed spec fn well_formed(&self) -> bool {
        &&& self.fas.width() == 6
        &&& self.crc.width() == 6
        &&& self.dl.width() == 12
        &&& self@.in_step()
    }

    /// A demultiplexer at the beginning of a superframe.
    pub fn new() -> (demux: ExtendedSuperFrameDemux)
        ensures
            demux.well_formed(),
            demux@ == (Demultiplexed {
                bit_n: 0,
                frame_n: 0,
                fas: 0,
                crc: 0,
                dl: 0,
                channel: Seq::new(24, |i: int| 0u8),
                crc6: 0,
                crc_expected: 0,
            }),
    {
        let demux = ExtendedSuperFrameDemux {
            bit_n: 0,
            frame_n: 0,
            fas: BitAccumulator::new(6),
            crc: BitAccumulator::new(6),
            dl: BitAccumulator::new(12),
            channel: [0u8; 24],
            crc6: CRC::new_crc6(),
            crc_expected: 0u32,
        };
        assert(demux@.channel =~= Seq::new(24, |i: int| 0u8));
        demux
    }

    /// Sets the places of the next bit.
    pub fn synchronize(&mut self, bit_n: usize, frame_n: usize)
        requires
            old(self).well_formed(),
            bit_n < FRAME_LENGTH,
            frame_n < ESF_FRAME_COUNT,
        ensures
            final(self).well_formed(),
            final(self)@ == (Demultiplexed { bit_n: bit_n as int, frame_n: frame_n as int, ..old(self)@ }),
    {
        self.bit_n = bit_n;
        self.frame_n = frame_n;
    }

    /// The last eight bits of timeslot `timeslot`.
    pub fn channel(&self, timeslot: usize) -> (octet: u8)
        requires
            self.well_formed(),
            timeslot < 24,
        ensures
            octet == self@.channel[timeslot as int],
    {
        self.channel[timeslot]
    }

    /// Takes in one bit. Returns what the superframe before has brought,
    /// if a superframe begins with this bit.
    pub fn update(&mut self, bit: bool) -> (report: Option<SuperframeReport>)
        requires
            old(self).well_formed(),
        ensures
            final(self).well_formed(),
            final(self)@ == old(self)@.with_bit(bit),
            report == if old(self)@.superframe_begins() {
                Some(old(self)@.report())
            } else {
                None
            },
    {
        let f_bit = self.bit_n == 0;
        let mut report: Option<SuperframeReport> = None;

        if f_bit {
            if self.frame_n == 0 {
                let crc = self.crc.value();
                let crc_ok = crc == self.crc_expected;
                report = Some(
                    SuperframeReport {
                        fas: self.fas.value(),
                        crc,
                        crc_expected: self.crc_expected,
                        crc_ok,
                        dl: self.dl.value(),
                    },
                );
                self.crc_expected = self.crc6.finalize();
                self.crc6.reset();
            }
            // Handle F bit

            if (self.frame_n % 2) == 0 {
                self.dl.update(bit);
            } else {
                if (self.frame_n % 4) == 3 {
                    self.fas.update(bit);
                }
                if (self.frame_n % 4) == 1 {
                    self.crc.update(bit);
                }
            }
        } else {
            let channel_n = (self.bit_n - 1) / 8;
            let register = self.channel[channel_n];
            self.channel[channel_n] = (register << 1u8) | (if bit { 1u8 } else { 0u8 });
        }

        let crc_bit = bit || f_bit;
        self.crc6.update(crc_bit);

        self.bit_n += 1;
        if self.bit_n == FRAME_LENGTH {
            self.bit_n = 0;
            self.frame_n += 1;
            if self.frame_n == ESF_FRAME_COUNT {
                self.frame_n = 0;
            }
        }
        proof {
            assert(self@.channel =~= old(self)@.with_bit(bit).channel);
        }
        report
    }
}

/// What an [`ExtendedSuperFrameSync`] holds.
pub struct Hunting {
    /// The place, among the 193 of a frame, of the next bit.
    pub bit_n: int,
    /// For each place, the bits seen there, the last one lowest.
    pub bits: Seq<u32>,
    /// For each place, how often the alignment signal was seen there.
    pub stats: Seq<u8>,
}

/// The last 24 bits seen at a place show the alignment signal.
pub open spec fn shows_alignment(window: u32) -> bool {
    window & FRAMING_FAS_MASK == FRAMING_FAS_MATCH
}

/// A count that stops at its largest value.
pub open spec fn count_up(count: u8) -> u8 {
    if count == u8::MAX {
        count
    } else {
        (count + 1) as u8
    }
}

impl Hunting {
    /// The place is one of the 193, and something is held for each.
    pub open spec fn in_step(self) -> bool {
        0 <= self.bit_n < FRAME_LENGTH && self.bits.len() == FRAME_LENGTH && self.stats.len() == FRAME_LENGTH
    }

    /// The bits seen at the place of the next bit, with that bit.
    pub open spec fn window_with(self, bit: bool) -> u32 {
        shifted(self.bits[self.bit_n], bit)
    }

    /// With the next bit, the alignment signal is seen at its place for
    /// the hundredth time.
    pub open spec fn locks_with(self, bit: bool) -> bool {
        shows_alignment(self.window_with(bit)) && count_up(self.stats[self.bit_n])
            == FRAMING_FAS_MATCH_THRESHOLD
    }

    /// What is held after one more bit: the bit is with the bits of its
    /// place, the place is counted if it shows the alignment signal now,
    /// and the next place is the one after, around the frame.
    pub open spec fn with_bit(self, bit: bool) -> Hunting {
        Hunting {
            bit_n: if self.bit_n + 1 == FRAME_LENGTH {
                0
            } else {
                self.bit_n + 1
            },
            bits: self.bits.update(self.bit_n, self.window_with(bit)),
            stats: if shows_alignment(self.window_with(bit)) {
                self.stats.update(self.bit_n, count_up(self.stats[self.bit_n]))
            } else {
                self.stats
            },
        }
    }
}

/// Hunts for the place of the framing bit.
#[derive(Copy, Clone, Debug)]
pub struct ExtendedSuperFrameSync {
    bit_n: usize,
    bits: [u32; 193],
    stats: [u8; 193],
}

impl View for ExtendedSuperFrameSync {
    type V = Hunting;

    closed spec fn view(&self) -> Hunting {
        Hunting { bit_n: self.bit_n as int, bits: self.bits@, stats: self.stats@ }
    }
}

impl ExtendedSuperFrameSync {
    /// A hunt that has seen nothing.
    pub fn new() -> (sync: ExtendedSuperFrameSync)
        ensures
            sync@.in_step(),
            sync@ == (Hunting {
                bit_n: 0,
                bits: Seq::new(193, |i: int| 0u32),
                stats: Seq::new(193, |i: int| 0u8),
            }),
    {
        let sync = ExtendedSuperFrameSync { bit_n: 0, bits: [0u32; 193], stats: [0u8; 193] };
        assert(sync@.bits =~= Seq::new(193, |i: int| 0u32));
        assert(sync@.stats =~= Seq::new(193, |i: int| 0u8));
        sync
    }

    /// Takes in one bit. Returns whether the place of this bit is now taken
    /// for the place of the framing bit.
    pub fn update(&mut self, bit: bool) -> (locked: bool)
        requires
            old(self)@.in_step(),
        ensures
            final(self)@.in_step(),
            final(self)@ == old(self)@.with_bit(bit),
            locked == old(self)@.locks_with(bit),
    {
        let place = self.bit_n;
        let window = (self.bits[place] << 1u32) | (if bit { 1u32 } else { 0u32 });
        self.bits[place] = window;
        let mut locked = false;
        if window & FRAMING_FAS_MASK == FRAMING_FAS_MATCH {
            let count = self.stats[place].saturating_add(1);
            self.stats[place] = count;
            if count == FRAMING_FAS_MATCH_THRESHOLD {
                locked = true;
            }
        }
        self.bit_n = if place + 1 == FRAME_LENGTH {
            0
        } else {
            place + 1
        };
        proof {
            assert(self@.bits =~= old(self)@.with_bit(bit).bits);
            assert(self@.stats =~= old(self)@.with_bit(bit).stats);
        }
        locked
    }
}

/// What the decoder is doing.
#[derive(Copy, Clone, Debug)]
pub enum State {
    /// Hunting for the place of the framing bit.
    Sync(ExtendedSuperFrameSync),
    /// Taking the stream apart. The number tells, one bit for each of the
    /// last superframes, the latest lowest, whose checksum failed.
    Up(ExtendedSuperFrameDemux, u8),
}

/// What a bit has brought about.
#[derive(Copy, Clone, Debug, PartialEq, Eq, Structural)]
pub enum Event {
    /// Nothing to tell.
    Nothing,
    /// The place of the framing bit was found.
    Locked,
    /// A superframe has ended.
    Superframe(SuperframeReport),
    /// A superframe has ended, and with it too many checksums have failed:
    /// the hunt begins anew.
    Lost(SuperframeReport),
}

/// The memory of failed checksums `failures` with one more superframe.
pub open spec fn failures_with(failures: u8, crc_ok: bool) -> u8 {
    ((failures << 1u8) | (if crc_ok { 0u8 } else { 1u8 })) & 0x0fu8
}

/// Number of failed checksums that the memory holds.
pub open spec fn failures_held(failures: u8) -> int {
    (failures & 1u8) + ((failures >> 1u8) & 1u8) + ((failures >> 2u8) & 1u8) + ((failures >> 3u8) & 1u8)
}

proof fn lemma_failures(failures: u8)
    by (bit_vector)
    ensures
        (failures & 1u8) <= 1,
        ((failures >> 1u8) & 1u8) <= 1,
        ((failures >> 2u8) & 1u8) <= 1,
        ((failures >> 3u8) & 1u8) <= 1,
{
}

impl State {
    /// The decoder can go on from this state.
    pub open spec fn well_formed(self) -> bool {
        match self {
            State::Sync(sync) => sync@.in_step(),
            State::Up(demux, _) => demux.well_formed(),
        }
    }

    /// The state in which a decoder begins: hunting, nothing seen.
    pub fn new() -> (state: State)
        ensures
            state.well_formed(),
            state matches State::Sync(sync) && sync@ == ExtendedSuperFrameSync::new_spec(),
    {
        State::Sync(ExtendedSuperFrameSync::new())
    }

    /// Takes in one bit. While hunting, the bit goes to the hunt; when the
    /// hunt finds with it the place of the framing bit, the stream is taken
    /// apart from this bit on, which is the framing bit of the last frame
    /// of a superframe. While the stream is taken apart, the bit goes to
    /// the demultiplexer; when a superframe ends, its checksum is
    /// remembered, and if two of the last four have failed, the hunt
    /// begins anew with this bit.
    pub fn update(self, bit: bool) -> (next: (State, Event))
        requires
            self.well_formed(),
        ensures
            next.0.well_formed(),
            match self {
                State::Sync(sync) => if sync@.locks_with(bit) {
                    &&& next.1 == Event::Locked
                    &&& next.0 matches State::Up(demux, failures)
                    &&& failures == 0
                    &&& demux@ == (Demultiplexed {
                        bit_n: 0,
                        frame_n: ESF_FRAME_COUNT - 1,
                        ..ExtendedSuperFrameDemux::new_spec()
                    }).with_bit(bit)
                } else {
                    &&& next.1 == Event::Nothing
                    &&& next.0 matches State::Sync(hunt)
                    &&& hunt@ == sync@.with_bit(bit)
                },
                State::Up(demux, failures) => if !demux@.superframe_begins() {
                    &&& next.1 == Event::Nothing
                    &&& next.0 matches State::Up(after, memory)
                    &&& after@ == demux@.with_bit(bit)
                    &&& memory == failures
                } else if failures_held(failures_with(failures, demux@.report().crc_ok)) >= CRC_FAILURES_TOLERATED {
                    &&& next.1 == Event::Lost(demux@.report())
                    &&& next.0 matches State::Sync(hunt)
                    &&& hunt@ == ExtendedSuperFrameSync::new_spec().with_bit(bit)
                } else {
                    &&& next.1 == Event::Superframe(demux@.report())
                    &&& next.0 matches State::Up(after, memory)
                    &&& after@ == demux@.with_bit(bit)
                    &&& memory == failures_with(failures, demux@.report().crc_ok)
                },
            },
    {
        match self {
            State::Sync(mut sync) => {
                if sync.update(bit) {
                    let mut demux = ExtendedSuperFrameDemux::new();
                    demux.synchronize(0, ESF_FRAME_COUNT - 1);
                    demux.update(bit);
                    (State::Up(demux, 0), Event::Locked)
                } else {
                    (State::Sync(sync), Event::Nothing)
                }
            },
            State::Up(mut demux, failures) => {
                match demux.update(bit) {
                    None => (State::Up(demux, failures), Event::Nothing),
                    Some(report) => {
                        let memory = ((failures << 1u8) | (if report.crc_ok { 0u8 } else { 1u8 })) & 0x0fu8;
                        proof {
                            lemma_failures(memory);
                        }
                        let held = (memory & 1u8) + ((memory >> 1u8) & 1u8) + ((memory >> 2u8) & 1u8) + ((memory
                            >> 3u8) & 1u8);
                        if held >= CRC_FAILURES_TOLERATED {
                            let mut sync = ExtendedSuperFrameSync::new();
                            sync.update(bit);
                            (State::Sync(sync), Event::Lost(report))
                        } else {
                            (State::Up(demux, memory), Event::Superframe(report))
                        }
                    },
                }
            },
        }
    }
}

impl ExtendedSuperFrameSync {
    /// What a hunt holds that has seen nothing.
    pub open spec fn new_spec() -> Hunting {
        Hunting { bit_n: 0, bits: Seq::new(193, |i: int| 0u32), stats: Seq::new(193, |i: int| 0u8) }
    }
}

impl ExtendedSuperFrameDemux {
    /// What a demultiplexer holds at the beginning of a superframe.
    pub open spec fn new_spec() -> Demultiplexed {
        Demultiplexed {
            bit_n: 0,
            frame_n: 0,
            fas: 0,
            crc: 0,
            dl: 0,
            channel: Seq::new(24, |i: int| 0u8),
            crc6: 0,
            crc_expected: 0,
        }
    }
}

/// A bit touches only its own place: the bits and the count of every other
/// place stay as they were. And a place is taken for the framing bit only
/// while it shows the alignment signal, at the moment when its count comes
/// to the threshold.
pub proof fn lemma_bit_touches_only_its_place(hunting: Hunting, bit: bool, other: int)
    requires
        hunting.in_step(),
        0 <= other < FRAME_LENGTH,
        other != hunting.bit_n,
    ensures
        hunting.locks_with(bit) ==> shows_alignment(hunting.with_bit(bit).bits[hunting.bit_n]),
        hunting.locks_with(bit) ==> hunting.with_bit(bit).stats[hunting.bit_n] == FRAMING_FAS_MATCH_THRESHOLD,
        hunting.with_bit(bit).stats[other] == hunting.stats[other],
        hunting.with_bit(bit).bits[other] == hunting.bits[other],
        hunting.with_bit(bit).in_step(),
{
}

} // verus!
