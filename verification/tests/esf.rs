use tedium::esf::{
    crc6, BitAccumulator, Bits, Event, ExtendedSuperFrameDemux, ExtendedSuperFrameSync, State,
    SuperframeReport, CRC, ESF_FRAME_COUNT, FRAME_LENGTH, FRAMING_FAS_MASK, FRAMING_FAS_MATCH,
    FRAMING_FAS_MATCH_THRESHOLD,
};

const SUPERFRAME_BITS: usize = 24 * 193;
const FAS: [bool; 6] = [false, false, true, false, true, true];

/// The remainder of the bits, followed by six zeros, divided by
/// x^6 + x + 1.
fn crc6_by_division(bits: &[bool]) -> u32 {
    let mut register = 0u32;
    for bit in bits.iter().copied().chain(std::iter::repeat(false).take(6)) {
        register = (register << 1) | bit as u32;
        if register & 0x40 != 0 {
            register ^= 0x43;
        }
    }
    register
}

/// The checksum of a superframe: every framing bit counts as a one.
fn checksum(superframe: &[bool]) -> u32 {
    let mut bits = superframe.to_vec();
    for frame in 0..24 {
        bits[frame * 193] = true;
    }
    crc6_by_division(&bits)
}

/// The bits of one superframe: every sample is `sample(frame, timeslot)`,
/// the data link carries ones, and the checksum bits carry `crc`.
fn superframe(sample: &dyn Fn(usize, usize) -> u8, crc: u32) -> Vec<bool> {
    let mut bits = Vec::with_capacity(SUPERFRAME_BITS);
    for frame in 0..24 {
        bits.push(if frame % 2 == 0 {
            true
        } else if frame % 4 == 1 {
            (crc >> (5 - frame / 4)) & 1 != 0
        } else {
            FAS[frame / 4]
        });
        for timeslot in 0..24 {
            let byte = sample(frame, timeslot);
            for k in 0..8 {
                bits.push((byte >> (7 - k)) & 1 != 0);
            }
        }
    }
    bits
}

/// A stream of superframes, each with the checksum of the one before. The
/// bit `flip.1` of the superframe `flip.0` is flipped on the way, for every
/// `flip` in `flips`.
fn stream(count: usize, sample: &dyn Fn(usize, usize) -> u8, flips: &[(usize, usize)]) -> Vec<bool> {
    let mut bits = Vec::with_capacity(count * SUPERFRAME_BITS);
    let mut crc = 0;
    for n in 0..count {
        let mut sent = superframe(sample, crc);
        crc = checksum(&sent);
        for &(which, bit) in flips {
            if which == n {
                sent[bit] = !sent[bit];
            }
        }
        bits.extend(sent);
    }
    bits
}

#[test]
fn constants_of_the_extended_superframe() {
    assert_eq!(FRAME_LENGTH, 193);
    assert_eq!(ESF_FRAME_COUNT, 24);
    assert_eq!(FRAMING_FAS_MASK, 0x11_1111);
    assert_eq!(FRAMING_FAS_MATCH, 0x00_1011);
    assert_eq!(FRAMING_FAS_MATCH_THRESHOLD, 100);
    // The alignment signal, its last bit lowest, one bit in every fourth place.
    let mut spread = 0u32;
    for bit in FAS {
        spread = (spread << 4) | bit as u32;
    }
    assert_eq!(spread, FRAMING_FAS_MATCH);
}

#[test]
fn bits_come_highest_first() {
    let mut bits = Bits::new(&[0xa5, 0x01]);
    let mut seen = Vec::new();
    while let Some(bit) = bits.next() {
        seen.push(bit as u8);
    }
    assert_eq!(seen, vec![1, 0, 1, 0, 0, 1, 0, 1, 0, 0, 0, 0, 0, 0, 0, 1]);
    assert_eq!(bits.next(), None);
    assert_eq!(Bits::new(&[]).next(), None);
}

#[test]
fn accumulator_keeps_the_last_bits() {
    let mut accumulator = BitAccumulator::new(6);
    assert_eq!(accumulator.mask(), 0b11_1111);
    assert_eq!(accumulator.value(), 0);
    for bit in [true, false, true, true] {
        accumulator.update(bit);
    }
    assert_eq!(accumulator.value(), 0b1011);
    for bit in [false, false, true, false, true, true, true] {
        accumulator.update(bit);
    }
    assert_eq!(accumulator.value(), 0b01_0111);
    let mut wide = BitAccumulator::new(31);
    assert_eq!(wide.mask(), 0x7fff_ffff);
    for _ in 0..40 {
        wide.update(true);
    }
    assert_eq!(wide.value(), 0x7fff_ffff);
    let none = BitAccumulator::new(0);
    assert_eq!(none.mask(), 0);
    assert_eq!(none.value(), 0);
}

#[test]
fn checksum_of_short_runs() {
    assert_eq!(crc6(&vec![]), 0);
    assert_eq!(crc6(&vec![false]), 0);
    assert_eq!(crc6(&vec![false; 100]), 0);
    // x^6 = x + 1
    assert_eq!(crc6(&vec![true]), 0b00_0011);
    // x^7 = x^2 + x
    assert_eq!(crc6(&vec![true, false]), 0b00_0110);
    // x^7 + x^6 = x^2 + 1
    assert_eq!(crc6(&vec![true, true]), 0b00_0101);
    // x^11 = x^6 + x^5 = x^5 + x + 1
    assert_eq!(crc6(&vec![true, false, false, false, false, false]), 0b10_0011);
}

#[test]
fn checksum_is_the_remainder_of_the_division() {
    let mut seed = 0x1234_5678u32;
    for length in 0..200usize {
        let bits: Vec<bool> = (0..length)
            .map(|_| {
                seed = seed.wrapping_mul(1_664_525).wrapping_add(1_013_904_223);
                seed >> 31 != 0
            })
            .collect();
        assert_eq!(crc6(&bits), crc6_by_division(&bits), "length {}", length);
    }
}

#[test]
fn checksum_bit_by_bit() {
    let mut crc = CRC::new_crc6();
    assert_eq!(CRC::POLY, 0x03);
    assert_eq!(CRC::WIDTH, 6);
    assert_eq!(crc.top_bit(), 0b10_0000);
    assert_eq!(crc.finalize(), 0);
    let bits = [true, true, false, true, false, false, false, true, true];
    for (n, &bit) in bits.iter().enumerate() {
        crc.update(bit);
        assert_eq!(crc.finalize(), crc6_by_division(&bits[..=n]));
    }
    crc.reset();
    assert_eq!(crc.finalize(), 0);
    for _ in 0..100 {
        crc.update(true);
        assert!(crc.finalize() < 64);
    }
}

#[test]
fn demultiplexer_takes_a_stream_apart() {
    let sample = |frame: usize, timeslot: usize| (timeslot * 8 + frame * 3) as u8;
    let crc = checksum(&superframe(&sample, 0));
    assert_eq!(crc, checksum(&superframe(&sample, 0x3f)));
    let bits = stream(5, &sample, &[(1, 500)]);
    let mut demux = ExtendedSuperFrameDemux::new();
    let mut reports = Vec::new();
    for (n, &bit) in bits.iter().enumerate() {
        if let Some(report) = demux.update(bit) {
            reports.push((n, report));
        }
        if n % 193 == 192 {
            let frame = (n / 193) % 24;
            for timeslot in 0..24 {
                let sent = sample(frame, timeslot);
                let flipped = n / SUPERFRAME_BITS == 1 && frame == 2 && timeslot == (500 - 2 * 193 - 1) / 8;
                if !flipped {
                    assert_eq!(demux.channel(timeslot), sent);
                } else {
                    assert_eq!((demux.channel(timeslot) ^ sent).count_ones(), 1);
                }
            }
        }
    }
    let fas = 0b00_1011;
    let dl = 0xfff;
    assert_eq!(
        reports,
        vec![
            (0, SuperframeReport { fas: 0, crc: 0, crc_expected: 0, crc_ok: true, dl: 0 }),
            (SUPERFRAME_BITS, SuperframeReport { fas, crc: 0, crc_expected: 0, crc_ok: true, dl }),
            (2 * SUPERFRAME_BITS, SuperframeReport { fas, crc, crc_expected: crc, crc_ok: true, dl }),
            (
                3 * SUPERFRAME_BITS,
                SuperframeReport {
                    fas,
                    crc,
                    crc_expected: reports[3].1.crc_expected,
                    crc_ok: false,
                    dl
                }
            ),
            (4 * SUPERFRAME_BITS, SuperframeReport { fas, crc, crc_expected: crc, crc_ok: true, dl }),
        ]
    );
    assert_ne!(reports[3].1.crc_expected, crc);
}

#[test]
fn demultiplexer_can_be_set_to_any_place() {
    let mut demux = ExtendedSuperFrameDemux::new();
    demux.synchronize(192, 23);
    assert_eq!(demux.update(true), None);
    assert_eq!(demux.channel(23), 1);
    // The next bit begins a superframe.
    assert!(demux.update(true).is_some());
    demux.synchronize(0, 1);
    assert_eq!(demux.update(true), None);
    demux.synchronize(0, 0);
    let report = demux.update(false).unwrap();
    assert_eq!(report.crc, 1);
    assert_eq!(report.dl, 1);
}

#[test]
fn hunt_finds_the_framing_bit_after_a_hundred_superframes() {
    let lead = 57usize;
    let mut bits = vec![true; lead];
    bits.extend(stream(150, &|_, _| 0xff, &[]));
    let mut sync = ExtendedSuperFrameSync::new();
    let mut locked = Vec::new();
    for (n, &bit) in bits.iter().enumerate() {
        if sync.update(bit) {
            locked.push(n);
        }
    }
    // The framing bit of the last frame of the hundredth superframe.
    assert_eq!(locked, vec![lead + 99 * SUPERFRAME_BITS + 23 * 193]);
}

#[test]
fn hunt_finds_nothing_in_silence() {
    let mut sync = ExtendedSuperFrameSync::new();
    for n in 0..200_000usize {
        assert!(!sync.update(true));
        assert!(!sync.update(n % 2 == 0));
    }
}

#[test]
fn decoder_locks_reports_loses_and_locks_again() {
    let lead = 57usize;
    let mut bits = vec![true; lead];
    bits.extend(stream(230, &|_, _| 0xff, &[(120, 700), (121, 900)]));
    let mut state = State::new();
    let mut locked = Vec::new();
    let mut lost = Vec::new();
    let mut reports = Vec::new();
    for (n, &bit) in bits.iter().enumerate() {
        let (next, event) = state.update(bit);
        state = next;
        match event {
            Event::Nothing => {}
            Event::Locked => locked.push(n),
            Event::Superframe(report) => reports.push(((n - lead) / SUPERFRAME_BITS, report)),
            Event::Lost(report) => lost.push(((n - lead) / SUPERFRAME_BITS, report)),
        }
    }
    let first_lock = lead + 99 * SUPERFRAME_BITS + 23 * 193;
    let second_lock = lead + 222 * SUPERFRAME_BITS + 23 * 193;
    assert_eq!(locked, vec![first_lock, second_lock]);

    // The superframe in which the decoder locked was not seen whole.
    assert_eq!(reports[0], (100, SuperframeReport { fas: 1, crc: 0, crc_expected: 0, crc_ok: true, dl: 0 }));
    assert_eq!(reports[1].0, 101);
    assert!(!reports[1].1.crc_ok);
    let crc = checksum(&superframe(&|_, _| 0xff, 0));
    let good = SuperframeReport { fas: 0b00_1011, crc, crc_expected: crc, crc_ok: true, dl: 0xfff };
    for &(superframe, report) in &reports[2..] {
        if superframe == 122 || superframe == 224 {
            assert!(!report.crc_ok);
            assert_eq!(report.crc, crc);
        } else if superframe == 223 {
            assert_eq!(report, reports[0].1);
        } else {
            assert_eq!(report, good, "superframe {}", superframe);
        }
    }
    // Superframes 120 and 121 arrived damaged: the first is found out when
    // superframe 122 begins, the second when superframe 123 begins.
    assert_eq!(lost.len(), 1);
    assert_eq!(lost[0].0, 123);
    assert!(!lost[0].1.crc_ok);
    let told: Vec<usize> = reports.iter().map(|&(superframe, _)| superframe).collect();
    let expected: Vec<usize> = (100..123).chain(223..230).collect();
    assert_eq!(told, expected);
}

#[test]
fn decoder_begins_hunting() {
    let state = State::new();
    assert!(matches!(state, State::Sync(_)));
    let (state, event) = state.update(true);
    assert_eq!(event, Event::Nothing);
    assert!(matches!(state, State::Sync(_)));
}
