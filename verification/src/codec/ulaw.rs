//! G.711 μ-law companding between 8-bit codes and linear samples.
//!
//! Linear samples come in two scalings: "i14" is the 14-bit magnitude range
//! of G.711 (±8159, clipped to ±8031 by the encoder), "i16" is the same value
//! left-justified in 16 bits (four times larger).

use vstd::prelude::*;

verus! {

/// Largest 14-bit linear magnitude that has a μ-law code of its own.
pub const ULAW_I14_MAX: i16 = 8031;

/// Bias added to the magnitude before the segment is determined.
pub const ULAW_BIAS: i16 = 33;

/// `x * 2^k`, for the shift distances `0..=9` that occur in companding.
pub open spec fn scaled_up(x: int, k: int) -> int {
    if k <= 0 {
        x
    } else if k == 1 {
        2 * x
    } else if k == 2 {
        4 * x
    } else if k == 3 {
        8 * x
    } else if k == 4 {
        16 * x
    } else if k == 5 {
        32 * x
    } else if k == 6 {
        64 * x
    } else if k == 7 {
        128 * x
    } else if k == 8 {
        256 * x
    } else {
        512 * x
    }
}

/// `x / 2^k` rounded down, for the shift distances `0..=15` that occur in
/// companding.
pub open spec fn scaled_down(x: int, k: int) -> int {
    if k <= 0 {
        x
    } else if k == 1 {
        x / 2
    } else if k == 2 {
        x / 4
    } else if k == 3 {
        x / 8
    } else if k == 4 {
        x / 16
    } else if k == 5 {
        x / 32
    } else if k == 6 {
        x / 64
    } else if k == 7 {
        x / 128
    } else if k == 8 {
        x / 256
    } else if k == 9 {
        x / 512
    } else if k == 10 {
        x / 1024
    } else if k == 11 {
        x / 2048
    } else if k == 12 {
        x / 4096
    } else if k == 13 {
        x / 8192
    } else if k == 14 {
        x / 16384
    } else {
        x / 32768
    }
}

/// Segment (chord) number, 1 to 8, of a biased magnitude `m` in `[33, 8191]`:
/// segment `s` holds the magnitudes from `2^(s+4)` up to `2^(s+5) - 1`.
pub open spec fn segment_of(m: int) -> int {
    if m < 64 {
        1
    } else if m < 128 {
        2
    } else if m < 256 {
        3
    } else if m < 512 {
        4
    } else if m < 1024 {
        5
    } else if m < 2048 {
        6
    } else if m < 4096 {
        7
    } else {
        8
    }
}

/// The μ-law code of a sign and a biased magnitude `m` in `[33, 8191]`.
///
/// Bit 7 is set for non-negative samples, bits 6..4 hold the inverted
/// segment, bits 3..0 the inverted four bits that follow the leading one of
/// `m`.
pub open spec fn ulaw_code(non_negative: bool, m: int) -> int {
    let segment = segment_of(m);
    (if non_negative { 128int } else { 0int }) + (8 - segment) * 16 + (15 - scaled_down(m, segment) % 16)
}

/// Biased magnitude of a 14-bit linear sample: negative samples are taken in
/// one's complement, as G.191 does.
pub open spec fn biased_magnitude(linear: int) -> int {
    if linear >= 0 {
        linear + 33
    } else {
        32 - linear
    }
}

/// `linear` limited to the range `[-8031, 8031]`.
pub open spec fn clip_i14(linear: int) -> int {
    if linear < -8031 {
        -8031
    } else if linear > 8031 {
        8031
    } else {
        linear
    }
}

/// What [`encode_i14`] returns: the code of the clipped sample.
pub open spec fn encode_i14_spec(linear: int) -> int {
    let clipped = clip_i14(linear);
    ulaw_code(clipped >= 0, biased_magnitude(clipped))
}

/// What [`encode_ulaw_g191`] returns for a 16-bit left-justified sample: the
/// two low bits are dropped and the biased magnitude is limited to 13 bits.
pub open spec fn encode_ulaw_g191_spec(linear: int) -> int {
    let ones_complement = if linear < 0 { -linear - 1 } else { linear };
    let biased = ones_complement / 4 + 33;
    ulaw_code(linear >= 0, if biased > 8191 { 8191 } else { biased })
}

/// What the decoders return for `code`, as a 16-bit left-justified sample.
///
/// With `e` and `q` the exponent and mantissa read from the inverted code,
/// the magnitude is `(2q + 33) * 2^(e+2) - 132`; codes below `0x80` are
/// negative.
pub open spec fn decode_i16_spec(code: int) -> int {
    let inverted = 255 - code;
    let exponent = (inverted / 16) % 8;
    let mantissa = inverted % 16;
    let magnitude = scaled_up(2 * mantissa + 33, exponent + 2) - 132;
    if code < 128 {
        -magnitude
    } else {
        magnitude
    }
}

proof fn lemma_i16_bits(x: i16)
    by (bit_vector)
    ensures
        x >= 0 ==> (x as u16) == x,
        x < 0 ==> ((x as u16) ^ 0xffffu16) == -x - 1,
        x < 0 ==> (x as u16) == x + 65536,
{
}

proof fn lemma_i14_magnitude(x: i16)
    by (bit_vector)
    requires
        -8031 <= x <= 8031,
    ensures
        x >= 0 ==> (x as u16) >> 15u16 == 0u16 && (((x as u16) << 3u16) ^ 0u16) == 8 * x,
        x < 0 ==> (x as u16) >> 15u16 == 1u16 && (((x as u16) << 3u16) ^ 0xffffu16) == -8 * x - 1,
{
}

proof fn lemma_u16_shift_right(x: u16, k: u16)
    by (bit_vector)
    ensures
        k == 0 ==> x >> k == x,
        k == 1 ==> x >> k == x / 2,
        k == 2 ==> x >> k == x / 4,
        k == 3 ==> x >> k == x / 8,
        k == 4 ==> x >> k == x / 16,
        k == 5 ==> x >> k == x / 32,
        k == 6 ==> x >> k == x / 64,
        k == 7 ==> x >> k == x / 128,
        k == 8 ==> x >> k == x / 256,
        k == 9 ==> x >> k == x / 512,
        k == 10 ==> x >> k == x / 1024,
        k == 11 ==> x >> k == x / 2048,
        k == 12 ==> x >> k == x / 4096,
        k == 13 ==> x >> k == x / 8192,
        k == 14 ==> x >> k == x / 16384,
        k == 15 ==> x >> k == x / 32768,
        k < 16 && (x >> k) & 1u16 != 0u16 ==> x >> k != 0u16,
        #[verifier::truncate] ((x >> k) as u8) & 0x0fu8 == (x >> k) % 16,
{
}

proof fn lemma_u16_shift_left(x: u16, k: u16)
    by (bit_vector)
    requires
        x < 128,
    ensures
        k == 0 ==> x << k == x,
        k == 1 ==> x << k == 2 * x,
        k == 2 ==> x << k == 4 * x,
        k == 3 ==> x << k == 8 * x,
        k == 4 ==> x << k == 16 * x,
        k == 5 ==> x << k == 32 * x,
        k == 6 ==> x << k == 64 * x,
        k == 7 ==> x << k == 128 * x,
        k == 8 ==> x << k == 256 * x,
        k == 9 ==> x << k == 512 * x,
{
}

proof fn lemma_u8_fields(x: u8, sign: u8, high: u8, low: u8)
    by (bit_vector)
    ensures
        x ^ 0xffu8 == 255 - x,
        (x >> 4u8) & 7u8 == (x / 16) % 8,
        x & 0x0fu8 == x % 16,
        (sign == 0 || sign == 128) && high < 8 && low < 16 ==> (sign | (high << 4u8) | low) == sign
            + high * 16 + low,
        #[verifier::truncate] (0xffffu16 as u8) & 0x80u8 == 128u8,
        #[verifier::truncate] (0x0000u16 as u8) & 0x80u8 == 0u8,
{
}

proof fn lemma_segment_search(m: int, s: int)
    requires
        33 <= m <= 8191,
        1 <= s <= 8,
    ensures
        scaled_down(m, s + 5) != 0 ==> s < 8 && scaled_down(m, s + 4) != 0,
        scaled_down(m, s + 5) / 2 == scaled_down(m, s + 6),
        scaled_down(m, s + 5) == 0 && (s > 1 ==> scaled_down(m, s + 4) != 0) ==> s == segment_of(m),
{
}

/// Reference encoder after ITU-T G.191: from a 16-bit left-justified linear
/// sample to its μ-law code. Accurate but slow.
pub fn encode_ulaw_g191(linear: i16) -> (code: u8)
    ensures
        code == encode_ulaw_g191_spec(linear as int),
{
    // One's complement magnitude and the sign bit.
    let (absno, sign_bit): (u16, u8) = if linear < 0 {
        (#[verifier::truncate] (linear as u16) ^ 0xffff, 0x00)
    } else {
        (#[verifier::truncate] (linear as u16), 0x80)
    };
    proof {
        lemma_i16_bits(linear);
        lemma_u16_shift_right(absno, 2);
    }
    // From 14 bits left-justified to right-justified, biased and limited.
    let biased: u16 = (absno >> 2u16) + 33;
    let absno: u16 = if biased > 0x1fff { 0x1fff } else { biased };

    // Determination of the sample's segment.
    let mut i: u16 = absno >> 6u16;
    let mut segno: u8 = 1;
    proof {
        lemma_u16_shift_right(absno, 6);
    }
    while i != 0
        invariant
            33 <= absno <= 8191,
            1 <= segno <= 8,
            i as int == scaled_down(absno as int, segno as int + 5),
            segno > 1 ==> scaled_down(absno as int, segno as int + 4) != 0,
        decreases i,
    {
        proof {
            lemma_u16_shift_right(i, 1);
            lemma_segment_search(absno as int, segno as int);
        }
        segno += 1;
        i >>= 1u16;
    }
    proof {
        lemma_segment_search(absno as int, segno as int);
    }

    // The high nibble: the inverted segment.
    let high_nibble: u8 = 8 - segno;

    // The low nibble: the mantissa without its leading one, inverted.
    proof {
        lemma_u16_shift_right(absno, segno as u16);
    }
    let shifted: u16 = absno >> (segno as u16);
    let mantissa: u8 = #[verifier::truncate] (shifted as u8) & 0x0fu8;
    proof {
        lemma_u8_fields(0, sign_bit, high_nibble, (0x0f - mantissa) as u8);
    }
    let low_nibble: u8 = 0x0f - mantissa;

    sign_bit | (high_nibble << 4u8) | low_nibble
}

/// Reference decoder after ITU-T G.191: from a μ-law code to a 16-bit
/// left-justified linear sample. Accurate but slow.
pub fn decode_ulaw_g191(code: u8) -> (linear: i16)
    ensures
        linear == decode_i16_spec(code as int),
{
    let negative = code < 0x80;
    let inverted: u8 = code ^ 0xffu8;
    proof {
        lemma_u8_fields(code, 0, 0, 0);
        lemma_u8_fields(inverted, 0, 0, 0);
    }
    let exponent: u8 = (inverted >> 4u8) & 0x07u8;
    let mantissa: u8 = inverted & 0x0fu8;

    // The mantissa with its leading one and half a quantization step,
    // moved to its place, less the bias.
    let biased: u16 = 2 * (mantissa as u16) + 33;
    proof {
        lemma_u16_shift_left(biased, (exponent + 2) as u16);
    }
    let magnitude: u16 = (biased << ((exponent + 2) as u16)) - 4 * 33;
    if negative {
        -(magnitude as i16)
    } else {
        magnitude as i16
    }
}

/// Encoder for 14-bit linear samples: clips to `[-8031, 8031]`, then finds
/// the segment from the position of the leading one of the biased magnitude.
pub fn encode_i14(linear: i16) -> (code: u8)
    ensures
        code == encode_i14_spec(linear as int),
{
    let clipped: i16 = if linear < -ULAW_I14_MAX {
        -ULAW_I14_MAX
    } else if linear > ULAW_I14_MAX {
        ULAW_I14_MAX
    } else {
        linear
    };
    proof {
        lemma_i14_magnitude(clipped);
        lemma_i16_bits(-1i16);
        lemma_u16_shift_left(ULAW_BIAS as u16, 3);
    }
    let linear: u16 = #[verifier::truncate] (clipped as u16);
    // 0x0000 if positive, 0xffff if negative.
    let sign_extended: u16 = #[verifier::truncate] ((0 - ((linear >> 15u16) as i16)) as u16);
    // The biased magnitude with three more bits below it.
    let magnitude: u16 = ((linear << 3u16) ^ sign_extended) + ((ULAW_BIAS as u16) << 3u16);
    assert(magnitude as int / 8 == biased_magnitude(clipped as int));

    let leading_zeros: u32 = magnitude.leading_zeros();
    proof {
        vstd::std_specs::bits::axiom_u16_leading_zeros(magnitude);
        lemma_u16_shift_right(magnitude, (15 - leading_zeros) as u16);
        if leading_zeros > 0 {
            lemma_u16_shift_right(magnitude, (16 - leading_zeros) as u16);
        }
        lemma_u16_shift_right(magnitude, (11 - leading_zeros) as u16);
    }
    assert(leading_zeros < 8);
    assert(8 - leading_zeros == segment_of(magnitude as int / 8));

    let abcd: u8 = #[verifier::truncate] ((magnitude >> ((11 - leading_zeros) as u16)) as u8) & 0x0fu8;
    let exponent: u8 = (7 - leading_zeros) as u8;
    let sign: u8 = #[verifier::truncate] (sign_extended as u8) & 0x80u8;
    proof {
        lemma_u8_fields(0, sign, exponent, abcd);
        lemma_u8_fields(sign | (exponent << 4u8) | abcd, 0, 0, 0);
        assert(sign == if clipped >= 0 { 0u8 } else { 128u8 });
        assert(abcd as int == scaled_down(magnitude as int, 11 - leading_zeros) % 16);
        assert(scaled_down(magnitude as int, 11 - leading_zeros) == scaled_down(
            magnitude as int / 8,
            8 - leading_zeros,
        ));
    }
    let code: u8 = sign | (exponent << 4u8) | abcd;
    code ^ 0xffu8
}

/// Linear value of every μ-law code, as a 16-bit left-justified sample.
pub const ULAW_TO_LINEAR: [i16; 256] = [
    -32124, -31100, -30076, -29052, -28028, -27004, -25980, -24956,
    -23932, -22908, -21884, -20860, -19836, -18812, -17788, -16764,
    -15996, -15484, -14972, -14460, -13948, -13436, -12924, -12412,
    -11900, -11388, -10876, -10364,  -9852,  -9340,  -8828,  -8316,
     -7932,  -7676,  -7420,  -7164,  -6908,  -6652,  -6396,  -6140,
     -5884,  -5628,  -5372,  -5116,  -4860,  -4604,  -4348,  -4092,
     -3900,  -3772,  -3644,  -3516,  -3388,  -3260,  -3132,  -3004,
     -2876,  -2748,  -2620,  -2492,  -2364,  -2236,  -2108,  -1980,
     -1884,  -1820,  -1756,  -1692,  -1628,  -1564,  -1500,  -1436,
     -1372,  -1308,  -1244,  -1180,  -1116,  -1052,   -988,   -924,
      -876,   -844,   -812,   -780,   -748,   -716,   -684,   -652,
      -620,   -588,   -556,   -524,   -492,   -460,   -428,   -396,
      -372,   -356,   -340,   -324,   -308,   -292,   -276,   -260,
      -244,   -228,   -212,   -196,   -180,   -164,   -148,   -132,
      -120,   -112,   -104,    -96,    -88,    -80,    -72,    -64,
       -56,    -48,    -40,    -32,    -24,    -16,     -8,      0,
     32124,  31100,  30076,  29052,  28028,  27004,  25980,  24956,
     23932,  22908,  21884,  20860,  19836,  18812,  17788,  16764,
     15996,  15484,  14972,  14460,  13948,  13436,  12924,  12412,
     11900,  11388,  10876,  10364,   9852,   9340,   8828,   8316,
      7932,   7676,   7420,   7164,   6908,   6652,   6396,   6140,
      5884,   5628,   5372,   5116,   4860,   4604,   4348,   4092,
      3900,   3772,   3644,   3516,   3388,   3260,   3132,   3004,
      2876,   2748,   2620,   2492,   2364,   2236,   2108,   1980,
      1884,   1820,   1756,   1692,   1628,   1564,   1500,   1436,
      1372,   1308,   1244,   1180,   1116,   1052,    988,    924,
       876,    844,    812,    780,    748,    716,    684,    652,
       620,    588,    556,    524,    492,    460,    428,    396,
       372,    356,    340,    324,    308,    292,    276,    260,
       244,    228,    212,    196,    180,    164,    148,    132,
       120,    112,    104,     96,     88,     80,     72,     64,
        56,     48,     40,     32,     24,     16,      8,      0,
];

/// The decoded value in terms of the two nibbles of the code.
proof fn lemma_decode_by_nibbles(row: int, column: int)
    requires
        0 <= row < 16,
        0 <= column < 16,
    ensures
        decode_i16_spec(16 * row + column) == if row < 8 {
            132 - scaled_up(63 - 2 * column, 9 - row)
        } else {
            scaled_up(63 - 2 * column, 17 - row) - 132
        },
{
    let inverted = 255 - (16 * row + column);
    assert(inverted == 16 * (15 - row) + (15 - column));
    assert(inverted / 16 == 15 - row);
    assert(inverted % 16 == 15 - column);
}

proof fn lemma_table_row(row: int, column: int)
    requires
        0 <= row < 16,
        0 <= column < 16,
    ensures
        ULAW_TO_LINEAR[16 * row + column] == decode_i16_spec(16 * row + column),
{
    lemma_decode_by_nibbles(row, column);
    assert(column == 0 || column == 1 || column == 2 || column == 3 || column == 4 || column == 5
        || column == 6 || column == 7 || column == 8 || column == 9 || column == 10 || column == 11
        || column == 12 || column == 13 || column == 14 || column == 15);
    assert(row == 0 || row == 1 || row == 2 || row == 3 || row == 4 || row == 5 || row == 6 || row == 7
        || row == 8 || row == 9 || row == 10 || row == 11 || row == 12 || row == 13 || row == 14 || row
        == 15);
}

/// Linear value of `code` as a 16-bit left-justified sample, read from
/// [`ULAW_TO_LINEAR`].
pub fn decode_i16(code: u8) -> (linear: i16)
    ensures
        linear == decode_i16_spec(code as int),
{
    proof {
        lemma_table_row(code as int / 16, code as int % 16);
    }
    ULAW_TO_LINEAR[code as usize]
}

/// Every entry of [`ULAW_TO_LINEAR`] is the value that the reference decoder
/// computes for its index.
pub proof fn lemma_table_matches_reference(code: u8)
    ensures
        ULAW_TO_LINEAR[code as int] == decode_i16_spec(code as int),
{
    lemma_table_row(code as int / 16, code as int % 16);
}

/// Decoding a code and encoding the result again gives the code back, for
/// every code but `0x7f`: that code decodes to zero, as `0xff` does, and zero
/// is encoded as `0xff`. The decoded value is a multiple of four, so that its
/// 14-bit form is exact.
pub proof fn lemma_encode_inverts_decode(code: u8)
    requires
        code != 0x7f,
    ensures
        decode_i16_spec(code as int) % 4 == 0,
        encode_i14_spec(decode_i16_spec(code as int) / 4) == code,
{
    let row = code as int / 16;
    let column = code as int % 16;
    lemma_decode_by_nibbles(row, column);
    let exponent = if row < 8 { 7 - row } else { 15 - row };
    let biased = scaled_up(63 - 2 * column, exponent);
    assert(scaled_up(63 - 2 * column, exponent + 2) == 4 * biased);
    if row < 8 {
        assert(decode_i16_spec(code as int) / 4 == 33 - biased);
        assert(biased_magnitude(33 - biased) == biased - 1);
        assert(segment_of(biased - 1) == exponent + 1);
        assert(scaled_down(biased - 1, exponent + 1) == 31 - column);
    } else {
        assert(decode_i16_spec(code as int) / 4 == biased - 33);
        assert(biased_magnitude(biased - 33) == biased);
        assert(segment_of(biased) == exponent + 1);
        assert(scaled_down(biased, exponent + 1) == 31 - column);
    }
}

/// The fast encoder agrees with the reference encoder on every 14-bit
/// sample, the reference being given the sample left-justified in 16 bits.
pub proof fn lemma_encoders_agree(linear: i16)
    requires
        -8192 <= linear <= 8191,
    ensures
        encode_i14_spec(linear as int) == encode_ulaw_g191_spec(4 * linear),
{
    let x = linear as int;
    if x >= 0 {
        assert((4 * x) / 4 == x);
    } else {
        assert((-4 * x - 1) / 4 == -x - 1);
    }
}

} // verus!
