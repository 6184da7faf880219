use tedium::codec::ulaw::{decode_i16, decode_ulaw_g191, encode_i14, encode_ulaw_g191};

#[test]
fn decoder_vs_g711_table() {
    let expected: [(u8, i16); 21] = [
        // G.711 table 2a
        (0b1000_0000, 8031),
        (0b1000_1111, 4191),
        (0b1001_1111, 2079),
        (0b1010_1111, 1023),
        (0b1011_1111, 495),
        (0b1100_1111, 231),
        (0b1101_1111, 99),
        (0b1110_1111, 33),
        (0b1111_1110, 2),
        (0b1111_1111, 0),
        // G.711 table 2b
        (0b0111_1111, 0),
        (0b0111_1110, -2),
        (0b0110_1111, -33),
        (0b0101_1111, -99),
        (0b0100_1111, -231),
        (0b0011_1111, -495),
        (0b0010_1111, -1023),
        (0b0001_1111, -2079),
        (0b0000_1111, -4191),
        (0b0000_0001, -7775),
        (0b0000_0000, -8031),
    ];

    for (character_signal, linear) in expected {
        let decoder_output = decode_ulaw_g191(character_signal);
        let decoder_output_14_bit = decoder_output / 4;
        assert_eq!(linear, decoder_output_14_bit, "decoding pair {:?}", (character_signal, linear));
    }
}

#[test]
fn encoder_vs_g191_code() {
    let expected: [(i16, u8); 60] = [
        // G.711 table 2a, viewed through the clarifying lens of G.726 and G.191
        (8191, 0b1000_0000),
        (8159, 0b1000_0000),
        (8031, 0b1000_0000),
        (7903, 0b1000_0000),
        (7902, 0b1000_0001),
        (4191, 0b1000_1111),
        (4063, 0b1000_1111),
        (4062, 0b1001_0000),
        (2143, 0b1001_1110),
        (2079, 0b1001_1111),
        (2015, 0b1001_1111),
        (1055, 0b1010_1110),
        (1023, 0b1010_1111),
        (991, 0b1010_1111),
        (511, 0b1011_1110),
        (495, 0b1011_1111),
        (479, 0b1011_1111),
        (239, 0b1100_1110),
        (231, 0b1100_1111),
        (223, 0b1100_1111),
        (103, 0b1101_1110),
        (99, 0b1101_1111),
        (95, 0b1101_1111),
        (35, 0b1110_1110),
        (33, 0b1110_1111),
        (31, 0b1110_1111),
        (3, 0b1111_1101),
        (2, 0b1111_1110),
        (1, 0b1111_1110),
        (0, 0b1111_1111),
        // G.711 table 2b, viewed through the clarifying lens of G.726 and G.191
        (-1, 0b0111_1111),
        (-2, 0b0111_1110),
        (-3, 0b0111_1110),
        (-31, 0b0111_0000),
        (-33, 0b0110_1111),
        (-35, 0b0110_1111),
        (-95, 0b0110_0000),
        (-99, 0b0101_1111),
        (-103, 0b0101_1111),
        (-223, 0b0101_0000),
        (-231, 0b0100_1111),
        (-239, 0b0100_1111),
        (-479, 0b0100_0000),
        (-495, 0b0011_1111),
        (-511, 0b0011_1111),
        (-991, 0b0011_0000),
        (-1023, 0b0010_1111),
        (-1055, 0b0010_1111),
        (-2015, 0b0010_0000),
        (-2079, 0b0001_1111),
        (-2143, 0b0001_1111),
        (-4063, 0b0001_0000),
        (-4191, 0b0000_1111),
        (-4319, 0b0000_1111),
        (-7647, 0b0000_0010),
        (-7775, 0b0000_0001),
        (-7903, 0b0000_0001),
        (-8031, 0b0000_0000),
        (-8059, 0b0000_0000),
        (-8191, 0b0000_0000),
    ];

    for (linear, character_signal) in expected {
        let encoder_output = encode_i14(linear);
        assert_eq!(encoder_output, character_signal, "encoding pair {:?}", (linear, character_signal));
    }
}

#[test]
fn table_decoder_agrees_with_reference_decoder() {
    for code in 0..=255u8 {
        assert_eq!(decode_i16(code), decode_ulaw_g191(code), "code {code:#04x}");
    }
}

#[test]
fn encoding_inverts_decoding_but_for_negative_zero() {
    for code in 0..=255u8 {
        let linear = decode_i16(code);
        assert_eq!(linear % 4, 0);
        let again = encode_i14(linear / 4);
        if code == 0x7f {
            assert_eq!(again, 0xff);
        } else {
            assert_eq!(again, code, "code {code:#04x}");
        }
    }
}

#[test]
fn fast_encoder_agrees_with_reference_encoder() {
    for linear in -8192..=8191i16 {
        assert_eq!(encode_i14(linear), encode_ulaw_g191(linear * 4), "sample {linear}");
    }
}

#[test]
fn encoder_clips_beyond_the_largest_magnitude() {
    assert_eq!(encode_i14(i16::MAX), 0x80);
    assert_eq!(encode_i14(i16::MIN), 0x00);
    assert_eq!(encode_ulaw_g191(i16::MAX), 0x80);
    assert_eq!(encode_ulaw_g191(i16::MIN), 0x00);
}

#[test]
fn decoder_extremes() {
    assert_eq!(decode_i16(0x00), -32124);
    assert_eq!(decode_i16(0x80), 32124);
    assert_eq!(decode_i16(0xff), 0);
    assert_eq!(decode_i16(0x7f), 0);
}
