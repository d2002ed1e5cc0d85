use hexwidget::glyph::{DELETE_PICTURE, PLACEHOLDER};
use hexwidget::label::ADDRESS_DIGITS;
use hexwidget::{address_label, ascii_glyph, hex_glyph, hex_tone, HexGlyph, Tone};

#[test]
fn hex_glyph_in_both_cases() {
    assert_eq!(hex_glyph(0xab, false), HexGlyph { hi: 'a', lo: 'b' });
    assert_eq!(hex_glyph(0xab, true), HexGlyph { hi: 'A', lo: 'B' });
    assert_eq!(hex_glyph(0xab, false).text(), "ab");
    assert_eq!(hex_glyph(0xab, true).text(), "AB");
}

#[test]
fn hex_glyph_of_every_byte_is_its_two_digits() {
    for byte in 0u8..=255 {
        assert_eq!(hex_glyph(byte, false).text(), format!("{byte:02x}"));
        assert_eq!(hex_glyph(byte, true).text(), format!("{byte:02X}"));
    }
}

#[test]
fn digit_case_changes_the_bytes_with_a_letter() {
    for byte in 0u8..=255 {
        let has_letter = byte / 16 >= 10 || byte % 16 >= 10;
        assert_eq!(hex_glyph(byte, true) != hex_glyph(byte, false), has_letter);
    }
}

#[test]
fn digit_case_leaves_the_bytes_without_a_letter() {
    assert_eq!(hex_glyph(0x12, true), hex_glyph(0x12, false));
    assert_eq!(hex_glyph(0x00, true), hex_glyph(0x00, false));
    assert_eq!(hex_glyph(0x99, true).text(), "99");
}

#[test]
fn hex_glyphs_tell_the_bytes_apart() {
    for one in 0u8..=255 {
        for other in 0u8..one {
            assert_ne!(hex_glyph(one, false), hex_glyph(other, false));
            assert_ne!(hex_glyph(one, true), hex_glyph(other, true));
        }
    }
}

#[test]
fn hex_tone_is_dim_for_zero_only() {
    assert_eq!(hex_tone(0), Tone::Dim);
    for byte in 1u8..=255 {
        assert_eq!(hex_tone(byte), Tone::Full);
    }
}

#[test]
fn ascii_glyph_of_control_codes() {
    assert_eq!(ascii_glyph(0x00), ('\u{2400}', Tone::Dim));
    assert_eq!(ascii_glyph(0x01), ('\u{2401}', Tone::Dim));
    assert_eq!(ascii_glyph(0x0a), ('\u{240a}', Tone::Dim));
    assert_eq!(ascii_glyph(0x1f), ('\u{241f}', Tone::Dim));
    assert_eq!(ascii_glyph(0x20), ('\u{2420}', Tone::Dim));
}

#[test]
fn ascii_glyph_of_delete() {
    assert_eq!(ascii_glyph(0x7f), ('\u{2421}', Tone::Dim));
    assert_eq!(DELETE_PICTURE, '\u{2421}');
}

#[test]
fn ascii_glyph_of_printable_characters() {
    assert_eq!(ascii_glyph(0x21), ('!', Tone::Full));
    assert_eq!(ascii_glyph(0x41), ('A', Tone::Full));
    assert_eq!(ascii_glyph(0x7e), ('~', Tone::Full));
}

#[test]
fn ascii_glyph_of_the_upper_half() {
    assert_eq!(ascii_glyph(0x80), ('\u{00b7}', Tone::Dim));
    assert_eq!(ascii_glyph(0xff), ('\u{00b7}', Tone::Dim));
    assert_eq!(PLACEHOLDER, '\u{00b7}');
}

#[test]
fn ascii_glyph_covers_every_byte() {
    for byte in 0u8..=255 {
        let (glyph, tone) = ascii_glyph(byte);
        if byte <= 0x20 {
            assert_eq!(glyph as u32, 0x2400 + byte as u32);
            assert_eq!(tone, Tone::Dim);
        } else if byte == 0x7f {
            assert_eq!(glyph, '\u{2421}');
            assert_eq!(tone, Tone::Dim);
        } else if byte < 0x7f {
            assert_eq!(glyph, byte as char);
            assert!(byte.is_ascii_graphic());
            assert_eq!(tone, Tone::Full);
        } else {
            assert_eq!(glyph, '\u{00b7}');
            assert_eq!(tone, Tone::Dim);
        }
    }
}

#[test]
fn address_label_has_eight_digits_and_a_colon() {
    assert_eq!(ADDRESS_DIGITS, 8);
    assert_eq!(address_label(0), "00000000:");
    assert_eq!(address_label(0x10), "00000010:");
    assert_eq!(address_label(4096), "00001000:");
    assert_eq!(address_label(0xdead_beef), "deadbeef:");
    assert_eq!(address_label(0xffff_ffff), "ffffffff:");
}

#[test]
fn address_label_is_lower_case() {
    assert_eq!(address_label(0xabcdef), "00abcdef:");
}

#[test]
fn address_label_grows_beyond_eight_digits() {
    let address: u64 = 0x1_0000_0000;
    if let Ok(address) = usize::try_from(address) {
        assert_eq!(address_label(address), "100000000:");
    }
    assert_eq!(address_label(usize::MAX), format!("{:08x}:", usize::MAX));
}

#[test]
fn address_label_agrees_with_the_formatter() {
    for row in 0usize..300 {
        assert_eq!(address_label(row * 16), format!("{:08x}:", row * 16));
    }
}
