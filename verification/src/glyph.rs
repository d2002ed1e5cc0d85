//! The text of a cell: the two hexadecimal digits of a byte, the glyph that
//! stands for it in the ASCII pane, and the tone each is drawn in.

use vstd::prelude::*;

verus! {

/// How strongly a run of text is drawn.
#[derive(Clone, Copy, Debug, PartialEq, Eq, Structural)]
pub enum Tone {
    /// Muted: zero bytes, control pictures and placeholders.
    Dim,
    /// Full emphasis: everything that carries information of its own.
    Full,
}

/// The two-character text run of one byte value in the hex pane.
#[derive(Clone, Copy, Debug, PartialEq, Eq, Structural)]
pub struct HexGlyph {
    /// The digit of the high nibble.
    pub hi: char,
    /// The digit of the low nibble.
    pub lo: char,
}

/// `std::string::String::push`: the string afterwards is the string before
/// with `ch` appended as its last character.
pub assume_specification[ String::push ](text: &mut String, ch: char)
    ensures
        final(text)@ == old(text)@.push(ch),
;

/// The glyph drawn for bytes that are neither ASCII nor a control code.
pub const PLACEHOLDER: char = '\u{00b7}';

/// The control picture of DEL.
pub const DELETE_PICTURE: char = '\u{2421}';

/// The hexadecimal digit of a nibble: `0-9`, then `A-F` or `a-f`.
pub open spec fn hex_digit(nibble: int, uppercase: bool) -> char {
    if nibble < 10 {
        ('0' as int + nibble) as char
    } else if uppercase {
        ('A' as int + nibble - 10) as char
    } else {
        ('a' as int + nibble - 10) as char
    }
}

/// Whether `digit` is one of `0-9`, or of `A-F` in upper case, or of `a-f` in
/// lower case.
pub open spec fn is_hex_digit(digit: char, uppercase: bool) -> bool {
    ||| '0' as int <= digit as int <= '9' as int
    ||| uppercase && 'A' as int <= digit as int <= 'F' as int
    ||| !uppercase && 'a' as int <= digit as int <= 'f' as int
}

/// The nibble that a hexadecimal digit of either case stands for.
pub open spec fn digit_value(digit: char) -> int {
    if '0' as int <= digit as int <= '9' as int {
        digit as int - '0' as int
    } else if 'a' as int <= digit as int <= 'f' as int {
        digit as int - 'a' as int + 10
    } else {
        digit as int - 'A' as int + 10
    }
}

/// The byte that a text run of two hexadecimal digits stands for.
pub open spec fn glyph_value(glyph: HexGlyph) -> int {
    digit_value(glyph.hi) * 16 + digit_value(glyph.lo)
}

/// The text run of `byte`: its high digit, then its low digit.
pub open spec fn hex_glyph_of(byte: u8, uppercase: bool) -> HexGlyph {
    HexGlyph { hi: hex_digit(byte as int / 16, uppercase), lo: hex_digit(byte as int % 16, uppercase) }
}

/// Whether one of the two digits of `byte` is a letter.
pub open spec fn has_letter_digit(byte: u8) -> bool {
    byte as int / 16 >= 10 || byte as int % 16 >= 10
}

/// The tone of a byte in the hex pane: dim for zero, full otherwise.
pub open spec fn hex_tone_of(byte: u8) -> Tone {
    if byte == 0 {
        Tone::Dim
    } else {
        Tone::Full
    }
}

/// The glyph and tone of a byte in the ASCII pane.
///
/// The control codes `0x00..=0x20` show as the control picture at
/// `U+2400 + byte`, DEL shows as its own picture, the printable characters
/// `0x21..=0x7E` show as themselves, and every other byte shows as a dot.
/// Only the printable characters are drawn at full tone.
pub open spec fn ascii_glyph_of(byte: u8) -> (char, Tone) {
    if byte <= 0x20 {
        ((0x2400 + byte as int) as char, Tone::Dim)
    } else if byte == 0x7f {
        (DELETE_PICTURE, Tone::Dim)
    } else if byte <= 0x7e {
        (byte as char, Tone::Full)
    } else {
        (PLACEHOLDER, Tone::Dim)
    }
}

/// Switching the digit case changes the text run of a byte exactly when one
/// of its two digits is a letter.
pub proof fn lemma_case_changes_letters(byte: u8)
    ensures
        has_letter_digit(byte) <==> hex_glyph_of(byte, true) != hex_glyph_of(byte, false),
{
}

/// A hexadecimal digit stands for the nibble it was made from, and is a
/// decimal digit or a letter of the case that was asked for.
pub proof fn lemma_hex_digit_value(nibble: int, uppercase: bool)
    requires
        0 <= nibble < 16,
    ensures
        digit_value(hex_digit(nibble, uppercase)) == nibble,
        is_hex_digit(hex_digit(nibble, uppercase), uppercase),
{
}

/// The text run of a byte reads as that byte: sixteen times the value of the
/// first digit, and the value of the second.
pub proof fn lemma_hex_glyph_value(byte: u8, uppercase: bool)
    ensures
        glyph_value(hex_glyph_of(byte, uppercase)) == byte,
{
    lemma_hex_digit_value(byte as int / 16, uppercase);
    lemma_hex_digit_value(byte as int % 16, uppercase);
}

/// In either digit case, two bytes with the same text run are the same byte.
pub proof fn lemma_hex_glyph_injective(one: u8, other: u8, uppercase: bool)
    requires
        hex_glyph_of(one, uppercase) == hex_glyph_of(other, uppercase),
    ensures
        one == other,
{
    lemma_hex_glyph_value(one, uppercase);
    lemma_hex_glyph_value(other, uppercase);
}

/// Computes the hexadecimal digit of a nibble.
pub(crate) fn hex_digit_char(nibble: u8, uppercase: bool) -> (digit: char)
    requires
        nibble < 16,
    ensures
        digit == hex_digit(nibble as int, uppercase),
{
    if nibble < 10 {
        ('0' as u8 + nibble) as char
    } else if uppercase {
        ('A' as u8 + (nibble - 10)) as char
    } else {
        ('a' as u8 + (nibble - 10)) as char
    }
}

/// Computes the two-digit text run of a byte.
pub fn hex_glyph(byte: u8, uppercase: bool) -> (glyph: HexGlyph)
    ensures
        glyph == hex_glyph_of(byte, uppercase),
{
    HexGlyph { hi: hex_digit_char(byte / 16, uppercase), lo: hex_digit_char(byte % 16, uppercase) }
}

impl HexGlyph {
    /// The two digits as a string.
    pub fn text(&self) -> (text: String)
        ensures
            text@ == seq![self.hi, self.lo],
    {
        let mut text = String::new();
        text.push(self.hi);
        text.push(self.lo);
        assert(text@ =~= seq![self.hi, self.lo]);
        text
    }
}

/// Computes the tone of a byte in the hex pane.
pub fn hex_tone(byte: u8) -> (tone: Tone)
    ensures
        tone == hex_tone_of(byte),
{
    if byte == 0 {
        Tone::Dim
    } else {
        Tone::Full
    }
}

/// Selects the glyph and tone of a byte in the ASCII pane. Every byte value
/// has one.
pub fn ascii_glyph(byte: u8) -> (shown: (char, Tone))
    ensures
        shown == ascii_glyph_of(byte),
{
    if byte <= 0x20 {
        (control_picture(byte), Tone::Dim)
    } else if byte == 0x7f {
        (DELETE_PICTURE, Tone::Dim)
    } else if byte <= 0x7e {
        (byte as char, Tone::Full)
    } else {
        (PLACEHOLDER, Tone::Dim)
    }
}

/// The control picture of a control code or of the space.
fn control_picture(code: u8) -> (picture: char)
    requires
        code <= 0x20,
    ensures
        picture == (0x2400 + code as int) as char,
{
    match code {
        0 => '\u{2400}',  // null
        1 => '\u{2401}',  // start of heading
        2 => '\u{2402}',  // start of text
        3 => '\u{2403}',  // end of text
        4 => '\u{2404}',  // end of transmission
        5 => '\u{2405}',  // enquiry
        6 => '\u{2406}',  // acknowledge
        7 => '\u{2407}',  // bell
        8 => '\u{2408}',  // backspace
        9 => '\u{2409}',  // horizontal tabulation
        10 => '\u{240a}',  // line feed
        11 => '\u{240b}',  // vertical tabulation
        12 => '\u{240c}',  // form feed
        13 => '\u{240d}',  // carriage return
        14 => '\u{240e}',  // shift out
        15 => '\u{240f}',  // shift in
        16 => '\u{2410}',  // data link escape
        17 => '\u{2411}',  // device control one
        18 => '\u{2412}',  // device control two
        19 => '\u{2413}',  // device control three
        20 => '\u{2414}',  // device control four
        21 => '\u{2415}',  // negative acknowledge
        22 => '\u{2416}',  // synchronous idle
        23 => '\u{2417}',  // end of transmission block
        24 => '\u{2418}',  // cancel
        25 => '\u{2419}',  // end of medium
        26 => '\u{241a}',  // substitute
        27 => '\u{241b}',  // escape
        28 => '\u{241c}',  // file separator
        29 => '\u{241d}',  // group separator
        30 => '\u{241e}',  // record separator
        31 => '\u{241f}',  // unit separator
        _ => '\u{2420}',  // space
    }
}

} // verus!
