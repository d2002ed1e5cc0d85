//! The address label of a row: the address of its first byte in lower-case
//! hexadecimal, at least eight digits wide, and a colon.

use crate::glyph::{digit_value, hex_digit, hex_digit_char, is_hex_digit, lemma_hex_digit_value};
use vstd::prelude::*;

verus! {

/// The number of digits that every address label has at least.
pub const ADDRESS_DIGITS: usize = 8;

/// The lower-case hexadecimal digits of `value`, most significant first,
/// padded with zeros on the left to at least `width` digits.
pub open spec fn lower_hex(value: nat, width: nat) -> Seq<char>
    decreases value, width,
{
    if value < 16 && width <= 1 {
        seq![hex_digit(value as int, false)]
    } else {
        let rest_width: nat = if width > 0 { (width - 1) as nat } else { 0 };
        lower_hex(value / 16, rest_width).push(hex_digit((value % 16) as int, false))
    }
}

/// The number that a run of hexadecimal digits stands for, read with the
/// most significant digit first.
pub open spec fn hex_value(digits: Seq<char>) -> int
    decreases digits.len(),
{
    if digits.len() == 0 {
        0
    } else {
        hex_value(digits.drop_last()) * 16 + digit_value(digits.last())
    }
}

/// The label of the row that begins at `address`.
pub open spec fn address_text(address: nat) -> Seq<char> {
    lower_hex(address, ADDRESS_DIGITS as nat).push(':')
}

/// The digits of a value are at least `width` many and at least one; a value
/// of sixteen or more has at least two.
pub proof fn lemma_lower_hex_len(value: nat, width: nat)
    ensures
        lower_hex(value, width).len() >= width,
        lower_hex(value, width).len() >= 1,
        value >= 16 ==> lower_hex(value, width).len() >= 2,
    decreases value, width,
{
    if value < 16 && width <= 1 {
    } else {
        let rest_width: nat = if width > 0 { (width - 1) as nat } else { 0 };
        lemma_lower_hex_len(value / 16, rest_width);
    }
}

/// Every digit of a value is one of `0-9` and `a-f`.
pub proof fn lemma_lower_hex_digits(value: nat, width: nat)
    ensures
        forall|i: int|
            0 <= i < lower_hex(value, width).len() ==> is_hex_digit(
                #[trigger] lower_hex(value, width)[i],
                false,
            ),
    decreases value, width,
{
    let digits = lower_hex(value, width);
    if value < 16 && width <= 1 {
        lemma_hex_digit_value(value as int, false);
        assert(digits[0] == hex_digit(value as int, false));
    } else {
        let rest_width: nat = if width > 0 { (width - 1) as nat } else { 0 };
        let rest = lower_hex(value / 16, rest_width);
        lemma_lower_hex_digits(value / 16, rest_width);
        lemma_hex_digit_value((value % 16) as int, false);
        assert forall|i: int| 0 <= i < digits.len() implies is_hex_digit(#[trigger] digits[i], false) by {
            if i < rest.len() {
                assert(digits[i] == rest[i]);
            }
        }
    }
}

/// An address below `2^32` has a label of eight digits and the colon.
pub proof fn lemma_short_address_text_len(address: nat)
    requires
        address < 0x1_0000_0000,
    ensures
        address_text(address).len() == 9,
{
    reveal_with_fuel(lower_hex, 9);
}

/// The digits of a value read as that value, whatever the width.
pub proof fn lemma_lower_hex_value(value: nat, width: nat)
    ensures
        hex_value(lower_hex(value, width)) == value,
    decreases value, width,
{
    let digits = lower_hex(value, width);
    if value < 16 && width <= 1 {
        lemma_hex_digit_value(value as int, false);
        assert(digits.drop_last() =~= Seq::<char>::empty());
        assert(hex_value(digits.drop_last()) == 0);
    } else {
        let rest_width: nat = if width > 0 { (width - 1) as nat } else { 0 };
        let rest = lower_hex(value / 16, rest_width);
        lemma_lower_hex_value(value / 16, rest_width);
        lemma_hex_digit_value((value % 16) as int, false);
        assert(digits.drop_last() =~= rest);
    }
}

/// Two addresses with the same label are the same address.
pub proof fn lemma_address_text_injective(one: nat, other: nat)
    requires
        address_text(one) == address_text(other),
    ensures
        one == other,
{
    let one_digits = lower_hex(one, ADDRESS_DIGITS as nat);
    let other_digits = lower_hex(other, ADDRESS_DIGITS as nat);
    assert(one_digits.push(':').drop_last() =~= one_digits);
    assert(other_digits.push(':').drop_last() =~= other_digits);
    lemma_lower_hex_value(one, ADDRESS_DIGITS as nat);
    lemma_lower_hex_value(other, ADDRESS_DIGITS as nat);
}

/// Appends the digits of `value` to `text`.
fn push_lower_hex(text: &mut String, value: usize, width: usize)
    ensures
        final(text)@ == old(text)@ + lower_hex(value as nat, width as nat),
    decreases value, width,
{
    let ghost before = text@;
    if value < 16 && width <= 1 {
        text.push(hex_digit_char(value as u8, false));
        assert(text@ =~= before + lower_hex(value as nat, width as nat));
    } else {
        let rest_width: usize = if width > 0 { width - 1 } else { 0 };
        push_lower_hex(text, value / 16, rest_width);
        text.push(hex_digit_char((value % 16) as u8, false));
        assert(text@ =~= before + lower_hex(value as nat, width as nat));
    }
}

/// Writes the label of the row that begins at `address`.
pub fn address_label(address: usize) -> (label: String)
    ensures
        label@ == address_text(address as nat),
{
    let mut label = String::new();
    push_lower_hex(&mut label, address, ADDRESS_DIGITS);
    label.push(':');
    label
}

} // verus!
