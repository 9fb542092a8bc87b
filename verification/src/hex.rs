//! Numbers in upper-case hexadecimal digits.

use vstd::prelude::*;
use vstd::string::{StrSliceExecFns, StringExecFns};

verus! {

/// The sixteen digits, in the order of their values.
pub open spec fn spec_hex_digits() -> Seq<char> {
    "0123456789ABCDEF"@
}

/// The two digits of a byte, the upper one first.
pub open spec fn spec_hex_byte(value: u8) -> Seq<char> {
    seq![spec_hex_digits()[value as int / 16], spec_hex_digits()[value as int % 16]]
}

/// The four digits of a word, the highest one first.
pub open spec fn spec_hex_word(value: u16) -> Seq<char> {
    spec_hex_byte((value / 256) as u8) + spec_hex_byte((value % 256) as u8)
}

/// Appends the digit of a value below 16.
fn append_hex_digit(text: &mut String, value: u8)
    requires
        value < 16,
    ensures
        final(text)@ == old(text)@.push(spec_hex_digits()[value as int]),
{
    let digits = "0123456789ABCDEF";
    proof {
        reveal_strlit("0123456789ABCDEF");
    }
    let position = value as usize;
    let digit = digits.substring_ascii(position, position + 1);
    text.append(digit);
    assert(text@ =~= old(text)@.push(spec_hex_digits()[value as int]));
}

/// Appends the two digits of a byte.
pub fn append_hex_byte(text: &mut String, value: u8)
    ensures
        final(text)@ == old(text)@ + spec_hex_byte(value),
{
    append_hex_digit(text, value / 16);
    append_hex_digit(text, value % 16);
    assert(text@ =~= old(text)@ + spec_hex_byte(value));
}

/// Appends the four digits of a word.
pub fn append_hex_word(text: &mut String, value: u16)
    ensures
        final(text)@ == old(text)@ + spec_hex_word(value),
{
    append_hex_byte(text, (value / 256) as u8);
    append_hex_byte(text, (value % 256) as u8);
    assert(text@ =~= old(text)@ + spec_hex_word(value));
}

} // verus!
