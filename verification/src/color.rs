//! The colour value and its packed 24-bit form.

use crate::text::{digit_char, digit_str};
use vstd::prelude::*;
use vstd::string::StringExecFns;

verus! {

/// Largest packed colour value: three channels of eight bits, no alpha.
pub const MAX_PACKED: u32 = 0x00FF_FFFF;

/// One zone's colour: three 8-bit channels.
#[derive(Clone, Copy, Debug, PartialEq, Eq, Structural)]
pub struct Color {
    pub r: u8,
    pub g: u8,
    pub b: u8,
}

impl Color {
    /// The colour as one integer: red in bits 16-23, green in bits 8-15,
    /// blue in bits 0-7.
    pub open spec fn packed(self) -> nat {
        (self.r as nat) * 0x1_0000 + (self.g as nat) * 0x100 + (self.b as nat)
    }

    /// The all-zero ("off") colour.
    pub open spec fn black() -> Color {
        Color { r: 0, g: 0, b: 0 }
    }
}

/// The colour whose packed form is the low 24 bits of `value`.
pub open spec fn channels_of(value: nat) -> Color {
    Color {
        r: ((value / 0x1_0000) % 0x100) as u8,
        g: ((value / 0x100) % 0x100) as u8,
        b: (value % 0x100) as u8,
    }
}

/// Packing a colour and splitting it again gives the colour back, and the
/// packed form never exceeds 24 bits.
pub proof fn lemma_channels_of_packed(c: Color)
    ensures
        c.packed() <= MAX_PACKED,
        channels_of(c.packed()) == c,
{
}

/// Splitting a 24-bit value and packing it again gives the value back.
pub proof fn lemma_packed_channels_of(value: nat)
    requires
        value <= MAX_PACKED,
    ensures
        channels_of(value).packed() == value,
{
}

/// Splits a raw value into its channels: red from bits 16-23, green from
/// bits 8-15, blue from bits 0-7. Bits above the 24th are ignored.
pub fn rgb_from_u32(value: u32) -> (c: Color)
    ensures
        c == channels_of(value as nat),
        value <= MAX_PACKED ==> c.packed() == value,
{
    let r: u32 = (value & 0x00FF_0000) >> 16;
    let g: u32 = (value & 0x0000_FF00) >> 8;
    let b: u32 = value & 0x0000_00FF;
    assert(r == (value / 0x1_0000) % 0x100) by (bit_vector)
        requires
            r == (value & 0x00FF_0000) >> 16,
    ;
    assert(g == (value / 0x100) % 0x100) by (bit_vector)
        requires
            g == (value & 0x0000_FF00) >> 8,
    ;
    assert(b == value % 0x100) by (bit_vector)
        requires
            b == value & 0x0000_00FF,
    ;
    proof {
        if value <= MAX_PACKED {
            lemma_packed_channels_of(value as nat);
        }
    }
    Color { r: r as u8, g: g as u8, b: b as u8 }
}

/// The text of a colour: `#`, then each channel as two upper-case
/// hexadecimal digits, red first.
pub open spec fn hex_text(c: Color) -> Seq<char> {
    seq![
        '#',
        digit_char((c.r / 16) as nat),
        digit_char((c.r % 16) as nat),
        digit_char((c.g / 16) as nat),
        digit_char((c.g % 16) as nat),
        digit_char((c.b / 16) as nat),
        digit_char((c.b % 16) as nat),
    ]
}

/// Writes a colour as `#RRGGBB`.
pub fn rgb_to_hex_string(color: Color) -> (text: String)
    ensures
        text@ == hex_text(color),
{
    let mut text = String::from_str("#");
    text.append(digit_str(color.r / 16));
    text.append(digit_str(color.r % 16));
    text.append(digit_str(color.g / 16));
    text.append(digit_str(color.g % 16));
    text.append(digit_str(color.b / 16));
    text.append(digit_str(color.b % 16));
    proof {
        reveal_strlit("#");
        assert(text@ =~= hex_text(color));
    }
    text
}

} // verus!
