//! Reading a colour from text.
//!
//! A colour is written as a hexadecimal numeral after `0x`, `0X` or `#`, as
//! a decimal numeral, or, where the text is no decimal numeral, as a
//! hexadecimal numeral without a prefix. A numeral is one digit or more and
//! nothing else: no sign, and no white space before, within or after it.

use crate::color::{
    channels_of, hex_text, lemma_channels_of_packed, lemma_packed_channels_of, rgb_from_u32, Color,
    MAX_PACKED,
};
use crate::text::{
    chars_of, decimal_text, digit_char, digit_of, digit_value, hexadecimal_text, is_numeral,
    numeral_value,
};
use vstd::prelude::*;
use vstd::string::StringExecFns;

verus! {

/// Why a text is no colour.
#[derive(Debug, Clone, PartialEq, Eq)]
pub enum ParseError {
    /// The text is not a numeral in any accepted form.
    Malformed { input: String },
    /// The text is a numeral, but of a value above 24 bits.
    OutOfRange { input: String },
}

/// What a run of characters says when read as a numeral.
#[derive(Debug, Clone, Copy, PartialEq, Eq, Structural)]
pub enum Reading {
    /// Not a numeral.
    Malformed,
    /// A numeral of this value, which fits in 24 bits.
    Value(u32),
    /// A numeral of a value above 24 bits.
    TooLarge,
}

/// The value of `s` read as a numeral of the given radix, or `None` where
/// it is no such numeral.
pub open spec fn numeral_reading(s: Seq<char>, radix: nat) -> Option<nat> {
    if is_numeral(s, radix) {
        Some(numeral_value(s, radix))
    } else {
        None
    }
}

/// The number that a text writes, by the accepted forms in their order of
/// precedence, or `None` where it fits none of them.
pub open spec fn color_reading(text: Seq<char>) -> Option<nat> {
    if text.len() >= 2 && text[0] == '0' && (text[1] == 'x' || text[1] == 'X') {
        numeral_reading(text.skip(2), 16)
    } else if text.len() >= 1 && text[0] == '#' {
        numeral_reading(text.skip(1), 16)
    } else if numeral_reading(text, 10) is Some {
        numeral_reading(text, 10)
    } else {
        numeral_reading(text, 16)
    }
}

/// A mathematical reading, cut to what 24 bits can hold.
pub open spec fn reading_of(value: Option<nat>) -> Reading {
    match value {
        None => Reading::Malformed,
        Some(v) => if v <= MAX_PACKED {
            Reading::Value(v as u32)
        } else {
            Reading::TooLarge
        },
    }
}

/// Whether `result` is what parsing `text` owes: the colour of the number
/// that the text writes, `OutOfRange` where that number is above 24 bits,
/// `Malformed` where the text writes none; either error with the text.
pub open spec fn is_parse_of(text: Seq<char>, result: Result<Color, ParseError>) -> bool {
    match color_reading(text) {
        Some(v) => if v <= MAX_PACKED {
            result == Ok::<Color, ParseError>(channels_of(v))
        } else {
            result matches Err(ParseError::OutOfRange { input }) && input@ == text
        },
        None => result matches Err(ParseError::Malformed { input }) && input@ == text,
    }
}

/// Whether a text parses to a colour.
pub open spec fn parses(text: Seq<char>) -> bool {
    color_reading(text) matches Some(v) && v <= MAX_PACKED
}

/// A numeral's value is its leading digits' value times the radix, plus
/// its last digit.
proof fn lemma_numeral_push(prefix: Seq<char>, c: char, radix: nat)
    requires
        digit_of(c, radix) is Some,
    ensures
        numeral_value(prefix.push(c), radix) == numeral_value(prefix, radix) * radix + digit_of(
            c,
            radix,
        )->0,
{
    assert(prefix.push(c).drop_last() =~= prefix);
}

/// Reads the characters of `chars` from `start` up to `end` as a numeral.
fn read_numeral(chars: &Vec<char>, start: usize, end: usize, radix: u32) -> (r: Reading)
    requires
        start <= end <= chars.len(),
        1 <= radix <= 36,
    ensures
        r == reading_of(numeral_reading(chars@.subrange(start as int, end as int), radix as nat)),
{
    let ghost digits = chars@.subrange(start as int, end as int);
    let mut i: usize = start;
    if i == end {
        return Reading::Malformed;
    }
    let mut acc: u32 = 0;
    let mut large = false;
    while i < end
        invariant
            start <= i <= end <= chars.len(),
            1 <= radix <= 36,
            digits == chars@.subrange(start as int, end as int),
            forall|k: int| 0 <= k < i - start ==> (#[trigger] digit_of(digits[k], radix as nat)) is Some,
            !large ==> acc == numeral_value(digits.take(i - start), radix as nat) && acc
                <= MAX_PACKED,
            large ==> numeral_value(digits.take(i - start), radix as nat) > MAX_PACKED,
        decreases end - i,
    {
        let ghost prefix = digits.take(i - start);
        let c = chars[i];
        assert(c == digits[i - start]);
        match digit_value(c, radix) {
            None => {
                assert(digit_of(digits[i - start], radix as nat) is None);
                return Reading::Malformed;
            },
            Some(d) => {
                proof {
                    lemma_numeral_push(prefix, c, radix as nat);
                    assert(digits.take(i - start + 1) =~= prefix.push(c));
                    assert(numeral_value(prefix, radix as nat) * radix >= numeral_value(
                        prefix,
                        radix as nat,
                    )) by (nonlinear_arith)
                        requires
                            radix >= 1,
                    ;
                }
                if !large {
                    assert(acc * radix <= 0xFF_FFFF * 36) by (nonlinear_arith)
                        requires
                            acc <= 0xFF_FFFF,
                            radix <= 36,
                    ;
                    let next: u32 = acc * radix + d;
                    if next > MAX_PACKED {
                        large = true;
                    } else {
                        acc = next;
                    }
                }
            },
        }
        i += 1;
    }
    assert(digits.take(end - start) =~= digits);
    if large {
        Reading::TooLarge
    } else {
        Reading::Value(acc)
    }
}

/// Reads a colour from text.
///
/// The forms are tried in this order: a hexadecimal numeral after `0x` or
/// `0X`; one after `#`; a decimal numeral; a hexadecimal numeral without a
/// prefix. The number is split into channels as `rgb_from_u32` does.
pub fn parse_color(input: &str) -> (result: Result<Color, ParseError>)
    ensures
        is_parse_of(input@, result),
{
    let chars = chars_of(input);
    let len = chars.len();
    let ghost t = input@;
    let reading = if len >= 2 && chars[0] == '0' && (chars[1] == 'x' || chars[1] == 'X') {
        assert(t.skip(2) =~= chars@.subrange(2, len as int));
        read_numeral(&chars, 2, len, 16)
    } else if len >= 1 && chars[0] == '#' {
        assert(t.skip(1) =~= chars@.subrange(1, len as int));
        read_numeral(&chars, 1, len, 16)
    } else {
        assert(t =~= chars@.subrange(0, len as int));
        match read_numeral(&chars, 0, len, 10) {
            Reading::Malformed => read_numeral(&chars, 0, len, 16),
            decimal => decimal,
        }
    };
    assert(reading == reading_of(color_reading(input@)));
    match reading {
        Reading::Value(value) => Ok(rgb_from_u32(value)),
        Reading::TooLarge => Err(ParseError::OutOfRange { input: String::from_str(input) }),
        Reading::Malformed => Err(ParseError::Malformed { input: String::from_str(input) }),
    }
}

/// Reading a colour's text gives the colour back: for every colour `c`,
/// parsing `#RRGGBB` as written for `c` yields `c`.
pub proof fn lemma_parse_of_hex_text(c: Color)
    ensures
        color_reading(hex_text(c)) == Some(c.packed()),
        is_parse_of(hex_text(c), Ok(c)),
{
    let t = hex_text(c);
    let d = t.skip(1);
    assert(is_numeral(d, 16));
    assert(d =~= seq![t[1], t[2], t[3], t[4], t[5], t[6]]);
    let d5 = seq![t[1], t[2], t[3], t[4], t[5]];
    let d4 = seq![t[1], t[2], t[3], t[4]];
    let d3 = seq![t[1], t[2], t[3]];
    let d2 = seq![t[1], t[2]];
    let d1 = seq![t[1]];
    let d0 = Seq::<char>::empty();
    assert(d =~= d5.push(t[6]));
    assert(d5 =~= d4.push(t[5]));
    assert(d4 =~= d3.push(t[4]));
    assert(d3 =~= d2.push(t[3]));
    assert(d2 =~= d1.push(t[2]));
    assert(d1 =~= d0.push(t[1]));
    lemma_numeral_push(d5, t[6], 16);
    lemma_numeral_push(d4, t[5], 16);
    lemma_numeral_push(d3, t[4], 16);
    lemma_numeral_push(d2, t[3], 16);
    lemma_numeral_push(d1, t[2], 16);
    lemma_numeral_push(d0, t[1], 16);
    assert(numeral_value(d0, 16) == 0);
    assert(numeral_value(d, 16) == c.packed());
    lemma_channels_of_packed(c);
}

/// Every character of a decimal numeral is one of `0`-`9`, and the numeral
/// reads as the number it was written for.
proof fn lemma_decimal_text(n: nat)
    ensures
        decimal_text(n).len() > 0,
        forall|i: int|
            0 <= i < decimal_text(n).len() ==> 0x30 <= (#[trigger] decimal_text(n)[i]) as nat
                <= 0x39,
        numeral_value(decimal_text(n), 10) == n,
    decreases n,
{
    if n < 10 {
        let t = decimal_text(n);
        assert(t.drop_last() =~= Seq::<char>::empty());
        assert(numeral_value(t.drop_last(), 10) == 0);
    } else {
        lemma_decimal_text(n / 10);
        lemma_numeral_push(decimal_text(n / 10), digit_char(n % 10), 10);
    }
}

/// A number's decimal numeral reads as that number, whatever its size.
pub proof fn lemma_reading_of_decimal_text(n: nat)
    ensures
        color_reading(decimal_text(n)) == Some(n),
{
    let t = decimal_text(n);
    lemma_decimal_text(n);
    assert(0x30 <= t[0] as nat <= 0x39);
    assert forall|i: int| 0 <= i < t.len() implies (#[trigger] digit_of(t[i], 10)) is Some by {
        assert(0x30 <= t[i] as nat <= 0x39);
    }
    if t.len() >= 2 {
        assert(0x30 <= t[1] as nat <= 0x39);
    }
}

/// Every character of a hexadecimal numeral is one of `0`-`9` and `A`-`F`,
/// and the numeral reads as the number it was written for.
proof fn lemma_hexadecimal_text(n: nat)
    ensures
        hexadecimal_text(n).len() > 0,
        forall|i: int|
            0 <= i < hexadecimal_text(n).len() ==> {
                let c = (#[trigger] hexadecimal_text(n)[i]) as nat;
                0x30 <= c <= 0x39 || 0x41 <= c <= 0x46
            },
        numeral_value(hexadecimal_text(n), 16) == n,
    decreases n,
{
    if n < 16 {
        let t = hexadecimal_text(n);
        assert(t.drop_last() =~= Seq::<char>::empty());
        assert(numeral_value(t.drop_last(), 16) == 0);
    } else {
        lemma_hexadecimal_text(n / 16);
        lemma_numeral_push(hexadecimal_text(n / 16), digit_char(n % 16), 16);
    }
}

/// A number's hexadecimal numeral reads as that number after each of the
/// prefixes `0x`, `0X` and `#`, whatever its size.
pub proof fn lemma_reading_of_hexadecimal_text(n: nat)
    ensures
        color_reading("0x"@ + hexadecimal_text(n)) == Some(n),
        color_reading("0X"@ + hexadecimal_text(n)) == Some(n),
        color_reading("#"@ + hexadecimal_text(n)) == Some(n),
{
    reveal_strlit("0x");
    reveal_strlit("0X");
    reveal_strlit("#");
    let d = hexadecimal_text(n);
    lemma_hexadecimal_text(n);
    assert forall|i: int| 0 <= i < d.len() implies (#[trigger] digit_of(d[i], 16)) is Some by {
        let c = d[i] as nat;
        assert(0x30 <= c <= 0x39 || 0x41 <= c <= 0x46);
    }
    let a = "0x"@ + d;
    assert(a.skip(2) =~= d);
    let b = "0X"@ + d;
    assert(b.skip(2) =~= d);
    let c = "#"@ + d;
    assert(c.skip(1) =~= d);
}

/// How many characters of a text are its prefix: two for `0x` and `0X`, one
/// for `#`, none else.
pub open spec fn prefix_len(text: Seq<char>) -> int {
    if text.len() >= 2 && text[0] == '0' && (text[1] == 'x' || text[1] == 'X') {
        2
    } else if text.len() >= 1 && text[0] == '#' {
        1
    } else {
        0
    }
}

/// A text that holds, behind its prefix, a character that is no hexadecimal
/// digit is no colour: a sign, white space or any other foreign character
/// makes the text malformed, wherever it stands.
pub proof fn lemma_foreign_character_is_malformed(text: Seq<char>, i: int)
    requires
        prefix_len(text) <= i < text.len(),
        digit_of(text[i], 16) is None,
    ensures
        color_reading(text) is None,
{
    let digits = text.skip(prefix_len(text));
    assert(digits[i - prefix_len(text)] == text[i]);
    assert(digit_of(text[i], 10) is None);
}

/// A text without a digit behind its prefix is no colour.
pub proof fn lemma_no_digit_is_malformed(text: Seq<char>)
    requires
        text.len() == prefix_len(text),
    ensures
        color_reading(text) is None,
{
}

/// Whether a text writes a number above 24 bits.
pub open spec fn is_out_of_range(text: Seq<char>) -> bool {
    color_reading(text) matches Some(v) && v > MAX_PACKED
}

/// Parsing a text that writes a number above 24 bits gives `OutOfRange`,
/// with the text.
pub proof fn lemma_parse_of_out_of_range(text: Seq<char>, result: Result<Color, ParseError>)
    requires
        is_out_of_range(text),
        is_parse_of(text, result),
    ensures
        result matches Err(ParseError::OutOfRange { input }) && input@ == text,
{
}

/// Every number above 24 bits is out of range, in decimal and after each
/// of the hexadecimal prefixes.
pub proof fn lemma_large_values_are_out_of_range(n: nat)
    requires
        n > MAX_PACKED,
    ensures
        is_out_of_range(decimal_text(n)),
        is_out_of_range("0x"@ + hexadecimal_text(n)),
        is_out_of_range("0X"@ + hexadecimal_text(n)),
        is_out_of_range("#"@ + hexadecimal_text(n)),
{
    lemma_reading_of_decimal_text(n);
    lemma_reading_of_hexadecimal_text(n);
}

/// Every number within 24 bits parses to its channels, in decimal, after
/// each of the hexadecimal prefixes, and as the text of its colour.
pub proof fn lemma_small_values_parse(n: nat)
    requires
        n <= MAX_PACKED,
    ensures
        is_parse_of(decimal_text(n), Ok(channels_of(n))),
        is_parse_of("0x"@ + hexadecimal_text(n), Ok(channels_of(n))),
        is_parse_of("0X"@ + hexadecimal_text(n), Ok(channels_of(n))),
        is_parse_of("#"@ + hexadecimal_text(n), Ok(channels_of(n))),
        is_parse_of(hex_text(channels_of(n)), Ok(channels_of(n))),
{
    lemma_reading_of_decimal_text(n);
    lemma_reading_of_hexadecimal_text(n);
    lemma_parse_of_hex_text(channels_of(n));
    lemma_packed_channels_of(n);
}

/// The decimal form and the `#RRGGBB` form of one value read alike.
pub proof fn lemma_decimal_and_hex_agree(c: Color)
    ensures
        color_reading(decimal_text(c.packed())) == color_reading(hex_text(c)),
{
    lemma_reading_of_decimal_text(c.packed());
    lemma_parse_of_hex_text(c);
}

/// Whether `k` is the place of the first text of `inputs` that is no colour.
pub open spec fn is_first_failure(inputs: Seq<String>, k: int) -> bool {
    &&& 0 <= k < inputs.len()
    &&& !parses(inputs[k]@)
    &&& forall|j: int| 0 <= j < k ==> parses(#[trigger] inputs[j]@)
}

/// Reads one colour from each text, in order, and stops at the first text
/// that is no colour, with that text's error.
pub fn parse_colors(inputs: &Vec<String>) -> (result: Result<Vec<Color>, ParseError>)
    ensures
        match result {
            Ok(colors) => {
                &&& colors.len() == inputs.len()
                &&& forall|i: int|
                    0 <= i < inputs.len() ==> is_parse_of(
                        #[trigger] inputs[i]@,
                        Ok::<Color, ParseError>(colors[i]),
                    )
            },
            Err(e) => exists|k: int|
                is_first_failure(inputs@, k) && is_parse_of(
                    #[trigger] inputs[k]@,
                    Err::<Color, ParseError>(e),
                ),
        },
{
    let mut colors: Vec<Color> = Vec::new();
    let mut i: usize = 0;
    while i < inputs.len()
        invariant
            i <= inputs.len(),
            colors.len() == i,
            forall|j: int|
                0 <= j < i ==> is_parse_of(#[trigger] inputs[j]@, Ok::<Color, ParseError>(colors[j])),
        decreases inputs.len() - i,
    {
        match parse_color(inputs[i].as_str()) {
            Ok(color) => {
                colors.push(color);
            },
            Err(e) => {
                assert(is_first_failure(inputs@, i as int));
                return Err(e);
            },
        }
        i += 1;
    }
    Ok(colors)
}

impl ParseError {
    /// The text that was refused.
    pub open spec fn input_text(self) -> Seq<char> {
        match self {
            ParseError::Malformed { input } => input@,
            ParseError::OutOfRange { input } => input@,
        }
    }

    /// The error's message, which names the text that was refused.
    pub open spec fn text(self) -> Seq<char> {
        match self {
            ParseError::Malformed { input } => "invalid color `"@ + input@
                + "`: expected 0xRRGGBB, #RRGGBB or a decimal number"@,
            ParseError::OutOfRange { input } => "color `"@ + input@
                + "` exceeds 24-bit RGB range (0x000000..=0xFFFFFF)"@,
        }
    }

    /// The error's message, which names the text that was refused.
    pub fn message(&self) -> (text: String)
        ensures
            text@ == self.text(),
    {
        match self {
            ParseError::Malformed { input } => {
                let mut text = String::from_str("invalid color `");
                text.append(input.as_str());
                text.append("`: expected 0xRRGGBB, #RRGGBB or a decimal number");
                text
            },
            ParseError::OutOfRange { input } => {
                let mut text = String::from_str("color `");
                text.append(input.as_str());
                text.append("` exceeds 24-bit RGB range (0x000000..=0xFFFFFF)");
                text
            },
        }
    }
}

} // verus!
