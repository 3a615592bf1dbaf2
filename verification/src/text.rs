//! Characters and strings: digits and numerals.

use vstd::prelude::*;
use vstd::std_specs::iter::IteratorSpec;
use vstd::string::StringExecFns;

verus! {

/// The characters of a string, in order.
pub fn chars_of(text: &str) -> (chars: Vec<char>)
    ensures
        chars@ == text@,
{
    let mut chars: Vec<char> = Vec::new();
    let mut rest = text.chars();
    proof {
        vstd::string::axiom_spec_iter(text);
    }
    loop
        invariant
            rest.obeys_prophetic_iter_laws(),
            rest.decrease() is Some,
            chars@ + rest.remaining() == text@,
        ensures
            chars@ == text@,
        decreases rest.decrease()->0,
    {
        let ghost before = rest;
        let next = rest.next();
        proof {
            vstd::string::next_postcondition(&before, &rest, next);
        }
        match next {
            Some(c) => {
                assert(chars@.push(c) + rest.remaining() =~= chars@ + before.remaining());
                chars.push(c);
            },
            None => {
                assert(chars@ + rest.remaining() =~= chars@);
                break ;
            },
        }
    }
    chars
}

/// The character that writes the digit `d` (below 36): `0`-`9`, then the
/// upper-case letters.
pub open spec fn digit_char(d: nat) -> char {
    if d < 10 {
        (0x30 + d) as char
    } else {
        (0x41 + d - 10) as char
    }
}

/// The value of `c` as a digit in the given radix (at most 36), if it is
/// one: `0`-`9` count 0-9 and the letters, in either case, count from 10.
pub open spec fn digit_of(c: char, radix: nat) -> Option<nat> {
    let n = c as nat;
    let value = if 0x30 <= n <= 0x39 {
        (n - 0x30) as nat
    } else if 0x61 <= n <= 0x7A {
        (n - 0x61 + 10) as nat
    } else if 0x41 <= n <= 0x5A {
        (n - 0x41 + 10) as nat
    } else {
        radix
    };
    if value < radix {
        Some(value)
    } else {
        None
    }
}

/// The number that a sequence of digits writes in the given radix, most
/// significant digit first. A character that is no digit counts as zero.
pub open spec fn numeral_value(digits: Seq<char>, radix: nat) -> nat
    decreases digits.len(),
{
    if digits.len() == 0 {
        0
    } else {
        numeral_value(digits.drop_last(), radix) * radix + match digit_of(digits.last(), radix) {
            Some(d) => d,
            None => 0,
        }
    }
}

/// Whether `digits` is a non-empty sequence of digits of the given radix.
pub open spec fn is_numeral(digits: Seq<char>, radix: nat) -> bool {
    &&& digits.len() > 0
    &&& forall|i: int| 0 <= i < digits.len() ==> (#[trigger] digit_of(digits[i], radix)) is Some
}

/// The decimal numeral of `n`, without leading zeros.
pub open spec fn decimal_text(n: nat) -> Seq<char>
    decreases n,
{
    if n < 10 {
        seq![digit_char(n)]
    } else {
        decimal_text(n / 10).push(digit_char(n % 10))
    }
}

/// The hexadecimal numeral of `n`, in upper case and without leading zeros.
pub open spec fn hexadecimal_text(n: nat) -> Seq<char>
    decreases n,
{
    if n < 16 {
        seq![digit_char(n)]
    } else {
        hexadecimal_text(n / 16).push(digit_char(n % 16))
    }
}

/// The value of `c` as a digit in the given radix, as `char::to_digit` has
/// it.
pub fn digit_value(c: char, radix: u32) -> (d: Option<u32>)
    requires
        radix <= 36,
    ensures
        d matches Some(v) ==> digit_of(c, radix as nat) == Some(v as nat),
        d is None ==> digit_of(c, radix as nat) is None,
{
    let n: u32 = c as u32;
    let value: u32 = if 0x30 <= n && n <= 0x39 {
        n - 0x30
    } else if 0x61 <= n && n <= 0x7A {
        n - 0x61 + 10
    } else if 0x41 <= n && n <= 0x5A {
        n - 0x41 + 10
    } else {
        radix
    };
    if value < radix {
        Some(value)
    } else {
        None
    }
}

/// The text of a digit below 16: one character, in upper case.
pub fn digit_str(d: u8) -> (text: &'static str)
    requires
        d < 16,
    ensures
        text@ == seq![digit_char(d as nat)],
{
    proof {
        reveal_strlit("0");
        reveal_strlit("1");
        reveal_strlit("2");
        reveal_strlit("3");
        reveal_strlit("4");
        reveal_strlit("5");
        reveal_strlit("6");
        reveal_strlit("7");
        reveal_strlit("8");
        reveal_strlit("9");
        reveal_strlit("A");
        reveal_strlit("B");
        reveal_strlit("C");
        reveal_strlit("D");
        reveal_strlit("E");
        reveal_strlit("F");
    }
    let text = match d {
        0 => "0",
        1 => "1",
        2 => "2",
        3 => "3",
        4 => "4",
        5 => "5",
        6 => "6",
        7 => "7",
        8 => "8",
        9 => "9",
        10 => "A",
        11 => "B",
        12 => "C",
        13 => "D",
        14 => "E",
        _ => "F",
    };
    assert(text@ =~= seq![digit_char(d as nat)]);
    text
}

/// Appends the decimal numeral of `n` to `out`.
pub fn push_decimal(out: &mut String, n: u64)
    ensures
        final(out)@ == old(out)@ + decimal_text(n as nat),
    decreases n,
{
    if n >= 10 {
        push_decimal(out, n / 10);
    }
    out.append(digit_str((n % 10) as u8));
    proof {
        let low = seq![digit_char((n % 10) as nat)];
        if n >= 10 {
            assert(decimal_text(n as nat) == decimal_text((n / 10) as nat) + low);
            assert(final(out)@ =~= old(out)@ + decimal_text((n / 10) as nat) + low);
        } else {
            assert(final(out)@ =~= old(out)@ + low);
        }
    }
}

} // verus!
