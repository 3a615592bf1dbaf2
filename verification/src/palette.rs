//! Palettes: the colours of a run of zones, and the ways to make one.

use crate::color::{channels_of, rgb_from_u32, Color};
use vstd::prelude::*;

verus! {

/// How many zones the interactive palette has.
pub const COLOR_COUNT: usize = 8;

/// The channel value at step `index` of `last` on the way from `a` to `b`:
/// `a + (b - a) * index / last`, rounded to the nearest integer, a tie
/// going up. With `last == 0` there is one step only, and it is `a`.
pub open spec fn lerp(a: int, b: int, index: int, last: int) -> int {
    if last == 0 {
        a
    } else {
        (2 * (a * (last - index) + b * index) + last) / (2 * last)
    }
}

/// The gradient from `first` to `last_color` over `zones` zones.
pub open spec fn gradient_of(first: Color, last_color: Color, zones: nat) -> Seq<Color> {
    Seq::new(
        zones,
        |i: int|
            Color {
                r: lerp(first.r as int, last_color.r as int, i, zones - 1) as u8,
                g: lerp(first.g as int, last_color.g as int, i, zones - 1) as u8,
                b: lerp(first.b as int, last_color.b as int, i, zones - 1) as u8,
            },
    )
}

/// The palette of `zones` zones that repeats the packed colours of `table`.
pub open spec fn cycle_of(table: Seq<u32>, zones: nat) -> Seq<Color> {
    Seq::new(zones, |i: int| channels_of(table[i % (table.len() as int)] as nat))
}

/// The palette of `zones` zones that all have the colour `fill`.
pub open spec fn fill_of(fill: Color, zones: nat) -> Seq<Color> {
    Seq::new(zones, |i: int| fill)
}

/// An interpolated value lies between its endpoints, starts at the first
/// and ends at the second.
pub proof fn lemma_lerp_bounds(a: int, b: int, index: int, last: int)
    requires
        0 <= index <= last,
    ensures
        a <= b ==> a <= lerp(a, b, index, last) <= b,
        b <= a ==> b <= lerp(a, b, index, last) <= a,
        lerp(a, b, 0, last) == a,
        last > 0 ==> lerp(a, b, last, last) == b,
{
    if last > 0 {
        let den = 2 * last;
        let num = 2 * (a * (last - index) + b * index) + last;
        assert(num == a * den + (2 * (b - a) * index + last)) by (nonlinear_arith)
            requires
                den == 2 * last,
                num == 2 * (a * (last - index) + b * index) + last,
        ;
        assert(num == b * den + (2 * (a - b) * (last - index) + last)) by (nonlinear_arith)
            requires
                den == 2 * last,
                num == 2 * (a * (last - index) + b * index) + last,
        ;
        if a <= b {
            assert(a * den <= num && num < (b + 1) * den) by (nonlinear_arith)
                requires
                    a <= b,
                    0 <= index <= last,
                    0 < last,
                    den == 2 * last,
                    num == a * den + (2 * (b - a) * index + last),
                    num == b * den + (2 * (a - b) * (last - index) + last),
            ;
            lemma_div_between(num, den, a, b);
        }
        if b <= a {
            assert(b * den <= num && num < (a + 1) * den) by (nonlinear_arith)
                requires
                    b <= a,
                    0 <= index <= last,
                    0 < last,
                    den == 2 * last,
                    num == a * den + (2 * (b - a) * index + last),
                    num == b * den + (2 * (a - b) * (last - index) + last),
            ;
            lemma_div_between(num, den, b, a);
        }
        let num0 = 2 * (a * (last - 0) + b * 0) + last;
        assert(a * den <= num0 && num0 < (a + 1) * den) by (nonlinear_arith)
            requires
                0 < last,
                den == 2 * last,
                num0 == 2 * (a * (last - 0) + b * 0) + last,
        ;
        lemma_div_between(num0, den, a, a);
        let num1 = 2 * (a * (last - last) + b * last) + last;
        assert(b * den <= num1 && num1 < (b + 1) * den) by (nonlinear_arith)
            requires
                0 < last,
                den == 2 * last,
                num1 == 2 * (a * (last - last) + b * last) + last,
        ;
        lemma_div_between(num1, den, b, b);
    }
}

/// A quotient lies between `lo` and `hi` where the dividend lies between
/// their multiples of the divisor.
proof fn lemma_div_between(num: int, den: int, lo: int, hi: int)
    requires
        den > 0,
        lo * den <= num < (hi + 1) * den,
    ensures
        lo <= num / den <= hi,
{
    vstd::arithmetic::div_mod::lemma_fundamental_div_mod(num, den);
    vstd::arithmetic::div_mod::lemma_mod_bound(num, den);
    let q = num / den;
    assert(lo <= q) by (nonlinear_arith)
        requires
            den > 0,
            lo * den <= num,
            num == den * q + num % den,
            num % den < den,
    ;
    assert(q <= hi) by (nonlinear_arith)
        requires
            den > 0,
            num < (hi + 1) * den,
            num == den * q + num % den,
            0 <= num % den,
    ;
}

/// On the way from a lower value to a higher one no step goes down, and on
/// the way from a higher to a lower one no step goes up.
pub proof fn lemma_lerp_monotonic(a: int, b: int, i: int, j: int, last: int)
    requires
        0 <= i <= j <= last,
    ensures
        a <= b ==> lerp(a, b, i, last) <= lerp(a, b, j, last),
        b <= a ==> lerp(a, b, i, last) >= lerp(a, b, j, last),
{
    if last > 0 {
        let den = 2 * last;
        let ni = 2 * (a * (last - i) + b * i) + last;
        let nj = 2 * (a * (last - j) + b * j) + last;
        assert(nj - ni == 2 * (b - a) * (j - i)) by (nonlinear_arith)
            requires
                ni == 2 * (a * (last - i) + b * i) + last,
                nj == 2 * (a * (last - j) + b * j) + last,
        ;
        if a <= b {
            assert(ni <= nj) by (nonlinear_arith)
                requires
                    nj - ni == 2 * (b - a) * (j - i),
                    a <= b,
                    i <= j,
            ;
            vstd::arithmetic::div_mod::lemma_div_is_ordered(ni, nj, den);
        }
        if b <= a {
            assert(nj <= ni) by (nonlinear_arith)
                requires
                    nj - ni == 2 * (b - a) * (j - i),
                    b <= a,
                    i <= j,
            ;
            vstd::arithmetic::div_mod::lemma_div_is_ordered(nj, ni, den);
        }
    }
}

/// One channel of a gradient: the value at step `index` of `last` on the
/// way from `a` to `b`, rounded to the nearest integer, a tie going up.
pub fn lerp_channel(a: u8, b: u8, index: usize, last: usize) -> (value: u8)
    requires
        index <= last,
    ensures
        value == lerp(a as int, b as int, index as int, last as int),
        a <= b ==> a <= value <= b,
        b <= a ==> b <= value <= a,
{
    proof {
        lemma_lerp_bounds(a as int, b as int, index as int, last as int);
    }
    if last == 0 {
        return a;
    }
    let wa: u128 = a as u128;
    let wb: u128 = b as u128;
    let wi: u128 = index as u128;
    let wl: u128 = last as u128;
    assert(wa * (wl - wi) <= 255 * 0xFFFF_FFFF_FFFF_FFFF) by (nonlinear_arith)
        requires
            wa <= 255,
            wi <= wl <= 0xFFFF_FFFF_FFFF_FFFF,
    ;
    assert(wb * wi <= 255 * 0xFFFF_FFFF_FFFF_FFFF) by (nonlinear_arith)
        requires
            wb <= 255,
            wi <= wl <= 0xFFFF_FFFF_FFFF_FFFF,
    ;
    let num: u128 = 2 * (wa * (wl - wi) + wb * wi) + wl;
    let value: u128 = num / (2 * wl);
    value as u8
}

/// The gradient between two colours: each channel interpolated on its own
/// from `first`, at zone 0, to `last_color`, at the last zone.
pub fn gradient(first: Color, last_color: Color, zones: usize) -> (palette: Vec<Color>)
    ensures
        palette@ == gradient_of(first, last_color, zones as nat),
{
    let mut palette: Vec<Color> = Vec::new();
    let mut i: usize = 0;
    while i < zones
        invariant
            i <= zones,
            palette@ == gradient_of(first, last_color, zones as nat).take(i as int),
        decreases zones - i,
    {
        let color = Color {
            r: lerp_channel(first.r, last_color.r, i, zones - 1),
            g: lerp_channel(first.g, last_color.g, i, zones - 1),
            b: lerp_channel(first.b, last_color.b, i, zones - 1),
        };
        palette.push(color);
        assert(palette@ =~= gradient_of(first, last_color, zones as nat).take(i + 1));
        i += 1;
    }
    assert(palette@ =~= gradient_of(first, last_color, zones as nat));
    palette
}

/// The palette of `zones` zones that repeats the packed colours of `table`
/// from its start.
pub fn cycle(table: &[u32], zones: usize) -> (palette: Vec<Color>)
    requires
        table@.len() > 0,
    ensures
        palette@ == cycle_of(table@, zones as nat),
{
    let mut palette: Vec<Color> = Vec::new();
    let mut i: usize = 0;
    while i < zones
        invariant
            i <= zones,
            table@.len() > 0,
            palette@ == cycle_of(table@, zones as nat).take(i as int),
        decreases zones - i,
    {
        let value = table[i % table.len()];
        palette.push(rgb_from_u32(value));
        assert(palette@ =~= cycle_of(table@, zones as nat).take(i + 1));
        i += 1;
    }
    assert(palette@ =~= cycle_of(table@, zones as nat));
    palette
}

/// The palette of `zones` zones of one colour.
pub fn fill(color: Color, zones: usize) -> (palette: Vec<Color>)
    ensures
        palette@ == fill_of(color, zones as nat),
{
    let mut palette: Vec<Color> = Vec::new();
    let mut i: usize = 0;
    while i < zones
        invariant
            i <= zones,
            palette@ == fill_of(color, zones as nat).take(i as int),
        decreases zones - i,
    {
        palette.push(color);
        assert(palette@ =~= fill_of(color, zones as nat).take(i + 1));
        i += 1;
    }
    assert(palette@ =~= fill_of(color, zones as nat));
    palette
}

/// The palette that switches `zones` zones off: every channel zero.
pub fn blackout(zones: usize) -> (palette: Vec<Color>)
    ensures
        palette@ == fill_of(Color::black(), zones as nat),
{
    fill(Color { r: 0, g: 0, b: 0 }, zones)
}

/// In a gradient, a channel that is no higher at the first colour than at
/// the last never falls from one zone to the next, and one that is no
/// lower never rises.
pub proof fn lemma_gradient_monotonic(first: Color, last_color: Color, zones: nat, i: int, j: int)
    requires
        0 <= i <= j < zones,
    ensures
        gradient_of(first, last_color, zones).len() == zones,
        first.r <= last_color.r ==> gradient_of(first, last_color, zones)[i].r <= gradient_of(
            first,
            last_color,
            zones,
        )[j].r,
        first.g <= last_color.g ==> gradient_of(first, last_color, zones)[i].g <= gradient_of(
            first,
            last_color,
            zones,
        )[j].g,
        first.b <= last_color.b ==> gradient_of(first, last_color, zones)[i].b <= gradient_of(
            first,
            last_color,
            zones,
        )[j].b,
        first.r >= last_color.r ==> gradient_of(first, last_color, zones)[i].r >= gradient_of(
            first,
            last_color,
            zones,
        )[j].r,
        first.g >= last_color.g ==> gradient_of(first, last_color, zones)[i].g >= gradient_of(
            first,
            last_color,
            zones,
        )[j].g,
        first.b >= last_color.b ==> gradient_of(first, last_color, zones)[i].b >= gradient_of(
            first,
            last_color,
            zones,
        )[j].b,
{
    let last = zones - 1;
    lemma_lerp_bounds(first.r as int, last_color.r as int, i, last);
    lemma_lerp_bounds(first.r as int, last_color.r as int, j, last);
    lemma_lerp_bounds(first.g as int, last_color.g as int, i, last);
    lemma_lerp_bounds(first.g as int, last_color.g as int, j, last);
    lemma_lerp_bounds(first.b as int, last_color.b as int, i, last);
    lemma_lerp_bounds(first.b as int, last_color.b as int, j, last);
    lemma_lerp_monotonic(first.r as int, last_color.r as int, i, j, last);
    lemma_lerp_monotonic(first.g as int, last_color.g as int, i, j, last);
    lemma_lerp_monotonic(first.b as int, last_color.b as int, i, j, last);
}

/// A gradient starts at its first colour and, over two zones or more, ends
/// at its last.
pub proof fn lemma_gradient_ends(first: Color, last_color: Color, zones: nat)
    requires
        zones > 0,
    ensures
        gradient_of(first, last_color, zones)[0] == first,
        zones > 1 ==> gradient_of(first, last_color, zones)[zones - 1] == last_color,
{
    let last = zones - 1;
    lemma_lerp_bounds(first.r as int, last_color.r as int, 0, last);
    lemma_lerp_bounds(first.g as int, last_color.g as int, 0, last);
    lemma_lerp_bounds(first.b as int, last_color.b as int, 0, last);
}

/// The built-in palettes.
#[derive(Clone, Copy, Debug, PartialEq, Eq, Structural)]
pub enum Preset {
    Spectrum,
    Ember,
    Matrix,
    Azure,
    Void,
    NeonCity,
    SolarFlare,
    Abyss,
    Canopy,
    Dreamscape,
}

/// The one colour of the ember palette.
pub const PRESET_EMBER: u32 = 0xF2662B;

/// The packed colours of the spectrum palette.
pub const PRESET_SPECTRUM: [u32; 8] = [
    0xFF0000,
    0xFF7F00,
    0xFFFF00,
    0x00FF00,
    0x0000FF,
    0x4B0082,
    0x9400D3,
    0xFFFFFF,
];

/// The packed colours of the matrix palette.
pub const PRESET_MATRIX: [u32; 8] = [
    0x00FF66,
    0x00CC44,
    0x009933,
    0x006622,
    0x00FF99,
    0x00CC66,
    0x009944,
    0x006633,
];

/// The packed colours of the azure palette.
pub const PRESET_AZURE: [u32; 8] = [
    0x0C0CFF,
    0x1A1AFF,
    0x2B2BFF,
    0x3C3CFF,
    0x1A4FFF,
    0x2E5FFF,
    0x4370FF,
    0x5880FF,
];

/// The packed colours of the void palette.
pub const PRESET_VOID: [u32; 8] = [
    0x050505,
    0x0A0A0A,
    0x101010,
    0x161616,
    0x101010,
    0x0A0A0A,
    0x050505,
    0x080808,
];

/// The packed colours of the neon city palette.
pub const PRESET_NEON_CITY: [u32; 8] = [
    0xFF00FF,
    0x00FFFF,
    0x9400D3,
    0xFF0099,
    0x00CCFF,
    0x8A2BE2,
    0xFF1493,
    0x00BFFF,
];

/// The packed colours of the solar flare palette.
pub const PRESET_SOLAR_FLARE: [u32; 8] = [
    0xFF4500,
    0xFF8C00,
    0xFFA500,
    0xFFD700,
    0xFF6347,
    0xFF7F50,
    0xFFD700,
    0xFFFF00,
];

/// The packed colours of the abyss palette.
pub const PRESET_ABYSS: [u32; 8] = [
    0x000080,
    0x00008B,
    0x191970,
    0x0000CD,
    0x4169E1,
    0x0000FF,
    0x1E90FF,
    0x00BFFF,
];

/// The packed colours of the canopy palette.
pub const PRESET_CANOPY: [u32; 8] = [
    0x006400,
    0x228B22,
    0x32CD32,
    0x90EE90,
    0x008000,
    0x6B8E23,
    0x556B2F,
    0x8FBC8F,
];

/// The packed colours of the dreamscape palette.
pub const PRESET_DREAMSCAPE: [u32; 8] = [
    0xFFB6C1,
    0xFF69B4,
    0xE6E6FA,
    0xD8BFD8,
    0xDDA0DD,
    0xEE82EE,
    0xFFC0CB,
    0xFFA07A,
];

impl Preset {
    /// The packed colours that the preset repeats over the zones.
    pub open spec fn table(self) -> Seq<u32> {
        match self {
            Preset::Ember => seq![PRESET_EMBER],
            Preset::Spectrum => PRESET_SPECTRUM@,
            Preset::Matrix => PRESET_MATRIX@,
            Preset::Azure => PRESET_AZURE@,
            Preset::Void => PRESET_VOID@,
            Preset::NeonCity => PRESET_NEON_CITY@,
            Preset::SolarFlare => PRESET_SOLAR_FLARE@,
            Preset::Abyss => PRESET_ABYSS@,
            Preset::Canopy => PRESET_CANOPY@,
            Preset::Dreamscape => PRESET_DREAMSCAPE@,
        }
    }
}

/// The colours of a built-in palette over `zones` zones: the preset's
/// table, repeated from its start.
pub fn preset_palette(preset: Preset, zones: usize) -> (palette: Vec<Color>)
    ensures
        palette@ == cycle_of(preset.table(), zones as nat),
{
    match preset {
        Preset::Ember => cycle(&[PRESET_EMBER], zones),
        Preset::Spectrum => cycle(&PRESET_SPECTRUM, zones),
        Preset::Matrix => cycle(&PRESET_MATRIX, zones),
        Preset::Azure => cycle(&PRESET_AZURE, zones),
        Preset::Void => cycle(&PRESET_VOID, zones),
        Preset::NeonCity => cycle(&PRESET_NEON_CITY, zones),
        Preset::SolarFlare => cycle(&PRESET_SOLAR_FLARE, zones),
        Preset::Abyss => cycle(&PRESET_ABYSS, zones),
        Preset::Canopy => cycle(&PRESET_CANOPY, zones),
        Preset::Dreamscape => cycle(&PRESET_DREAMSCAPE, zones),
    }
}

} // verus!
