//! The source of chance behind the random palette.

use crate::color::Color;
use rand::rngs::StdRng;
use rand::{Rng, SeedableRng};
use vstd::prelude::*;

verus! {

/// rand's `StdRng`, its standard seedable generator. Nothing is known of
/// its state.
#[verifier::external_type_specification]
#[verifier::external_body]
pub struct ExStdRng(StdRng);

/// A generator of random channel values. It is handed to whatever needs
/// chance, so that a fixed seed gives the same palettes again.
pub struct RandomSource {
    rng: StdRng,
}

/// `SeedableRng::seed_from_u64` of rand, for its standard generator: a
/// generator whose state is spread from the seed.
#[verifier::external_body]
fn seeded_rng(seed: u64) -> StdRng {
    StdRng::seed_from_u64(seed)
}

/// `Rng::gen_range` of rand over the whole range of a channel, `0..=255`:
/// the next value that the generator draws. The range is not empty, so the
/// call does not panic; nothing else is known of the value.
#[verifier::external_body]
fn random_channel(rng: &mut StdRng) -> u8 {
    rng.gen_range(0..=255)
}

impl RandomSource {
    /// A source that draws the sequence of values belonging to `seed`.
    pub fn seeded(seed: u64) -> RandomSource {
        RandomSource { rng: seeded_rng(seed) }
    }

    /// Draws one colour: red, green and blue in this order.
    pub fn next_color(&mut self) -> Color {
        let r = random_channel(&mut self.rng);
        let g = random_channel(&mut self.rng);
        let b = random_channel(&mut self.rng);
        Color { r, g, b }
    }
}

/// A palette of `zones` zones of random colours, each channel drawn on its
/// own, zone by zone.
pub fn random_palette(source: &mut RandomSource, zones: usize) -> (palette: Vec<Color>)
    ensures
        palette.len() == zones,
{
    let mut palette: Vec<Color> = Vec::new();
    let mut i: usize = 0;
    while i < zones
        invariant
            i <= zones,
            palette.len() == i,
        decreases zones - i,
    {
        let color = source.next_color();
        palette.push(color);
        i += 1;
    }
    palette
}

} // verus!
