//! Random colours for the squares to come.
//!
//! A colour channel is drawn as a fraction in `[0, 1)`: the low 23 bits of a
//! random word, read as a count of 2^-23 steps and rounded down to
//! millionths.

use vstd::prelude::*;
use crate::fixed::{Fixed, SCALE};

verus! {

/// Number of steps into which the unit interval is cut: 2^23.
pub const FRACTION_STEPS: u32 = 0x80_0000;

/// Whether every channel of `c` lies in `[0, 1)`.
pub open spec fn is_unit_color(c: [Fixed; 3]) -> bool {
    forall|i: int| 0 <= i < 3 ==> 0 <= (#[trigger] c[i])@ < SCALE
}

/// The fraction in `[0, 1)` that a random word stands for.
pub open spec fn spec_unit_fraction(word: u32) -> Fixed {
    Fixed { raw: (((word % FRACTION_STEPS) * SCALE) / (FRACTION_STEPS as int)) as i64 }
}

/// The colour that three random words stand for, channel by channel.
pub open spec fn spec_color_from_words(words: [u32; 3]) -> [Fixed; 3] {
    [
        spec_unit_fraction(words[0]),
        spec_unit_fraction(words[1]),
        spec_unit_fraction(words[2]),
    ]
}

/// Draws three words from the thread-local generator of the `rand` crate by
/// one call of `rand::random`.
///
/// Nothing is claimed of the words: any three may come back, and two calls
/// need not agree. `rand::random` panics if the generator cannot be seeded,
/// which happens when the system offers no entropy at all.
#[verifier::external_body]
fn random_words() -> (words: [u32; 3]) {
    rand::random::<[u32; 3]>()
}

/// Turns a random word into a fraction in `[0, 1)`.
pub fn unit_fraction(word: u32) -> (f: Fixed)
    ensures
        f == spec_unit_fraction(word),
        0 <= f@ < SCALE,
{
    let whole: u64 = FRACTION_STEPS as u64;
    let steps: u64 = word as u64 % whole;
    let scale: u64 = SCALE as u64;
    Fixed::from_raw(((steps * scale) / whole) as i64)
}

/// Turns three random words into a colour.
pub fn color_from_words(words: [u32; 3]) -> (c: [Fixed; 3])
    ensures
        c == spec_color_from_words(words),
        is_unit_color(c),
{
    [unit_fraction(words[0]), unit_fraction(words[1]), unit_fraction(words[2])]
}

/// Draws a random colour. Whatever words the generator hands out, every
/// channel lies in `[0, 1)`.
pub fn random_color() -> (c: [Fixed; 3])
    ensures
        is_unit_color(c),
{
    color_from_words(random_words())
}

} // verus!
