//! Pixel colors and the flag-strip change detector.
//!
//! The flag strip is a thin vertical column of pixels above the first item
//! row. Scrolling the list shifts the strip's color sequence, so comparing a
//! fresh sample against a reference sample detects whether the list is still
//! aligned at a row boundary.

use vstd::prelude::*;

verus! {

/// One 8-bit RGB pixel.
#[derive(Clone, Copy, Debug, PartialEq, Eq, Structural)]
pub struct Rgb {
    pub r: u8,
    pub g: u8,
    pub b: u8,
}

/// Two colors within this distance of each other count as the same when the
/// flag strip is compared against its reference sample.
pub const FLAG_COLOR_DISTANCE_LIMIT: u32 = 10;

/// Distance between two colors: the sum of the absolute per-channel
/// differences.
pub open spec fn spec_color_distance(a: Rgb, b: Rgb) -> int {
    abs_diff(a.r as int, b.r as int) + abs_diff(a.g as int, b.g as int) + abs_diff(
        a.b as int,
        b.b as int,
    )
}

pub open spec fn abs_diff(a: int, b: int) -> int {
    if a >= b {
        a - b
    } else {
        b - a
    }
}

/// Sum of the absolute per-channel differences of two colors.
pub fn color_distance(a: &Rgb, b: &Rgb) -> (d: u32)
    ensures
        d == spec_color_distance(*a, *b),
{
    let dr: u32 = if a.r >= b.r {
        (a.r - b.r) as u32
    } else {
        (b.r - a.r) as u32
    };
    let dg: u32 = if a.g >= b.g {
        (a.g - b.g) as u32
    } else {
        (b.g - a.g) as u32
    };
    let db: u32 = if a.b >= b.b {
        (a.b - b.b) as u32
    } else {
        (b.b - a.b) as u32
    };
    dr + dg + db
}

/// The strip still counts as aligned when any scanline of the current sample
/// is within `FLAG_COLOR_DISTANCE_LIMIT` of the same scanline of the
/// reference. The match is deliberately permissive: a one-row scroll moves
/// the hairline gap by only a few pixels, and the surrounding pixels differ
/// sharply, so a single surviving scanline is strong evidence of alignment.
pub open spec fn spec_flag_matches(current: Seq<Rgb>, reference: Seq<Rgb>) -> bool {
    exists|y: int|
        0 <= y < current.len() && y < reference.len() && spec_color_distance(
            current[y],
            reference[y],
        ) < FLAG_COLOR_DISTANCE_LIMIT
}

/// Returns true iff some scanline of `current` is within the color-distance
/// limit of the same scanline of `reference`.
pub fn flag_matches(current: &Vec<Rgb>, reference: &Vec<Rgb>) -> (r: bool)
    ensures
        r == spec_flag_matches(current@, reference@),
{
    let n: usize = if current.len() <= reference.len() {
        current.len()
    } else {
        reference.len()
    };
    let mut y: usize = 0;
    while y < n
        invariant
            n <= current.len(),
            n <= reference.len(),
            n == vstd::math::min(current.len() as int, reference.len() as int),
            y <= n,
            forall|i: int|
                0 <= i < y ==> spec_color_distance(current@[i], reference@[i])
                    >= FLAG_COLOR_DISTANCE_LIMIT,
        decreases n - y,
    {
        if color_distance(&current[y], &reference[y]) < FLAG_COLOR_DISTANCE_LIMIT {
            return true;
        }
        y = y + 1;
    }
    false
}

/// A sample always matches itself, provided it has at least one scanline: a
/// color is at distance zero from itself. (An empty sample matches nothing,
/// itself included, since no scanline exists to witness the match.)
pub proof fn lemma_flag_matches_reflexive(sample: Seq<Rgb>)
    requires
        sample.len() > 0,
    ensures
        spec_flag_matches(sample, sample),
{
    assert(spec_color_distance(sample[0], sample[0]) == 0);
}

} // verus!
