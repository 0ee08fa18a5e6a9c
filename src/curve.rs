use vstd::prelude::*;

use crate::polynomial::CubicFunction;
use crate::screen::{column_of, row_of, translate_x, translate_y};

verus! {

/// Sample abscissas are counted in tenths of a world unit.
pub const TENTHS_PER_UNIT: i32 = 10;

/// First sample, in tenths: world x = −10.
pub const FIRST_SAMPLE: i32 = -100;

/// Last sample, in tenths: world x = +10.
pub const LAST_SAMPLE: i32 = 100;

/// A point on the screen, in pixels.
#[derive(Clone, Copy, Debug, PartialEq, Eq, Structural)]
pub struct Pixel {
    pub x: i32,
    pub y: i32,
}

/// A straight line between two screen points.
#[derive(Clone, Copy, Debug, PartialEq, Eq, Structural)]
pub struct Segment {
    pub from: Pixel,
    pub to: Pixel,
}

/// Where the curve's point at world x = k / 10 lands on the screen.
pub open spec fn curve_point(f: CubicFunction, k: int) -> Pixel {
    Pixel {
        x: column_of(k, TENTHS_PER_UNIT as int) as i32,
        y: row_of(f.value_scaled(k, TENTHS_PER_UNIT as int), 1000) as i32,
    }
}

/// The polyline piece drawn from the sample at k / 10 to the point one step further.
pub open spec fn curve_piece(f: CubicFunction, k: int) -> Segment {
    Segment { from: curve_point(f, k), to: curve_point(f, k + 1) }
}

/// With |k| <= 100 the value at k / 10, scaled by 1000, fits in an `i64`.
proof fn lemma_tenths_value_bound(f: CubicFunction, k: int)
    requires
        -100 <= k <= 100,
    ensures
        -0x4000_0000_0000_0000 < f.value_scaled(k, 10) < 0x4000_0000_0000_0000,
{
    let m: int = 0x8000_0000;
    crate::polynomial::lemma_mul_bound(f.a as int, k, m, 100);
    crate::polynomial::lemma_mul_bound(f.a * k, k, m * 100, 100);
    crate::polynomial::lemma_mul_bound(f.a * k * k, k, m * 100 * 100, 100);
    crate::polynomial::lemma_mul_bound(f.b as int, k, m, 100);
    crate::polynomial::lemma_mul_bound(f.b * k, k, m * 100, 100);
    crate::polynomial::lemma_mul_bound(f.c as int, k, m, 100);
}

/// The sample abscissas of the curve, in tenths of a world unit: −10 to
/// +10 in steps of 0.1, both ends included.
pub fn curve_samples() -> (r: Vec<i32>)
    ensures
        r@.len() == 201,
        forall|i: int| 0 <= i < r@.len() ==> r@[i] == FIRST_SAMPLE + i,
{
    let mut r: Vec<i32> = Vec::new();
    let mut k: i32 = FIRST_SAMPLE;
    while k <= LAST_SAMPLE
        invariant
            FIRST_SAMPLE <= k <= LAST_SAMPLE + 1,
            r@.len() == k - FIRST_SAMPLE,
            forall|i: int| 0 <= i < r@.len() ==> r@[i] == FIRST_SAMPLE + i,
        decreases LAST_SAMPLE + 1 - k,
    {
        r.push(k);
        k = k + 1;
    }
    r
}

fn curve_pixel(f: &CubicFunction, k: i32) -> (r: Pixel)
    requires
        -100 <= k <= 100,
    ensures
        r == curve_point(*f, k as int),
{
    proof {
        lemma_tenths_value_bound(*f, k as int);
    }
    let y: i128 = f.fx(k, TENTHS_PER_UNIT);
    Pixel { x: translate_x(k as i64, TENTHS_PER_UNIT as i64), y: translate_y(y as i64, 1000) }
}

/// The polyline that approximates `f` on the screen: one segment between
/// each two neighbouring samples of `curve_samples`, so that it runs from
/// x = −10 to x = +10.
pub fn curve_segments(f: &CubicFunction) -> (r: Vec<Segment>)
    ensures
        r@.len() == 200,
        forall|i: int| 0 <= i < r@.len() ==> r@[i] == curve_piece(*f, FIRST_SAMPLE + i),
{
    let samples = curve_samples();
    let mut r: Vec<Segment> = Vec::new();
    let mut i: usize = 0;
    while i + 1 < samples.len()
        invariant
            i <= 200,
            samples@.len() == 201,
            forall|j: int| 0 <= j < samples@.len() ==> samples@[j] == FIRST_SAMPLE + j,
            r@.len() == i,
            forall|j: int| 0 <= j < i ==> r@[j] == curve_piece(*f, FIRST_SAMPLE + j),
        decreases 200 - i,
    {
        let from = curve_pixel(f, samples[i]);
        let to = curve_pixel(f, samples[i + 1]);
        r.push(Segment { from, to });
        i = i + 1;
    }
    r
}

} // verus!
