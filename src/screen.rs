use vstd::prelude::*;

verus! {

/// Width of the window, in pixels.
pub const SCREEN_WIDTH: i32 = 1280;

/// Height of the window, in pixels.
pub const SCREEN_HEIGHT: i32 = 960;

/// Pixels per world unit along x.
pub const X_SCALE: i32 = 20;

/// Pixels per world unit along y.
pub const Y_SCALE: i32 = 5;

/// Integer division rounding toward zero, as Rust's float-to-int cast truncates.
pub open spec fn trunc_div(n: int, d: int) -> int {
    if n >= 0 {
        n / d
    } else {
        -((-n) / d)
    }
}

/// The value clamped into `i32`, as Rust's float-to-int cast saturates.
pub open spec fn saturate(v: int) -> int {
    if v < i32::MIN {
        i32::MIN as int
    } else if v > i32::MAX {
        i32::MAX as int
    } else {
        v
    }
}

/// Pixel column of the world abscissa `num / den`.
pub open spec fn column_of(num: int, den: int) -> int {
    saturate(trunc_div(X_SCALE * num + (SCREEN_WIDTH / 2) * den, den))
}

/// Pixel row of the world ordinate `num / den`; world "up" is toward row 0.
pub open spec fn row_of(num: int, den: int) -> int {
    saturate(trunc_div(-Y_SCALE * num + (SCREEN_HEIGHT / 2) * den, den))
}

fn trunc_div_i128(n: i128, d: i128) -> (r: i128)
    requires
        d > 0,
        n > i128::MIN,
    ensures
        r == trunc_div(n as int, d as int),
{
    if n >= 0 {
        n / d
    } else {
        -((-n) / d)
    }
}

fn saturate_i128(v: i128) -> (r: i32)
    ensures
        r == saturate(v as int),
{
    if v < i32::MIN as i128 {
        i32::MIN
    } else if v > i32::MAX as i128 {
        i32::MAX
    } else {
        v as i32
    }
}

fn scaled_sum(k: i128, num: i64, c: i128, den: i64) -> (r: i128)
    requires
        -4096 <= k <= 4096,
        -4096 <= c <= 4096,
    ensures
        r == k * num + c * den,
        r > i128::MIN,
{
    proof {
        assert(-0x1000_0000_0000_0000_0000 <= k * num <= 0x1000_0000_0000_0000_0000) by (nonlinear_arith)
            requires
                -4096 <= k <= 4096,
                i64::MIN <= num <= i64::MAX,
        ;
        assert(-0x1000_0000_0000_0000_0000 <= c * den <= 0x1000_0000_0000_0000_0000) by (nonlinear_arith)
            requires
                -4096 <= c <= 4096,
                i64::MIN <= den <= i64::MAX,
        ;
    }
    k * (num as i128) + c * (den as i128)
}

/// Maps the world abscissa `num / den` to a pixel column: scaled by
/// `X_SCALE`, shifted to the screen's centre, truncated toward zero and
/// clamped into `i32`.
pub fn translate_x(num: i64, den: i64) -> (r: i32)
    requires
        den > 0,
    ensures
        r == column_of(num as int, den as int),
{
    let n: i128 = scaled_sum(X_SCALE as i128, num, (SCREEN_WIDTH / 2) as i128, den);
    saturate_i128(trunc_div_i128(n, den as i128))
}

/// Maps the world ordinate `num / den` to a pixel row: scaled by `Y_SCALE`,
/// inverted, shifted to the screen's centre, truncated toward zero and
/// clamped into `i32`.
pub fn translate_y(num: i64, den: i64) -> (r: i32)
    requires
        den > 0,
    ensures
        r == row_of(num as int, den as int),
{
    let n: i128 = scaled_sum(-(Y_SCALE as i128), num, (SCREEN_HEIGHT / 2) as i128, den);
    saturate_i128(trunc_div_i128(n, den as i128))
}

} // verus!
