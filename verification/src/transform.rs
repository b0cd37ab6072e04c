//! The view transform: how zooming, panning and resizing change the scale,
//! translation and line width of a drawable.

use vstd::prelude::*;
use crate::fixed::{add_spec, fixed_mul, mul_div, mul_div_spec, mul_spec, sat, sat_add, sat_sub, saturate, sub_spec, Point2d, UNIT};
use crate::pipelines::line::LineUniform;

verus! {

/// What one notch of the scroll wheel adds to or takes from the zoom factor.
pub const ZOOM_BASE: i64 = 50_000_000;

/// Smallest zoom factor that a data series can have.
pub const MIN_SCALE: i64 = 1_000_000;

/// Largest zoom factor that a data series can have.
pub const MAX_SCALE: i64 = 1_000_000_000_000;

/// Whether `scale` is a zoom factor that a data series can have.
pub open spec fn scale_in_range(scale: Point2d) -> bool {
    &&& MIN_SCALE <= scale.x <= MAX_SCALE
    &&& MIN_SCALE <= scale.y <= MAX_SCALE
}

/// The factor by which a scroll of `delta` multiplies the scale:
/// `delta + 0.05` for a scroll up or none, `1 - |delta| * 0.05` for a scroll
/// down.
pub open spec fn zoom_factor(delta: int) -> int {
    if delta >= 0 {
        add_spec(delta, ZOOM_BASE as int)
    } else {
        sub_spec(UNIT as int, mul_spec(sat(-delta), ZOOM_BASE as int))
    }
}

/// The uniform block `u` zoomed by `factor`: the scale is multiplied by the
/// factor, and the line width by `2 - factor`, which keeps strokes from
/// growing with the zoom.
pub open spec fn zoomed(u: LineUniform, factor: int) -> LineUniform {
    LineUniform {
        color: u.color,
        scale: Point2d {
            x: mul_spec(u.scale.x as int, factor) as i64,
            y: mul_spec(u.scale.y as int, factor) as i64,
        },
        translate: u.translate,
        line_scale: Point2d {
            x: mul_spec(u.line_scale.x as int, sub_spec(2 * UNIT, factor)) as i64,
            y: mul_spec(u.line_scale.y as int, sub_spec(2 * UNIT, factor)) as i64,
        },
    }
}

/// How far a pointer movement of `delta` pixels moves the view, in
/// normalized device space: twice the fraction of the screen that the
/// pointer crossed, with the vertical direction flipped (pixels count
/// downward, device coordinates upward).
pub open spec fn pan_shift(delta: Point2d, width: u32, height: u32) -> Point2d {
    Point2d {
        x: mul_div_spec(delta.x as int, 2, width as int) as i64,
        y: mul_div_spec(delta.y as int, -2, height as int) as i64,
    }
}

/// The uniform block `u` moved by `shift`.
pub open spec fn panned(u: LineUniform, shift: Point2d) -> LineUniform {
    LineUniform {
        color: u.color,
        scale: u.scale,
        translate: Point2d {
            x: add_spec(u.translate.x as int, shift.x as int) as i64,
            y: add_spec(u.translate.y as int, shift.y as int) as i64,
        },
        line_scale: u.line_scale,
    }
}

/// The part of an extent of `pixels` pixels that lies inside a margin of
/// `margin` pixels on either side, as a fraction of the extent.
pub open spec fn inset_scale(pixels: u32, margin: u32) -> int {
    mul_div_spec(pixels - 2 * margin, UNIT as int, pixels as int)
}

/// A width of `pixels` pixels in normalized device units, for a pixel of
/// `pixel_scale` units.
pub open spec fn line_width(pixels: u32, pixel_scale: int) -> int {
    sat(pixels * pixel_scale)
}

/// Computes the zoom factor of a scroll.
pub fn zoom_factor_of(delta: i64) -> (factor: i64)
    ensures
        factor == zoom_factor(delta as int),
{
    if delta >= 0 {
        sat_add(delta, ZOOM_BASE)
    } else {
        let magnitude: i64 = saturate(-(delta as i128));
        sat_sub(UNIT, fixed_mul(magnitude, ZOOM_BASE))
    }
}

/// Zooms one uniform block.
pub fn zoom_uniform(u: LineUniform, factor: i64) -> (r: LineUniform)
    ensures
        r == zoomed(u, factor as int),
{
    let thin: i64 = sat_sub(2_000_000_000, factor);
    LineUniform {
        color: u.color,
        scale: Point2d { x: fixed_mul(u.scale.x, factor), y: fixed_mul(u.scale.y, factor) },
        translate: u.translate,
        line_scale: Point2d {
            x: fixed_mul(u.line_scale.x, thin),
            y: fixed_mul(u.line_scale.y, thin),
        },
    }
}

/// Computes how far a pointer movement moves the view.
pub fn pan_shift_of(delta: Point2d, width: u32, height: u32) -> (shift: Point2d)
    ensures
        shift == pan_shift(delta, width, height),
{
    Point2d { x: mul_div(delta.x, 2, width as i64), y: mul_div(delta.y, -2, height as i64) }
}

/// Moves one uniform block.
pub fn pan_uniform(u: LineUniform, shift: Point2d) -> (r: LineUniform)
    ensures
        r == panned(u, shift),
{
    LineUniform {
        color: u.color,
        scale: u.scale,
        translate: Point2d {
            x: sat_add(u.translate.x, shift.x),
            y: sat_add(u.translate.y, shift.y),
        },
        line_scale: u.line_scale,
    }
}

/// Computes the fraction of an extent that lies inside the margin.
pub fn inset_scale_of(pixels: u32, margin: u32) -> (r: i64)
    requires
        pixels > 2 * margin,
    ensures
        r == inset_scale(pixels, margin),
{
    mul_div((pixels - 2 * margin) as i64, UNIT, pixels as i64)
}

/// Computes a pixel width in normalized device units.
pub fn line_width_of(pixels: u32, pixel_scale: i64) -> (r: i64)
    ensures
        r == line_width(pixels, pixel_scale as int),
{
    assert(-0x8000_0000_0000_0000_0000_0000 <= pixels * pixel_scale
        <= 0x8000_0000_0000_0000_0000_0000) by (nonlinear_arith)
        requires
            0 <= pixels <= 0xffff_ffff,
            -0x8000_0000_0000_0000 <= pixel_scale <= 0x8000_0000_0000_0000,
    ;
    saturate((pixels as i128) * (pixel_scale as i128))
}

proof fn lemma_floor_bounds(n: int, d: int)
    requires
        d > 0,
    ensures
        d * (n / d) <= n < d * (n / d) + d,
{
    vstd::arithmetic::div_mod::lemma_fundamental_div_mod(n, d);
    vstd::arithmetic::div_mod::lemma_mod_bound(n, d);
}

proof fn lemma_factors_positive(scale: int, first: int, second: int)
    requires
        0 < scale,
        0 < mul_spec(scale, first),
        -(UNIT * UNIT) <= 1_000_000 * (first * second - UNIT * UNIT),
    ensures
        0 < first,
        0 < second,
{
    lemma_floor_bounds(scale * first, UNIT as int);
    assert(first > 0) by (nonlinear_arith)
        requires
            (scale * first) / (UNIT as int) > 0,
            UNIT * ((scale * first) / (UNIT as int)) <= scale * first,
            scale > 0,
    ;
    assert(second > 0) by (nonlinear_arith)
        requires
            first > 0,
            -(UNIT * UNIT) <= 1_000_000 * (first * second - UNIT * UNIT),
    ;
}

proof fn lemma_scale_returns(scale: int, first: int, second: int)
    requires
        MIN_SCALE <= scale <= MAX_SCALE,
        0 < first,
        0 < second,
        MIN_SCALE <= mul_spec(scale, first) <= MAX_SCALE,
        -(UNIT * UNIT) <= 1_000_000 * (first * second - UNIT * UNIT) <= UNIT * UNIT,
    ensures
        -scale <= 100_000 * (mul_spec(mul_spec(scale, first), second) - scale) <= scale,
{
    let u: int = UNIT as int;
    let uu = u * u;
    let s1 = (scale * first) / u;
    lemma_floor_bounds(scale * first, u);
    assert(s1 == mul_spec(scale, first));
    let s2 = (s1 * second) / u;
    lemma_floor_bounds(s1 * second, u);
    let p = first * second;
    let x = scale * p;
    let c = uu * scale;
    let a = uu * s2;
    let b = u * second;
    // u * s1 <= scale * first < u * s1 + u, multiplied by second
    assert(u * (s1 * second) <= x && x < u * (s1 * second) + b) by (nonlinear_arith)
        requires
            u * s1 <= scale * first,
            scale * first < u * s1 + u,
            second > 0,
            p == first * second,
            x == scale * p,
            b == u * second,
    ;
    // u * s2 <= s1 * second < u * s2 + u, multiplied by u
    assert(a <= u * (s1 * second) && u * (s1 * second) < a + uu) by (nonlinear_arith)
        requires
            u * s2 <= s1 * second,
            s1 * second < u * s2 + u,
            u > 0,
            a == u * u * s2,
            uu == u * u,
    ;
    // the product of the factors is within a millionth of one
    assert(1_000_000 * x <= 1_000_001 * c && 1_000_000 * x >= 999_999 * c) by (nonlinear_arith)
        requires
            -uu <= 1_000_000 * (p - uu) <= uu,
            scale > 0,
            x == scale * p,
            c == uu * scale,
    ;
    // the second factor is small against the scale: the first zoom kept
    // the scale above the lower limit
    assert(MIN_SCALE * b <= x) by (nonlinear_arith)
        requires
            u * s1 <= scale * first,
            s1 >= MIN_SCALE,
            second > 0,
            b == u * second,
            x == scale * (first * second),
            u > 0,
    ;
    assert(c >= 1_000_000 * uu) by (nonlinear_arith)
        requires
            c == uu * scale,
            scale >= 1_000_000,
            uu > 0,
    ;
    assert(s2 >= 0) by (nonlinear_arith)
        requires
            s1 * second < u * s2 + u,
            s1 >= 0,
            second > 0,
            u > 0,
    ;
    assert(100_000 * (a - c) <= c && -c <= 100_000 * (a - c));
    assert(100_000 * (s2 - scale) <= scale && -scale <= 100_000 * (s2 - scale))
        by (nonlinear_arith)
        requires
            uu > 0,
            a == uu * s2,
            c == uu * scale,
            100_000 * (a - c) <= c,
            -c <= 100_000 * (a - c),
    ;
    assert(s2 == mul_spec(s1, second));
}

proof fn lemma_shifts_add(translate: int, a: int, b: int, extent: int, direction: int)
    requires
        -0x1000_0000_0000_0000 <= translate <= 0x1000_0000_0000_0000,
        -0x1000_0000_0000_0000 <= a <= 0x1000_0000_0000_0000,
        -0x1000_0000_0000_0000 <= b <= 0x1000_0000_0000_0000,
        0 < extent,
        direction == 2 || direction == -2,
    ensures
        ({
            let stepwise = add_spec(
                add_spec(translate, mul_div_spec(a, direction, extent)),
                mul_div_spec(b, direction, extent),
            );
            let at_once = add_spec(translate, mul_div_spec(a + b, direction, extent));
            at_once - 1 <= stepwise <= at_once
        }),
{
    let qa = (a * direction) / extent;
    let qb = (b * direction) / extent;
    let qs = ((a + b) * direction) / extent;
    lemma_floor_bounds(a * direction, extent);
    lemma_floor_bounds(b * direction, extent);
    lemma_floor_bounds((a + b) * direction, extent);
    assert((a + b) * direction == a * direction + b * direction) by (nonlinear_arith);
    assert(a * direction == if direction == 2 {
        2 * a
    } else {
        -2 * a
    }) by (nonlinear_arith)
        requires
            direction == 2 || direction == -2,
    ;
    assert(b * direction == if direction == 2 {
        2 * b
    } else {
        -2 * b
    }) by (nonlinear_arith)
        requires
            direction == 2 || direction == -2,
    ;
    assert(qs - 1 <= qa + qb <= qs) by (nonlinear_arith)
        requires
            extent > 0,
            extent * qa <= a * direction,
            a * direction < extent * qa + extent,
            extent * qb <= b * direction,
            b * direction < extent * qb + extent,
            extent * qs <= a * direction + b * direction,
            a * direction + b * direction < extent * qs + extent,
    ;
    assert(-0x2000_0000_0000_0000 - 1 <= qa <= 0x2000_0000_0000_0000) by (nonlinear_arith)
        requires
            extent >= 1,
            extent * qa <= a * direction,
            a * direction < extent * qa + extent,
            -0x2000_0000_0000_0000 <= a * direction <= 0x2000_0000_0000_0000,
    ;
    assert(-0x2000_0000_0000_0000 - 1 <= qb <= 0x2000_0000_0000_0000) by (nonlinear_arith)
        requires
            extent >= 1,
            extent * qb <= b * direction,
            b * direction < extent * qb + extent,
            -0x2000_0000_0000_0000 <= b * direction <= 0x2000_0000_0000_0000,
    ;
}


/// Zooming is invertible up to rounding.
///
/// Take a uniform block whose scale is within the allowed range, zoom it by
/// the factor of a scroll of `first` and then by that of a scroll of
/// `second`. If the first zoom keeps the scale within the allowed range and
/// the product of the two factors is within a millionth of one, then each
/// component of the scale returns to its first value within a relative
/// error of a hundred-thousandth.
pub proof fn law_zoom_inverts(u: LineUniform, first: int, second: int)
    requires
        scale_in_range(u.scale),
        scale_in_range(zoomed(u, zoom_factor(first)).scale),
        -(UNIT * UNIT) <= 1_000_000 * (zoom_factor(first) * zoom_factor(second) - UNIT * UNIT)
            <= UNIT * UNIT,
    ensures
        ({
            let back = zoomed(zoomed(u, zoom_factor(first)), zoom_factor(second));
            &&& -u.scale.x <= 100_000 * (back.scale.x - u.scale.x) <= u.scale.x
            &&& -u.scale.y <= 100_000 * (back.scale.y - u.scale.y) <= u.scale.y
        }),
{
    let f = zoom_factor(first);
    let g = zoom_factor(second);
    lemma_factors_positive(u.scale.x as int, f, g);
    lemma_scale_returns(u.scale.x as int, f, g);
    lemma_scale_returns(u.scale.y as int, f, g);
    let sx = mul_spec(u.scale.x as int, f);
    let sy = mul_spec(u.scale.y as int, f);
    let bx = mul_spec(sx, g);
    let by = mul_spec(sy, g);
    assert(i64::MIN <= bx <= i64::MAX);
    assert(i64::MIN <= by <= i64::MAX);
}

/// Panning is additive up to rounding.
///
/// Take a uniform block and two pointer movements whose coordinates, like
/// those of the translation, are far from the limits of the number range.
/// Moving the block by one movement and then by the other leaves each
/// component of its translation at most one unit of the last decimal place
/// below, and never above, where a single movement by their sum takes it.
/// For a translation of at least a ten-thousandth that is within a
/// relative error of a hundred-thousandth.
pub proof fn law_pan_adds(u: LineUniform, a: Point2d, b: Point2d, width: u32, height: u32)
    requires
        0 < width,
        0 < height,
        -0x1000_0000_0000_0000 <= u.translate.x <= 0x1000_0000_0000_0000,
        -0x1000_0000_0000_0000 <= u.translate.y <= 0x1000_0000_0000_0000,
        -0x1000_0000_0000_0000 <= a.x <= 0x1000_0000_0000_0000,
        -0x1000_0000_0000_0000 <= a.y <= 0x1000_0000_0000_0000,
        -0x1000_0000_0000_0000 <= b.x <= 0x1000_0000_0000_0000,
        -0x1000_0000_0000_0000 <= b.y <= 0x1000_0000_0000_0000,
    ensures
        ({
            let sum = Point2d { x: (a.x + b.x) as i64, y: (a.y + b.y) as i64 };
            let stepwise = panned(
                panned(u, pan_shift(a, width, height)),
                pan_shift(b, width, height),
            );
            let at_once = panned(u, pan_shift(sum, width, height));
            &&& at_once.translate.x - 1 <= stepwise.translate.x <= at_once.translate.x
            &&& at_once.translate.y - 1 <= stepwise.translate.y <= at_once.translate.y
            &&& at_once.translate.x >= 100_000 ==> 100_000 * (at_once.translate.x
                - stepwise.translate.x) <= at_once.translate.x
            &&& at_once.translate.x <= -100_000 ==> 100_000 * (at_once.translate.x
                - stepwise.translate.x) <= -at_once.translate.x
            &&& at_once.translate.y >= 100_000 ==> 100_000 * (at_once.translate.y
                - stepwise.translate.y) <= at_once.translate.y
            &&& at_once.translate.y <= -100_000 ==> 100_000 * (at_once.translate.y
                - stepwise.translate.y) <= -at_once.translate.y
        }),
{
    lemma_shifts_add(u.translate.x as int, a.x as int, b.x as int, width as int, 2);
    lemma_shifts_add(u.translate.y as int, a.y as int, b.y as int, height as int, -2);
}

} // verus!
