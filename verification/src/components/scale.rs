//! Axis scales: where the ticks of an axis fall and what they are labelled.
//!
//! Ticks sit at multiples of a power-of-ten step in data space. The step
//! follows the zoom level: the base step is a hundredth of the largest power
//! of ten that the reciprocal of the axis scale reaches, and it is coarsened
//! once, by a factor of ten, when more than fifty base steps would fit
//! between the two edges of the screen.

use vstd::prelude::*;
use crate::fixed::{div_floor, fixed_mul, fixed_rem, is_pow10, mul_spec, representable, sat, sat_add, saturate, trunc_rem, UNIT};
use crate::label::{convert_to_text, label_text};

verus! {

/// The direction along which a scale runs.
#[derive(Clone, Copy, Debug, PartialEq, Eq, Structural)]
pub enum Orientation {
    Horizontal,
    Vertical,
}

/// Starting from `p`, the first of `p, 10p, 100p, ...` that is not below `s`.
pub open spec fn decade_from(p: int, s: int) -> int
    decreases
            (if s > p {
                s - p
            } else {
                0
            }),
    when p >= 1
{
    if p >= s {
        p
    } else {
        decade_from(10 * p, s)
    }
}

/// The least power of ten that is not below `s`.
pub open spec fn decade_ceiling(s: int) -> int {
    decade_from(1, s)
}

/// One axis of the view: its transform and the screen geometry along it.
#[derive(Clone, Copy, Debug, PartialEq, Eq, Structural)]
pub struct Axis {
    /// Zoom factor from data space to normalized device space.
    pub scale: i64,
    /// Pan offset in normalized device space.
    pub translate: i64,
    /// Normalized device units per pixel.
    pub pixel_scale: i64,
    /// Inset of the plot area from either edge of the screen, in pixels.
    pub margin: u32,
}

impl Axis {
    /// The step between ticks, in data space, before coarsening.
    pub open spec fn base_step(self) -> int {
        10_000_000_000_000_000int / decade_ceiling(self.scale as int)
    }

    /// The distance between ticks on screen before coarsening.
    pub open spec fn base_spacing(self) -> int {
        mul_spec(self.base_step(), self.scale as int)
    }

    /// Whether more than fifty base steps fit between the screen edges.
    pub open spec fn coarsened(self) -> bool {
        50 * self.base_spacing() < 2 * UNIT
    }

    /// The step between ticks in data space.
    pub open spec fn tick_step(self) -> int {
        if self.coarsened() {
            10 * self.base_step()
        } else {
            self.base_step()
        }
    }

    /// The distance between ticks on screen.
    pub open spec fn tick_spacing(self) -> int {
        if self.coarsened() {
            sat(10 * self.base_spacing())
        } else {
            self.base_spacing()
        }
    }

    /// Whether the ticks are a distance apart: the scale is positive and
    /// the spacing is at least one unit of the last decimal place.
    pub open spec fn spacing_defined(self) -> bool {
        self.scale > 0 && self.tick_spacing() > 0
    }

    /// The screen position of the near edge of the plot area.
    pub open spec fn near_edge(self) -> int {
        -UNIT + self.margin * self.pixel_scale
    }

    /// The screen position of the far edge of the plot area.
    pub open spec fn far_edge(self) -> int {
        UNIT - self.margin * self.pixel_scale
    }

    /// The data-space coordinate shown at the near edge of the plot area,
    /// rounded up: the least value whose screen position is not before
    /// the near edge.
    pub open spec fn visible_start(self) -> int {
        -(((self.translate - self.near_edge()) * UNIT) / (self.scale as int))
    }

    /// The data-space value of the first tick: the least multiple of the
    /// step that is not below the start of the visible range. A start that
    /// is a multiple itself is kept.
    pub open spec fn first_value(self) -> int {
        let start = self.visible_start();
        let rest = trunc_rem(start, self.tick_step());
        if start > 0 && rest != 0 {
            start - rest + self.tick_step()
        } else {
            start - rest
        }
    }

    /// The screen position of the first tick.
    pub open spec fn first_position(self) -> int {
        (self.first_value() * self.scale) / (UNIT as int) + self.translate
    }

    /// Whether the axis has ticks at all: the ticks are a distance apart,
    /// and the start of the visible range, the first value and its screen
    /// position are representable.
    pub open spec fn ticks_defined(self) -> bool {
        &&& self.spacing_defined()
        &&& representable(self.visible_start())
        &&& representable(self.first_value())
        &&& representable(self.first_position())
    }

    /// How many ticks are emitted into `max_ticks` slots: none when the
    /// first position lies beyond the far edge, else one for each position
    /// from the first up to the far edge.
    pub open spec fn tick_count(self, max_ticks: int) -> int {
        if !self.ticks_defined() || max_ticks <= 0 || self.far_edge() < self.first_position() {
            0
        } else {
            let fit = (sat(self.far_edge()) - self.first_position()) / self.tick_spacing() + 1;
            if fit < max_ticks {
                fit
            } else {
                max_ticks
            }
        }
    }

    /// The screen position of tick `i`.
    pub open spec fn tick_position(self, i: int) -> int {
        self.first_position() + i * self.tick_spacing()
    }

    /// The data-space value of tick `i`.
    pub open spec fn tick_value(self, i: int) -> int {
        sat(self.first_value() + i * self.tick_step())
    }
}

/// A labelled reference mark on an axis.
#[derive(Debug)]
pub struct Tick {
    /// Position in normalized device space.
    pub screen_position: i64,
    /// Value in data space.
    pub value: i64,
    /// Text of the value.
    pub label: String,
}

/// The ticks of one axis, in increasing screen position.
#[derive(Debug)]
pub struct TickSet {
    pub ticks: Vec<Tick>,
    /// Distance between neighbouring ticks on screen; zero for an axis
    /// that has no ticks at all.
    pub spacing: i64,
    /// Distance between neighbouring ticks in data space; zero for an axis
    /// that has no ticks at all.
    pub step: i64,
}

impl TickSet {
    /// Whether this is the tick set of `axis` for `max_ticks` slots.
    pub open spec fn is_of(self, axis: Axis, max_ticks: int) -> bool {
        &&& self.ticks@.len() == axis.tick_count(max_ticks)
        &&& forall|i: int|
            0 <= i < self.ticks@.len() ==> {
                &&& (#[trigger] self.ticks@[i]).screen_position == axis.tick_position(i)
                &&& self.ticks@[i].value == axis.tick_value(i)
                &&& self.ticks@[i].label@ == label_text(axis.tick_value(i))
            }
        &&& self.spacing == if axis.ticks_defined() {
            axis.tick_spacing()
        } else {
            0
        }
        &&& self.step == if axis.ticks_defined() {
            axis.tick_step()
        } else {
            0
        }
    }
}

fn decade_of(s: i64) -> (p: u128)
    requires
        s > 0,
    ensures
        p == decade_ceiling(s as int),
        p >= 1,
{
    let mut p: u128 = 1;
    while p < s as u128
        invariant
            1 <= p,
            p <= 10 * s,
            s > 0,
            decade_from(p as int, s as int) == decade_ceiling(s as int),
        decreases
                (if s > p {
                    s - p
                } else {
                    0
                }),
    {
        p = p * 10;
    }
    p
}

fn empty_ticks() -> (r: TickSet)
    ensures
        r.ticks@.len() == 0,
        r.spacing == 0,
        r.step == 0,
{
    TickSet { ticks: Vec::new(), spacing: 0, step: 0 }
}

proof fn lemma_fit_lower(a: int, d: int, i: int)
    requires
        d > 0,
        i >= 0,
        a >= i * d,
    ensures
        a / d >= i,
{
    vstd::arithmetic::div_mod::lemma_div_is_ordered(i * d, a, d);
    vstd::arithmetic::div_mod::lemma_div_multiples_vanish(i, d);
    assert(i * d == d * i) by (nonlinear_arith);
}

proof fn lemma_fit_upper(a: int, d: int, i: int)
    requires
        d > 0,
        a < i * d,
    ensures
        a / d < i,
{
    vstd::arithmetic::div_mod::lemma_fundamental_div_mod(a, d);
    vstd::arithmetic::div_mod::lemma_mod_bound(a, d);
    assert(a / d < i) by (nonlinear_arith)
        requires
            a == d * (a / d) + a % d,
            0 <= a % d,
            a < i * d,
            d > 0,
    ;
}

proof fn lemma_snapped(start: int, step: int)
    requires
        step > 0,
    ensures
        ({
            let rest = trunc_rem(start, step);
            let snapped = if start > 0 && rest != 0 {
                start - rest + step
            } else {
                start - rest
            };
            &&& start <= snapped < start + step
            &&& snapped % step == 0
            &&& (start >= 0 ==> 0 <= rest <= start)
            &&& (start < 0 ==> start <= rest <= 0)
        }),
{
    if start >= 0 {
        vstd::arithmetic::div_mod::lemma_fundamental_div_mod(start, step);
        vstd::arithmetic::div_mod::lemma_mod_bound(start, step);
        vstd::arithmetic::div_mod::lemma_div_pos_is_pos(start, step);
        let q = start / step;
        assert(step * q >= 0) by (nonlinear_arith)
            requires
                step > 0,
                q >= 0,
        ;
        if start % step == 0 {
            vstd::arithmetic::div_mod::lemma_mod_multiples_basic(q, step);
            assert(q * step == step * q) by (nonlinear_arith);
        } else {
            vstd::arithmetic::div_mod::lemma_mod_multiples_basic(q + 1, step);
            assert((q + 1) * step == step * q + step) by (nonlinear_arith);
        }
    } else {
        let m = -start;
        vstd::arithmetic::div_mod::lemma_fundamental_div_mod(m, step);
        vstd::arithmetic::div_mod::lemma_mod_bound(m, step);
        vstd::arithmetic::div_mod::lemma_div_pos_is_pos(m, step);
        let q = m / step;
        assert(step * q >= 0) by (nonlinear_arith)
            requires
                step > 0,
                q >= 0,
        ;
        vstd::arithmetic::div_mod::lemma_mod_multiples_basic(-q, step);
        assert((-q) * step == -(step * q)) by (nonlinear_arith);
    }
}

proof fn lemma_first_position(axis: Axis)
    requires
        axis.scale > 0,
        axis.tick_step() > 0,
    ensures
        axis.first_value() >= axis.visible_start(),
        axis.first_value() < axis.visible_start() + axis.tick_step(),
        axis.first_value() % axis.tick_step() == 0,
        axis.first_position() >= axis.near_edge(),
{
    let u: int = UNIT as int;
    let s = axis.scale as int;
    let t = axis.translate as int;
    let near = axis.near_edge();
    let a = (t - near) * u;
    let q = a / s;
    vstd::arithmetic::div_mod::lemma_fundamental_div_mod(a, s);
    vstd::arithmetic::div_mod::lemma_mod_bound(a, s);
    let start = axis.visible_start();
    assert(start == -q);
    lemma_snapped(start, axis.tick_step());
    let v0 = axis.first_value();
    let y = (v0 * s) / u;
    vstd::arithmetic::div_mod::lemma_fundamental_div_mod(v0 * s, u);
    vstd::arithmetic::div_mod::lemma_mod_bound(v0 * s, u);
    assert(y >= near - t) by (nonlinear_arith)
        requires
            u * y <= v0 * s,
            v0 * s < u * y + u,
            v0 >= -q,
            s * q <= a,
            a == (t - near) * u,
            s > 0,
            u > 0,
    ;
}

/// Computes the ticks of an axis.
///
/// The first tick lies at the least multiple of the step whose position is
/// not before the near edge of the plot area. Further ticks follow at equal
/// distance. A tick is emitted only while its position is not beyond the far
/// edge and a slot is left, so every tick lies inside the plot area. An axis
/// whose scale is not positive, whose ticks would not be a representable
/// distance apart, or whose first tick is not representable, has no ticks.
pub fn compute_ticks(
    axis_scale: i64,
    axis_translate: i64,
    viewport_pixel_scale: i64,
    margin: u32,
    max_ticks: usize,
) -> (r: TickSet)
    ensures
        r.is_of(
            Axis {
                scale: axis_scale,
                translate: axis_translate,
                pixel_scale: viewport_pixel_scale,
                margin,
            },
            max_ticks as int,
        ),
        r.ticks@.len() <= max_ticks,
        forall|i: int, j: int|
            0 <= i < j < r.ticks@.len() ==> (#[trigger] r.ticks@[j]).screen_position - (
            #[trigger] r.ticks@[i]).screen_position >= r.spacing,
        r.ticks@.len() > 0 ==> r.spacing > 0,
        forall|i: int|
            0 <= i < r.ticks@.len() ==> -UNIT + margin * viewport_pixel_scale <= (
            #[trigger] r.ticks@[i]).screen_position <= UNIT - margin * viewport_pixel_scale,
{
    let ghost axis = Axis {
        scale: axis_scale,
        translate: axis_translate,
        pixel_scale: viewport_pixel_scale,
        margin,
    };
    if axis_scale <= 0 {
        return empty_ticks();
    }
    let decade: u128 = decade_of(axis_scale);
    let base_step: i64 = if decade > 10_000_000_000_000_000 {
        0
    } else {
        (10_000_000_000_000_000 / decade) as i64
    };
    assert(base_step == axis.base_step()) by {
        if decade > 10_000_000_000_000_000 {
            vstd::arithmetic::div_mod::lemma_basic_div(10_000_000_000_000_000, decade as int);
        }
    }
    assert(0 <= base_step <= 10_000_000_000_000_000) by {
        vstd::arithmetic::div_mod::lemma_div_pos_is_pos(10_000_000_000_000_000, decade as int);
        vstd::arithmetic::div_mod::lemma_div_is_ordered_by_denominator(
            10_000_000_000_000_000,
            1,
            decade as int,
        );
    }
    let base_spacing: i64 = fixed_mul(base_step, axis_scale);
    let coarsened: bool = 50 * (base_spacing as i128) < 2_000_000_000;
    let step: i64 = if coarsened {
        base_step * 10
    } else {
        base_step
    };
    let spacing: i64 = if coarsened {
        saturate(10 * (base_spacing as i128))
    } else {
        base_spacing
    };
    assert(step == axis.tick_step());
    assert(spacing == axis.tick_spacing());
    if spacing <= 0 {
        return empty_ticks();
    }
    assert(axis.spacing_defined());
    assert(step > 0) by {
        if base_step == 0 {
            assert(base_step * axis_scale == 0) by (nonlinear_arith)
                requires
                    base_step == 0,
            ;
        }
    }
    assert(-0x8000_0000_0000_0000_0000_0000 <= margin * viewport_pixel_scale
        <= 0x8000_0000_0000_0000_0000_0000) by (nonlinear_arith)
        requires
            0 <= margin <= 0xffff_ffff,
            -0x8000_0000_0000_0000 <= viewport_pixel_scale <= 0x8000_0000_0000_0000,
    ;
    let inset: i128 = (margin as i128) * (viewport_pixel_scale as i128);
    let near_edge: i128 = -1_000_000_000 + inset;
    let far_edge: i128 = 1_000_000_000 - inset;
    let behind: i128 = (axis_translate as i128) - near_edge;
    let quotient: i128 = div_floor(behind * 1_000_000_000, axis_scale as i128);
    proof {
        let n = behind * 1_000_000_000;
        vstd::arithmetic::div_mod::lemma_fundamental_div_mod(n, axis_scale as int);
        vstd::arithmetic::div_mod::lemma_mod_bound(n, axis_scale as int);
        assert(-0x4000_0000_0000_0000_0000_0000_0000_0000 - 1 <= quotient
            <= 0x4000_0000_0000_0000_0000_0000_0000_0000) by (nonlinear_arith)
            requires
                axis_scale * quotient <= n,
                n < axis_scale * quotient + axis_scale,
                axis_scale >= 1,
                -0x4000_0000_0000_0000_0000_0000_0000_0000 <= n
                    <= 0x4000_0000_0000_0000_0000_0000_0000_0000,
        ;
    }
    let start_wide: i128 = -quotient;
    assert(start_wide == axis.visible_start());
    if start_wide < i64::MIN as i128 || start_wide > i64::MAX as i128 {
        return empty_ticks();
    }
    let start: i64 = start_wide as i64;
    let rest: i64 = fixed_rem(start, step);
    proof {
        lemma_snapped(start as int, step as int);
        lemma_first_position(axis);
    }
    let first_wide: i128 = if start > 0 && rest != 0 {
        start as i128 - rest as i128 + step as i128
    } else {
        start as i128 - rest as i128
    };
    assert(first_wide == axis.first_value());
    if first_wide > i64::MAX as i128 {
        return empty_ticks();
    }
    let first_value: i64 = first_wide as i64;
    proof {
        crate::fixed::lemma_product_bound(first_value as int, axis_scale as int);
    }
    let scaled: i128 = div_floor((first_value as i128) * (axis_scale as i128), 1_000_000_000);
    proof {
        vstd::arithmetic::div_mod::lemma_div_is_ordered(
            first_value * axis_scale,
            0x4000_0000_0000_0000_0000_0000_0000_0000,
            1_000_000_000,
        );
        vstd::arithmetic::div_mod::lemma_div_is_ordered(
            -0x4000_0000_0000_0000_0000_0000_0000_0000,
            first_value * axis_scale,
            1_000_000_000,
        );
    }
    let position_wide: i128 = scaled + axis_translate as i128;
    assert(position_wide == axis.first_position());
    if position_wide < i64::MIN as i128 || position_wide > i64::MAX as i128 {
        return empty_ticks();
    }
    assert(axis.ticks_defined());
    let first_position: i64 = position_wide as i64;
    if max_ticks == 0 || far_edge < position_wide {
        return TickSet { ticks: Vec::new(), spacing, step };
    }
    let limit: i64 = saturate(far_edge);
    let ghost fit: int = (limit - first_position) / (spacing as int) + 1;
    let mut ticks: Vec<Tick> = Vec::new();
    let mut x: i64 = first_position;
    let mut value: i64 = first_value;
    let mut i: usize = 0;
    let mut done: bool = false;
    while i < max_ticks && !done
        invariant
            i <= max_ticks,
            ticks@.len() == i,
            spacing > 0,
            step > 0,
            spacing == axis.tick_spacing(),
            step == axis.tick_step(),
            first_position == axis.first_position(),
            first_value == axis.first_value(),
            first_position >= axis.near_edge(),
            first_position <= limit,
            limit == sat(axis.far_edge()),
            limit <= axis.far_edge(),
            fit == (limit - first_position) / (spacing as int) + 1,
            !done ==> x == first_position + i * spacing,
            !done ==> value == sat(first_value + i * step),
            !done ==> x <= limit,
            !done ==> i < fit,
            done ==> i == fit,
            forall|k: int|
                0 <= k < i ==> {
                    &&& (#[trigger] ticks@[k]).screen_position == axis.tick_position(k)
                    &&& ticks@[k].value == axis.tick_value(k)
                    &&& ticks@[k].label@ == label_text(axis.tick_value(k))
                    &&& axis.near_edge() <= ticks@[k].screen_position <= axis.far_edge()
                },
        decreases max_ticks - i, if done { 0int } else { 1int },
    {
        let label = convert_to_text(value);
        ticks.push(Tick { screen_position: x, value, label });
        let next: i128 = x as i128 + spacing as i128;
        proof {
            assert((i + 1) * spacing == i * spacing + spacing) by (nonlinear_arith);
            assert((i + 1) * step == i * step + step) by (nonlinear_arith);
            assert(i * spacing >= 0) by (nonlinear_arith)
                requires
                    i >= 0,
                    spacing > 0,
            ;
            if next > limit {
                lemma_fit_upper(limit - first_position, spacing as int, i + 1);
            } else {
                lemma_fit_lower(limit - first_position, spacing as int, i + 1);
            }
        }
        if next > limit as i128 {
            done = true;
        } else {
            x = next as i64;
            value = sat_add(value, step);
        }
        i = i + 1;
    }
    proof {
        assert(ticks@.len() == axis.tick_count(max_ticks as int));
        assert forall|a: int, b: int| 0 <= a < b < ticks@.len() implies (#[trigger] ticks@[b]).screen_position
            - (#[trigger] ticks@[a]).screen_position >= spacing by {
            assert((b - a) * spacing >= spacing) by (nonlinear_arith)
                requires
                    b - a >= 1,
                    spacing > 0,
            ;
            assert(b * spacing - a * spacing == (b - a) * spacing) by (nonlinear_arith);
        }
    }
    TickSet { ticks, spacing, step }
}

proof fn lemma_decade_from(q: int, s: int)
    requires
        q >= 1,
        is_pow10(q),
        q < 10 * s,
    ensures
        is_pow10(decade_from(q, s)),
        s <= decade_from(q, s) < 10 * s,
    decreases
            (if s > q {
                s - q
            } else {
                0
            }),
{
    if q < s {
        assert(is_pow10(10 * q));
        lemma_decade_from(10 * q, s);
    }
}

proof fn lemma_pow10_divides(p: int, q: int)
    requires
        is_pow10(p),
        is_pow10(q),
        p <= q,
    ensures
        (q / p) * p == q,
        q / p >= 1,
    decreases p,
{
    if p == 1 {
    } else {
        let p_tenth = p / 10;
        let q_tenth = q / 10;
        lemma_pow10_divides(p_tenth, q_tenth);
        let k = q_tenth / p_tenth;
        assert(k * p == q) by (nonlinear_arith)
            requires
                k * p_tenth == q_tenth,
                p == 10 * p_tenth,
                q == 10 * q_tenth,
        ;
        assert(q == p * k + 0) by (nonlinear_arith)
            requires
                k * p == q,
        ;
        vstd::arithmetic::div_mod::lemma_fundamental_div_mod_converse(q, p, k, 0);
    }
}

/// The single coarsening step always applies and leaves the ticks between
/// a hundredth and a tenth of the half screen apart: for every scale from
/// one unit of the last decimal place up to a million, between 20 and 200
/// ticks fit between the two edges of the screen.
pub proof fn law_spacing_bounds(axis: Axis)
    requires
        1 <= axis.scale <= 1_000_000_000_000_000,
    ensures
        axis.coarsened(),
        axis.spacing_defined(),
        10_000_000 <= axis.tick_spacing() <= 100_000_000,
        is_pow10(axis.base_step()),
        axis.tick_step() == 10 * axis.base_step(),
        10 <= axis.tick_step() <= 100_000_000_000_000_000,
        axis.tick_step() * axis.scale <= 100_000_000_000_000_000,
{
    let s = axis.scale as int;
    let p = decade_ceiling(s);
    let top: int = 10_000_000_000_000_000;
    lemma_decade_from(1, s);
    assert(is_pow10(top)) by {
        reveal_with_fuel(is_pow10, 18);
    }
    lemma_pow10_divides(p, top);
    let k = top / p;
    assert(k == axis.base_step());
    assert(is_pow10(k)) by {
        lemma_quotient_is_pow10(p, top);
    }
    assert(k * s <= top && 10 * (k * s) > top) by (nonlinear_arith)
        requires
            k * p == top,
            s <= p < 10 * s,
            k >= 1,
    ;
    let b = (k * s) / 1_000_000_000;
    vstd::arithmetic::div_mod::lemma_fundamental_div_mod(k * s, 1_000_000_000);
    vstd::arithmetic::div_mod::lemma_mod_bound(k * s, 1_000_000_000);
    assert(1_000_000 <= b <= 10_000_000);
    assert(b == axis.base_spacing());
    assert(k <= top) by (nonlinear_arith)
        requires
            k * p == top,
            p >= 1,
            k >= 1,
    ;
    assert((10 * k) * s == 10 * (k * s)) by (nonlinear_arith);
}

proof fn lemma_quotient_is_pow10(p: int, q: int)
    requires
        is_pow10(p),
        is_pow10(q),
        p <= q,
    ensures
        is_pow10(q / p),
    decreases p,
{
    if p == 1 {
    } else {
        let p_tenth = p / 10;
        let q_tenth = q / 10;
        lemma_quotient_is_pow10(p_tenth, q_tenth);
        lemma_pow10_divides(p_tenth, q_tenth);
        lemma_pow10_divides(p, q);
        let k = q_tenth / p_tenth;
        assert(k * p == q) by (nonlinear_arith)
            requires
                k * p_tenth == q_tenth,
                p == 10 * p_tenth,
                q == 10 * q_tenth,
        ;
        assert(q == p * k + 0) by (nonlinear_arith)
            requires
                k * p == q,
        ;
        vstd::arithmetic::div_mod::lemma_fundamental_div_mod_converse(q, p, k, 0);
    }
}


/// Most ticks that an axis of a chart emits, however many slots it has.
pub const MAX_EMITTED_TICKS: usize = 201;

proof fn lemma_step_positive(axis: Axis)
    requires
        axis.spacing_defined(),
    ensures
        axis.tick_step() > 0,
{
    if axis.base_step() <= 0 {
        lemma_decade_from(1, axis.scale as int);
        vstd::arithmetic::div_mod::lemma_div_pos_is_pos(
            10_000_000_000_000_000,
            decade_ceiling(axis.scale as int),
        );
        assert(axis.base_step() * axis.scale == 0) by (nonlinear_arith)
            requires
                axis.base_step() == 0,
        ;
    }
}

/// No tick is placed in the margin: every emitted tick lies between the
/// near and the far edge of the plot area.
pub proof fn law_ticks_inside(axis: Axis, max_ticks: int, i: int)
    requires
        0 <= i < axis.tick_count(max_ticks),
    ensures
        axis.near_edge() <= axis.tick_position(i) <= axis.far_edge(),
{
    let spacing = axis.tick_spacing();
    let x0 = axis.first_position();
    let reach = sat(axis.far_edge()) - x0;
    lemma_step_positive(axis);
    lemma_first_position(axis);
    vstd::arithmetic::div_mod::lemma_fundamental_div_mod(reach, spacing);
    vstd::arithmetic::div_mod::lemma_mod_bound(reach, spacing);
    assert(0 <= i * spacing <= reach) by (nonlinear_arith)
        requires
            0 <= i <= reach / spacing,
            reach == spacing * (reach / spacing) + reach % spacing,
            0 <= reach % spacing,
            spacing > 0,
    ;
}

/// The first tick is the first multiple of the step inside the plot area:
/// it is a multiple of the step, its position is not before the near edge,
/// and every smaller multiple `below` lies before the near edge.
pub proof fn law_first_tick_is_least(axis: Axis, below: int)
    requires
        axis.spacing_defined(),
        below % axis.tick_step() == 0,
        below < axis.first_value(),
    ensures
        axis.first_value() % axis.tick_step() == 0,
        axis.first_position() >= axis.near_edge(),
        (below * axis.scale) / (UNIT as int) + axis.translate < axis.near_edge(),
{
    let u: int = UNIT as int;
    let s = axis.scale as int;
    let t = axis.translate as int;
    let step = axis.tick_step();
    lemma_step_positive(axis);
    lemma_first_position(axis);
    let near = axis.near_edge();
    let a = (t - near) * u;
    let q = a / s;
    vstd::arithmetic::div_mod::lemma_fundamental_div_mod(a, s);
    vstd::arithmetic::div_mod::lemma_mod_bound(a, s);
    let v0 = axis.first_value();
    // two multiples of the step are at least one step apart
    vstd::arithmetic::div_mod::lemma_fundamental_div_mod(v0, step);
    vstd::arithmetic::div_mod::lemma_fundamental_div_mod(below, step);
    assert(below <= v0 - step) by (nonlinear_arith)
        requires
            v0 == step * (v0 / step),
            below == step * (below / step),
            below < v0,
            step > 0,
    ;
    assert(below < -q);
    let y = (below * s) / u;
    vstd::arithmetic::div_mod::lemma_fundamental_div_mod(below * s, u);
    vstd::arithmetic::div_mod::lemma_mod_bound(below * s, u);
    assert(y < near - t) by (nonlinear_arith)
        requires
            u * y <= below * s,
            below <= -q - 1,
            a < s * q + s,
            a == (t - near) * u,
            s > 0,
            u > 0,
    ;
}

/// An axis never needs more than [`MAX_EMITTED_TICKS`] slots: with a scale
/// between a thousandth and a thousand, a translation of at most a thousand
/// and a margin of at most half the screen, the axis has ticks, and at most
/// 201 of them are emitted.
pub proof fn law_slots_suffice(axis: Axis, max_ticks: int)
    requires
        1_000_000 <= axis.scale <= 1_000_000_000_000,
        -1_000_000_000_000 <= axis.translate <= 1_000_000_000_000,
        0 <= axis.margin * axis.pixel_scale <= UNIT,
    ensures
        axis.ticks_defined(),
        axis.tick_count(max_ticks) <= MAX_EMITTED_TICKS,
{
    law_spacing_bounds(axis);
    lemma_first_position(axis);
    let u: int = UNIT as int;
    let s = axis.scale as int;
    let t = axis.translate as int;
    let step = axis.tick_step();
    let spacing = axis.tick_spacing();
    let near = axis.near_edge();
    let a = (t - near) * u;
    let q = a / s;
    vstd::arithmetic::div_mod::lemma_fundamental_div_mod(a, s);
    vstd::arithmetic::div_mod::lemma_mod_bound(a, s);
    assert(-2_000_000_000_000_000 <= q <= 2_000_000_000_000_000) by (nonlinear_arith)
        requires
            s * q <= a,
            a < s * q + s,
            a == (t - near) * u,
            1_000_000 <= s,
            -1_002_000_000_000 <= t - near <= 1_002_000_000_000,
            u == 1_000_000_000,
    ;
    let start = axis.visible_start();
    assert(start == -q);
    let v0 = axis.first_value();
    assert(start <= v0 < start + step);
    let y = (v0 * s) / u;
    vstd::arithmetic::div_mod::lemma_fundamental_div_mod(v0 * s, u);
    vstd::arithmetic::div_mod::lemma_mod_bound(v0 * s, u);
    assert(y <= near - t + 100_000_001) by (nonlinear_arith)
        requires
            u * y <= v0 * s,
            v0 < -q + step,
            a < s * q + s,
            a == (t - near) * u,
            step * s <= 100_000_000_000_000_000,
            0 < s <= 1_000_000_000_000,
            u == 1_000_000_000,
    ;
    let x0 = axis.first_position();
    assert(x0 == y + t);
    assert(near <= x0 <= near + 100_000_001);
    assert(axis.ticks_defined());
    let far = axis.far_edge();
    if far >= x0 {
        let span = far - x0;
        assert(0 <= span <= 2_000_000_000);
        vstd::arithmetic::div_mod::lemma_div_is_ordered(span, 2_000_000_000, spacing);
        vstd::arithmetic::div_mod::lemma_div_is_ordered_by_denominator(
            2_000_000_000,
            10_000_000,
            spacing,
        );
        assert(2_000_000_000int / 10_000_000int == 200);
        assert(span / spacing <= 200);
    }
}

} // verus!
