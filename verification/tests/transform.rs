use niobe::fixed::Point2d;
use niobe::pipelines::line::{LineUniform, Rgba};
use niobe::transform::{inset_scale_of, line_width_of, pan_shift_of, pan_uniform, zoom_factor_of, zoom_uniform};

const UNIT: i64 = 1_000_000_000;

fn uniform() -> LineUniform {
    LineUniform {
        color: Rgba { r: UNIT, g: 0, b: 0, a: UNIT },
        scale: Point2d { x: 850_000_000, y: 2 * UNIT },
        translate: Point2d { x: 5, y: -7 },
        line_scale: Point2d { x: 2_000_000, y: 4_000_000 },
    }
}

#[test]
fn scroll_up_adds_the_base() {
    assert_eq!(zoom_factor_of(UNIT), 1_050_000_000);
    assert_eq!(zoom_factor_of(0), 50_000_000);
    assert_eq!(zoom_factor_of(UNIT / 4), 300_000_000);
    assert_eq!(zoom_factor_of(i64::MAX), i64::MAX);
}

#[test]
fn scroll_down_takes_the_base_off_one() {
    assert_eq!(zoom_factor_of(-UNIT), 950_000_000);
    assert_eq!(zoom_factor_of(-1), UNIT);
    assert_eq!(zoom_factor_of(-20), UNIT - 1);
    assert_eq!(zoom_factor_of(-20 * UNIT), 0);
    assert_eq!(zoom_factor_of(-25 * UNIT), -250_000_000);
    assert_eq!(zoom_factor_of(i64::MIN), UNIT - 461_168_601_842_738_790);
}

#[test]
fn zoom_scales_and_thins() {
    let z = zoom_uniform(uniform(), 1_050_000_000);
    assert_eq!(z.scale, Point2d { x: 892_500_000, y: 2_100_000_000 });
    assert_eq!(z.line_scale, Point2d { x: 1_900_000, y: 3_800_000 });
    assert_eq!(z.translate, uniform().translate);
    assert_eq!(z.color, uniform().color);
}

#[test]
fn pan_shift_is_twice_the_fraction_of_the_screen() {
    let shift = pan_shift_of(Point2d { x: 100 * UNIT, y: 0 }, 800, 600);
    assert_eq!(shift, Point2d { x: 250_000_000, y: 0 });
    let shift = pan_shift_of(Point2d { x: -1, y: 1 }, 800, 600);
    assert_eq!(shift, Point2d { x: -1, y: -1 });
    let shift = pan_shift_of(Point2d { x: 400 * UNIT, y: 300 * UNIT }, 800, 600);
    assert_eq!(shift, Point2d { x: UNIT, y: -UNIT });
    assert_eq!(pan_shift_of(Point2d { x: 5, y: 5 }, 0, 0), Point2d { x: 0, y: 0 });
}

#[test]
fn pan_moves_the_translation_only() {
    let p = pan_uniform(uniform(), Point2d { x: 10, y: 20 });
    assert_eq!(p.translate, Point2d { x: 15, y: 13 });
    assert_eq!(p.scale, uniform().scale);
    assert_eq!(p.line_scale, uniform().line_scale);
    let far = pan_uniform(uniform(), Point2d { x: i64::MAX, y: i64::MIN });
    assert_eq!(far.translate, Point2d { x: i64::MAX, y: i64::MIN });
}

#[test]
fn the_border_is_fitted_inside_the_margin() {
    assert_eq!(inset_scale_of(800, 50), 875_000_000);
    assert_eq!(inset_scale_of(600, 50), 833_333_333);
    assert_eq!(inset_scale_of(101, 50), 9_900_990);
}

#[test]
fn line_widths_in_pixels() {
    assert_eq!(line_width_of(5, 2_500_000), 12_500_000);
    assert_eq!(line_width_of(0, 2_500_000), 0);
    assert_eq!(line_width_of(u32::MAX, i64::MAX), i64::MAX);
}
