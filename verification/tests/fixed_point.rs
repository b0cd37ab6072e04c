use niobe::fixed::{div_floor, fixed_div, fixed_mul, fixed_rem, mul_div, sat_add, sat_sub, saturate, Point2d};

const UNIT: i64 = 1_000_000_000;

#[test]
fn division_rounds_down() {
    assert_eq!(div_floor(7, 2), 3);
    assert_eq!(div_floor(-7, 2), -4);
    assert_eq!(div_floor(-8, 2), -4);
    assert_eq!(div_floor(-1, 1_000_000_000), -1);
    assert_eq!(div_floor(0, 3), 0);
}

#[test]
fn arithmetic_saturates() {
    assert_eq!(saturate(i128::MAX), i64::MAX);
    assert_eq!(saturate(i128::MIN), i64::MIN);
    assert_eq!(saturate(-5), -5);
    assert_eq!(sat_add(i64::MAX, 1), i64::MAX);
    assert_eq!(sat_add(2, 3), 5);
    assert_eq!(sat_sub(i64::MIN, 1), i64::MIN);
    assert_eq!(sat_sub(2, 3), -1);
    assert_eq!(fixed_mul(i64::MAX, 2 * UNIT), i64::MAX);
    assert_eq!(fixed_mul(i64::MIN, 2 * UNIT), i64::MIN);
}

#[test]
fn products_and_quotients_are_fixed_point() {
    assert_eq!(fixed_mul(850_000_000, 1_050_000_000), 892_500_000);
    assert_eq!(fixed_mul(-1, 1), -1);
    assert_eq!(fixed_div(UNIT, 4 * UNIT), 250_000_000);
    assert_eq!(fixed_div(-875_000_000, 850_000_000), -1_029_411_765);
    assert_eq!(fixed_div(UNIT, -4 * UNIT), -250_000_000);
    assert_eq!(fixed_div(UNIT, 0), 0);
    assert_eq!(mul_div(100 * UNIT, 2, 800), 250_000_000);
    assert_eq!(mul_div(1, 1, 0), 0);
    assert_eq!(mul_div(1, 1, -3), 0);
}

#[test]
fn remainder_has_the_sign_of_the_dividend() {
    assert_eq!(fixed_rem(-1_029_411_765, 100_000_000), -29_411_765);
    assert_eq!(fixed_rem(1_323_529_411, 100_000_000), 23_529_411);
    assert_eq!(fixed_rem(i64::MIN, 10), -8);
    assert_eq!(fixed_rem(0, 10), 0);
}

#[test]
fn points_are_built_from_coordinates() {
    assert_eq!(Point2d::new(1, 2), Point2d { x: 1, y: 2 });
    assert_eq!(Point2d::all(7), Point2d { x: 7, y: 7 });
}
