use niobe::components::scale::compute_ticks;

const UNIT: i64 = 1_000_000_000;

#[test]
fn ticks_of_the_default_view() {
    // scale 0.85 on a screen 800 pixels wide with a margin of 50 pixels
    let set = compute_ticks(850_000_000, 0, 2_500_000, 50, 201);
    assert_eq!(set.step, 100_000_000);
    assert_eq!(set.spacing, 85_000_000);
    assert_eq!(set.ticks.len(), 21);
    assert_eq!(set.ticks[0].value, -UNIT);
    assert_eq!(set.ticks[0].screen_position, -850_000_000);
    assert_eq!(set.ticks[0].label, "-1");
    assert_eq!(set.ticks[1].value, -900_000_000);
    assert_eq!(set.ticks[1].label, "-0.9");
    assert_eq!(set.ticks[10].value, 0);
    assert_eq!(set.ticks[10].screen_position, 0);
    assert_eq!(set.ticks[10].label, "0");
    assert_eq!(set.ticks[20].value, UNIT);
    assert_eq!(set.ticks[20].screen_position, 850_000_000);
    assert_eq!(set.ticks[20].label, "1");
}

#[test]
fn tick_count_never_exceeds_the_slots() {
    let set = compute_ticks(850_000_000, 0, 2_500_000, 50, 7);
    assert_eq!(set.ticks.len(), 7);
    assert_eq!(set.ticks[6].value, -400_000_000);
    let none = compute_ticks(850_000_000, 0, 2_500_000, 50, 0);
    assert_eq!(none.ticks.len(), 0);
    assert_eq!(none.spacing, 85_000_000);
}

#[test]
fn neighbouring_ticks_are_one_spacing_apart() {
    let cases: [(i64, i64); 6] = [
        (850_000_000, 0),
        (UNIT, 250_000_000),
        (1_050_000_000, -3 * UNIT),
        (123_456, 77),
        (999_999_999_999, 5 * UNIT),
        (1_000_000, -999 * UNIT),
    ];
    for (scale, translate) in cases {
        let set = compute_ticks(scale, translate, 2_500_000, 50, 201);
        assert!(set.ticks.len() <= 201);
        assert!(set.ticks.len() >= 1);
        assert!(set.spacing > 0);
        for pair in set.ticks.windows(2) {
            assert_eq!(pair[1].screen_position - pair[0].screen_position, set.spacing);
        }
    }
}

#[test]
fn step_follows_the_decade_of_the_scale() {
    // scale 1: base step 0.01, coarsened to 0.1
    assert_eq!(compute_ticks(UNIT, 0, 2_500_000, 50, 201).step, 100_000_000);
    // scale just above 1: base step 0.001, coarsened to 0.01
    assert_eq!(compute_ticks(UNIT + 1, 0, 2_500_000, 50, 201).step, 10_000_000);
    // scale 0.1: base step 0.1, coarsened to 1
    assert_eq!(compute_ticks(100_000_000, 0, 2_500_000, 50, 201).step, UNIT);
    // scale 10: base step 0.001, coarsened to 0.01
    let set = compute_ticks(10 * UNIT, 0, 2_500_000, 50, 201);
    assert_eq!(set.step, 10_000_000);
    assert_eq!(set.spacing, 100_000_000);
}

#[test]
fn a_positive_start_snaps_up() {
    // translate -2 puts the near edge at data value 1.125 / 0.85 = 1.3235...
    let set = compute_ticks(850_000_000, -2 * UNIT, 2_500_000, 50, 201);
    assert_eq!(set.ticks[0].value, 1_400_000_000);
    assert_eq!(set.ticks[0].label, "1.4");
    assert_eq!(set.ticks[0].screen_position, 1_400_000_000 * 85 / 100 - 2 * UNIT);
    assert!(set.ticks[0].screen_position >= -875_000_000);
}

#[test]
fn a_start_that_is_not_positive_snaps_to_the_multiple_at_or_above() {
    // the near edge is at -0.875 / 0.85 = -1.029...
    let set = compute_ticks(850_000_000, 0, 2_500_000, 50, 201);
    assert_eq!(set.ticks[0].value, -UNIT);
    // translate 0.125 puts the near edge at exactly -1
    let exact = compute_ticks(UNIT, 125_000_000, 2_500_000, 50, 201);
    assert_eq!(exact.ticks[0].value, -UNIT);
    assert_eq!(exact.ticks[0].screen_position, -875_000_000);
}

#[test]
fn a_start_on_a_multiple_is_kept() {
    // translate -1.975 puts the near edge at data value 1.1, a multiple of the step 0.1
    let set = compute_ticks(UNIT, -1_975_000_000, 2_500_000, 50, 201);
    assert_eq!(set.ticks[0].value, 1_100_000_000);
    assert_eq!(set.ticks[0].label, "1.1");
    assert_eq!(set.ticks[0].screen_position, -875_000_000);
    // one unit further and the start moves to the next multiple
    let next = compute_ticks(UNIT, -1_975_000_001, 2_500_000, 50, 201);
    assert_eq!(next.ticks[0].value, 1_200_000_000);
}

#[test]
fn no_tick_is_emitted_beyond_the_far_edge() {
    // a margin that swallows the screen: the far edge lies before the near edge
    let set = compute_ticks(850_000_000, 0, 2_500_000, 1000, 201);
    assert_eq!(set.ticks.len(), 0);
    assert_eq!(set.spacing, 85_000_000);
    // 101 pixels wide with a margin of 50: the plot area is [-0.009901, 0.009901],
    // the first multiple of 0.1 lies at 0.05
    let narrow = compute_ticks(UNIT, 50_000_000, 2_000_000_000 / 101, 50, 201);
    assert_eq!(narrow.ticks.len(), 0);
    // without the translation the multiple 0 lies inside
    let centred = compute_ticks(UNIT, 0, 2_000_000_000 / 101, 50, 201);
    assert_eq!(centred.ticks.len(), 1);
    assert_eq!(centred.ticks[0].value, 0);
}

#[test]
fn every_tick_lies_inside_the_plot_area() {
    let mut scale: i64 = 1;
    while scale < i64::MAX / 8 {
        for translate in [i64::MIN, -5 * UNIT, -UNIT / 7, 0, 3, UNIT, i64::MAX] {
            for (pixel_scale, margin) in
                [(2_500_000i64, 50u32), (2_000_000_000 / 101, 50), (-3, 7), (0, 9), (i64::MAX, u32::MAX)]
            {
                let set = compute_ticks(scale, translate, pixel_scale, margin, 40);
                let inset = margin as i128 * pixel_scale as i128;
                for tick in &set.ticks {
                    assert!(tick.screen_position as i128 >= -(UNIT as i128) + inset);
                    assert!(tick.screen_position as i128 <= UNIT as i128 - inset);
                }
            }
        }
        scale = scale * 5 + 1;
    }
}

#[test]
fn a_first_tick_that_is_not_representable_means_no_ticks() {
    // scale of one unit: the visible range starts near 2e19, beyond the number range
    let set = compute_ticks(1, -20 * UNIT, 2_500_000, 50, 201);
    assert_eq!(set.ticks.len(), 0);
    assert_eq!(set.spacing, 0);
    assert_eq!(set.step, 0);
}

#[test]
fn a_scale_that_is_not_positive_has_no_ticks() {
    for scale in [0, -1, -850_000_000, i64::MIN] {
        let set = compute_ticks(scale, 0, 2_500_000, 50, 201);
        assert_eq!(set.ticks.len(), 0);
        assert_eq!(set.spacing, 0);
        assert_eq!(set.step, 0);
    }
}

#[test]
fn a_scale_beyond_the_resolution_has_no_ticks() {
    let set = compute_ticks(i64::MAX, 0, 2_500_000, 50, 201);
    assert_eq!(set.ticks.len(), 0);
    assert_eq!(set.spacing, 0);
}

#[test]
fn extreme_inputs_terminate() {
    for scale in [1, 9, 10, 11, 1_000_000, i64::MAX / 2] {
        for translate in [i64::MIN, -1, 0, 1, i64::MAX] {
            for pixel_scale in [i64::MIN, 0, 1, 2_500_000, i64::MAX] {
                for margin in [0, 50, u32::MAX] {
                    let set = compute_ticks(scale, translate, pixel_scale, margin, 50);
                    assert!(set.ticks.len() <= 50);
                    for pair in set.ticks.windows(2) {
                        assert!(pair[1].screen_position - pair[0].screen_position >= set.spacing);
                    }
                }
            }
        }
    }
}

#[test]
fn two_hundred_and_one_slots_suffice() {
    let mut scale: i64 = 1_000_000;
    while scale <= 1_000_000_000_000 {
        for translate in [-1_000 * UNIT, -UNIT / 3, 0, 7, 999 * UNIT] {
            for (pixel_scale, margin) in [(2_500_000, 50), (2_000, 499_999), (1_000_000_000, 0)] {
                let set = compute_ticks(scale, translate, pixel_scale, margin, 1000);
                assert!(set.ticks.len() <= 201);
                assert!(set.spacing >= 10_000_000 && set.spacing <= 100_000_000);
                let near = -UNIT + margin as i64 * pixel_scale;
                for tick in &set.ticks {
                    assert!(tick.screen_position >= near && tick.screen_position <= -near);
                }
            }
        }
        scale = scale * 7 / 5 + 1;
    }
}

#[test]
fn a_full_screen_at_the_finest_spacing_fills_all_slots() {
    // scale and translation one unit above 1 and 0: ticks 0.01 apart from edge to edge
    let set = compute_ticks(UNIT + 1, 1, 2_500_000, 0, 1000);
    assert_eq!(set.spacing, 10_000_000);
    assert_eq!(set.ticks.len(), 201);
    assert_eq!(set.ticks[0].label, "-1");
    assert_eq!(set.ticks[200].label, "1");
    assert_eq!(set.ticks[0].screen_position, -UNIT);
    assert_eq!(set.ticks[200].screen_position, UNIT);
    // without the translation the tick at -1 falls one unit before the near edge
    let fewer = compute_ticks(UNIT + 1, 0, 2_500_000, 0, 1000);
    assert_eq!(fewer.ticks.len(), 200);
    assert_eq!(fewer.ticks[0].label, "-0.99");
}

/// The ticks as floating-point arithmetic gives them.
fn float_ticks(scale: f64, translate: f64, pixel_scale: f64, margin: f64, max: usize) -> Vec<(f64, f64)> {
    let mut step = 10f64.powf((-scale.log10()).floor()) / 100.0;
    let mut spacing = step * scale;
    if 2.0 / spacing > 50.0 {
        step *= 10.0;
        spacing *= 10.0;
    }
    let start = (-1.0 - translate + margin * pixel_scale) / scale;
    let mut value = (start / step).ceil() * step;
    let mut x = value * scale + translate;
    let mut ticks = Vec::new();
    while ticks.len() < max && x <= 1.0 - margin * pixel_scale {
        ticks.push((x, value));
        x += spacing;
        value += step;
    }
    ticks
}

#[test]
fn ticks_agree_with_floating_point() {
    let scales: [i64; 7] = [
        1_234_567,
        85_000_000,
        850_000_000,
        1_050_000_000,
        7_777_777_777,
        123_456_789_012,
        999_999_999_999,
    ];
    let translates: [i64; 5] = [-3_141_592_653, -250_000_000, 0, 123_456_789, 45_678_901_234];
    for scale in scales {
        for translate in translates {
            let set = compute_ticks(scale, translate, 2_500_000, 50, 201);
            let expected =
                float_ticks(scale as f64 / 1e9, translate as f64 / 1e9, 0.0025, 50.0, 201);
            assert_eq!(set.ticks.len(), expected.len(), "scale {} translate {}", scale, translate);
            for (tick, (x, value)) in set.ticks.iter().zip(expected) {
                assert!((tick.screen_position as f64 / 1e9 - x).abs() < 1e-5);
                assert!((tick.value as f64 / 1e9 - value).abs() < 1e-5 * (1.0 + value.abs()));
            }
        }
    }
}
