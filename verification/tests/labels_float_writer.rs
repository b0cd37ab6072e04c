use lexical::write_float_options::RoundMode;
use niobe::components::scale::compute_ticks;
use niobe::label::convert_to_text;
use std::num::NonZeroUsize;

const FORMAT: u128 = lexical::format::STANDARD;

/// Two significant digits, nearest with ties to even, as a float writer
/// renders the single-precision number nearest to the value.
fn float_text(value: i64) -> String {
    let options = lexical::WriteFloatOptions::builder()
        .max_significant_digits(NonZeroUsize::new(2))
        .round_mode(RoundMode::Round)
        .trim_floats(true)
        .decimal_point(b'.')
        .build()
        .unwrap();
    lexical::to_string_with_options::<_, FORMAT>((value as f64 / 1e9) as f32, &options)
}

/// The float writer keeps a zero that rounding left behind the decimal
/// point (`1.01` becomes `1.0`); labels drop it.
fn without_trailing_zeros(text: String) -> String {
    if text.contains('.') {
        text.trim_end_matches('0').trim_end_matches('.').to_string()
    } else {
        text
    }
}

#[test]
fn the_float_writer_agrees_on_the_examples() {
    assert_eq!(float_text(123_456_000_000), "120");
    assert_eq!(float_text(500_000_000), "0.5");
    assert_eq!(float_text(1_000_000_000), "1");
    assert_eq!(convert_to_text(123_456_000_000), "120");
    assert_eq!(convert_to_text(500_000_000), "0.5");
    assert_eq!(convert_to_text(1_000_000_000), "1");
}

#[test]
fn the_float_writer_keeps_zeros_that_labels_drop() {
    assert_eq!(float_text(1_010_000_000), "1.0");
    assert_eq!(convert_to_text(1_010_000_000), "1");
    assert_eq!(float_text(-205_000_000), "-0.20");
    assert_eq!(convert_to_text(-205_000_000), "-0.2");
}

#[test]
fn the_float_writer_agrees_on_multiples_of_every_step() {
    // the steps of all admitted scales: from a ten-thousandth to a hundred
    let mut step: i64 = 100_000;
    while step <= 100_000_000_000 {
        for k in -2500..=2500 {
            let value = k * step;
            let expected = without_trailing_zeros(float_text(value));
            assert_eq!(convert_to_text(value), expected, "value {}", value);
        }
        step *= 10;
    }
}

#[test]
fn the_float_writer_agrees_on_the_ticks_of_a_chart() {
    let mut scale: i64 = 1_000_000;
    while scale <= 1_000_000_000_000 {
        for translate in [-900_000_000_000, -1_234_567_890, 0, 250_000_000, 77_000_000_000] {
            let set = compute_ticks(scale, translate, 2_500_000, 50, 201);
            for tick in &set.ticks {
                let expected = without_trailing_zeros(float_text(tick.value));
                assert_eq!(tick.label, expected, "value {}", tick.value);
            }
        }
        scale = scale * 3 / 2 + 1;
    }
}
