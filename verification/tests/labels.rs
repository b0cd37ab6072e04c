use niobe::label::convert_to_text;

#[test]
fn rounds_to_two_significant_digits() {
    assert_eq!(convert_to_text(123_456_000_000), "120");
}

#[test]
fn keeps_a_fraction() {
    assert_eq!(convert_to_text(500_000_000), "0.5");
}

#[test]
fn trims_the_trailing_zero() {
    assert_eq!(convert_to_text(1_000_000_000), "1");
}

#[test]
fn writes_zero() {
    assert_eq!(convert_to_text(0), "0");
}

#[test]
fn writes_negative_values() {
    assert_eq!(convert_to_text(-2_500_000_000), "-2.5");
    assert_eq!(convert_to_text(-1), "-0.000000001");
}

#[test]
fn ties_go_to_the_even_digit() {
    assert_eq!(convert_to_text(125_000_000_000), "120");
    assert_eq!(convert_to_text(135_000_000_000), "140");
    assert_eq!(convert_to_text(99_500_000_000), "100");
    assert_eq!(convert_to_text(12_300_000), "0.012");
}

#[test]
fn writes_the_extremes() {
    assert_eq!(convert_to_text(i64::MAX), "9200000000");
    assert_eq!(convert_to_text(i64::MIN), "-9200000000");
}
