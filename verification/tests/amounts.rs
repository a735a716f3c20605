use csc1106::amount::{sum_amounts, Amount};
use csc1106::entity::invoice_line_item::GstRate;
use csc1106::models::invoice::calc::line_gst_amount;
use csc1106::middleware::tera_filters::money;
use csc1106::text::{int_text, padded_text};

fn amt(s: &str) -> Amount {
    Amount::parse(s).expect("a decimal")
}

#[test]
fn parse_keeps_mantissa_and_scale() {
    let a = amt("12.50");
    assert_eq!(a.mantissa(), 1250);
    assert_eq!(a.scale(), 2);
    let b = amt("-3");
    assert_eq!(b.mantissa(), -3);
    assert_eq!(b.scale(), 0);
}

#[test]
fn parse_rejects_non_numbers() {
    assert!(Amount::parse("abc").is_none());
    assert!(Amount::parse("").is_none());
    assert!(Amount::parse("1.2.3").is_none());
}

#[test]
fn new_rejects_unrepresentable_parts() {
    assert!(Amount::new(1, 29).is_none());
    assert!(Amount::new(79228162514264337593543950336, 0).is_none());
    assert!(Amount::new(79228162514264337593543950335, 28).is_some());
}

#[test]
fn display_and_two_places() {
    assert_eq!(amt("12.50").to_text(), "12.50");
    assert_eq!(amt("12.5").to_text_2dp(), "12.50");
    assert_eq!(amt("-0.125").to_text_2dp(), "-0.12");
    assert_eq!(amt("7").to_text(), "7");
}

#[test]
fn money_filter_formats_decimals_only() {
    assert_eq!(money("1234.5"), Some("S$1234.50".to_string()));
    assert_eq!(money("0"), Some("S$0.00".to_string()));
    assert_eq!(money("n/a"), None);
}

#[test]
fn sums_are_exact_when_they_fit() {
    let s = sum_amounts(&vec![amt("10.25"), amt("0.75")]).unwrap();
    assert!(s.num_eq(&amt("11")));
    assert_eq!(s.to_text(), "11.00");
    let max = Amount::new(79228162514264337593543950335, 0).unwrap();
    assert!(sum_amounts(&vec![max, amt("-1"), amt("1")]).is_some());
}

#[test]
fn gst_rounding_is_half_to_even() {
    assert_eq!(line_gst_amount(1, &amt("0.125"), &GstRate::Standard).unwrap().to_text(), "0.0112");
    assert_eq!(line_gst_amount(1, &amt("0.375"), &GstRate::Standard).unwrap().to_text(), "0.0338");
    assert_eq!(line_gst_amount(2, &amt("0.5"), &GstRate::Standard).unwrap().to_text(), "0.090");
}

#[test]
fn comparisons_use_values() {
    assert!(amt("1.0").num_eq(&amt("1.00")));
    assert!(amt("0.99").less_than(&amt("1")));
    assert!(!amt("1").less_than(&amt("1.000")));
    assert!(amt("-0.01").is_negative());
    assert!(amt("0.00").is_zero());
    assert!(amt("0.01").is_positive());
    assert!(amt("2.5").neg().num_eq(&amt("-2.5")));
}

#[test]
fn sum_of_amounts_in_order() {
    let v = vec![amt("1.10"), amt("2.20"), amt("3.30")];
    let s = sum_amounts(&v).unwrap();
    assert!(s.num_eq(&amt("6.6")));
    assert!(sum_amounts(&Vec::new()).unwrap().is_zero());
    let max = Amount::new(79228162514264337593543950335, 0).unwrap();
    assert!(sum_amounts(&vec![max, amt("1")]).is_none());
}

#[test]
fn integer_texts() {
    assert_eq!(int_text(-42), "-42");
    assert_eq!(int_text(0), "0");
    assert_eq!(int_text(i64::MIN), "-9223372036854775808");
    assert_eq!(padded_text(7, 4), "0007");
    assert_eq!(padded_text(12345, 4), "12345");
}
