use pine_analysis::fmt::push_num;
use pine_analysis::num::{parse_number_at, Num};

fn parse(text: &str) -> Option<Num> {
    let v: Vec<char> = text.chars().collect();
    parse_number_at(&v, 0, v.len())
}

fn text_of(x: &Num) -> String {
    let mut v: Vec<char> = Vec::new();
    push_num(&mut v, x);
    v.into_iter().collect()
}

#[test]
fn literal_past_i64_has_a_value() {
    let x = parse("1e19").expect("1e19 is a number");
    assert!(Num::from_int(i64::MAX).less_than(&x));
    assert!(x.is_positive());
    assert_eq!(text_of(&x), "10000000000000000000");
}

#[test]
fn twenty_digit_integer_has_a_value() {
    let x = parse("12345678901234567890").expect("a number");
    let y = parse("1.234567890123456789e19").expect("a number");
    assert!(x.same_value(&y));
    assert_eq!(text_of(&x), "12345678901234567890");
}

#[test]
fn many_fraction_digits_have_a_value() {
    let x = parse("0.00000000000000000001").expect("a number");
    assert!(x.is_positive());
    assert!(x.less_than(&Num::from_ratio(1, 1_000_000_000_000_000_000)));
}

#[test]
fn huge_quotient_of_constants() {
    let a = parse("1000000000000").expect("a number");
    let s = parse("0.0000001").expect("a number");
    let q = a.div(&s).expect("step is not zero");
    assert!(q.same_value(&parse("1e19").expect("a number")));
    assert_eq!(q.round(), i64::MAX);
}

#[test]
fn exponents_past_float_range() {
    assert!(parse("1e401").is_none());
    assert!(parse("-2e450").is_none());
    assert!(parse("0e999").expect("zero").is_zero());
    let z = parse("1e-500").expect("reads as zero");
    assert!(z.is_zero());
    let big = parse("1e300").expect("a number");
    assert!(big.is_positive());
}

#[test]
fn malformed_numbers_have_no_value() {
    assert!(parse("").is_none());
    assert!(parse(".").is_none());
    assert!(parse("1e").is_none());
    assert!(parse("1.2.3").is_none());
}

#[test]
fn exact_fraction_arithmetic() {
    let third = Num::from_ratio(1, 3);
    let sixth = Num::from_ratio(1, 6);
    assert!(third.add(&sixth).same_value(&Num::from_ratio(1, 2)));
    assert!(third.sub(&third).is_zero());
    assert!(third.mul(&Num::from_int(3)).same_value(&Num::from_int(1)));
    assert!(Num::from_int(1).div(&Num::from_int(0)).is_none());
    assert!(Num::from_int(7).rem(&Num::from_int(0)).is_none());
    let r = Num::from_int(-7).rem(&Num::from_int(2)).expect("divisor is not zero");
    assert!(r.same_value(&Num::from_int(-1)));
}

#[test]
fn rounding_goes_half_away_from_zero() {
    assert_eq!(Num::from_ratio(5, 2).round(), 3);
    assert_eq!(Num::from_ratio(-5, 2).round(), -3);
    assert_eq!(Num::from_ratio(7, 3).round(), 2);
    assert_eq!(parse("-1e30").expect("a number").round(), i64::MIN);
}

#[test]
fn decimal_text_of_numbers() {
    assert_eq!(text_of(&Num::from_int(-42)), "-42");
    assert_eq!(text_of(&Num::from_ratio(1, 4)), "0.25");
    assert_eq!(text_of(&parse("2.50").expect("a number")), "2.5");
}
