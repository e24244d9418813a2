use fields_valid::number::Double;
use fields_valid::text::{parse_usize, text_eq};

fn num(x: f64) -> Double {
    Double::from_bits(x.to_bits()).unwrap()
}

#[test]
fn a_nan_is_no_number() {
    assert_eq!(Double::from_bits(f64::NAN.to_bits()), None);
    assert_eq!(Double::from_bits(0x7ff0_0000_0000_0001), None);
    assert_eq!(Double::from_bits(0xfff8_0000_0000_0000), None);
}

#[test]
fn infinities_are_numbers() {
    assert!(Double::from_bits(f64::INFINITY.to_bits()).is_some());
    assert!(Double::from_bits(f64::NEG_INFINITY.to_bits()).is_some());
    assert!(num(f64::NEG_INFINITY).lt(num(f64::MIN)));
    assert!(num(f64::MAX).lt(num(f64::INFINITY)));
}

#[test]
fn the_two_zeros_are_one_number() {
    assert_eq!(num(0.0), num(-0.0));
    assert!(num(0.0).le(num(-0.0)));
    assert!(num(-0.0).le(num(0.0)));
    assert!(!num(-0.0).lt(num(0.0)));
    assert_eq!(num(-0.0).to_bits(), 0);
}

#[test]
fn order_follows_the_numeric_order() {
    let samples: Vec<f64> = vec![
        f64::NEG_INFINITY,
        -1.0e300,
        -10.5,
        -1.0,
        -4.9e-324,
        0.0,
        4.9e-324,
        0.5,
        1.0,
        9.999,
        10.0,
        1.0e300,
        f64::INFINITY,
    ];
    for a in samples.iter() {
        for b in samples.iter() {
            assert_eq!(num(*a).lt(num(*b)), a < b);
            assert_eq!(num(*a).le(num(*b)), a <= b);
            assert_eq!(num(*a).min_of(num(*b)), num(a.min(*b)));
            assert_eq!(num(*a).max_of(num(*b)), num(a.max(*b)));
        }
    }
}

#[test]
fn bits_come_back() {
    let samples: Vec<f64> = vec![-10.5, -1.0, 0.0, 0.5, 1.0, 9.999, f64::INFINITY, f64::NEG_INFINITY];
    for x in samples.iter() {
        assert_eq!(num(*x).to_bits(), x.to_bits());
        assert_eq!(f64::from_bits(num(*x).to_bits()), *x);
    }
}

#[test]
fn within_is_closed_below_and_open_above() {
    assert!(num(1.0).within(num(1.0), num(10.0)));
    assert!(num(9.999).within(num(1.0), num(10.0)));
    assert!(!num(10.0).within(num(1.0), num(10.0)));
    assert!(!num(0.999).within(num(1.0), num(10.0)));
    assert!(!num(5.0).within(num(5.0), num(5.0)));
    assert!(num(-2.0).within(num(-3.0), num(-1.0)));
}

#[test]
fn equal_bounds_are_met_by_that_number_alone() {
    assert!(num(5.0).meets(num(5.0), num(5.0)));
    assert!(!num(4.0).meets(num(5.0), num(5.0)));
    assert!(!num(6.0).meets(num(5.0), num(5.0)));
    assert!(num(-0.0).meets(num(0.0), num(0.0)));
    assert!(num(1.0).meets(num(1.0), num(10.0)));
    assert!(num(9.999).meets(num(1.0), num(10.0)));
    assert!(!num(10.0).meets(num(1.0), num(10.0)));
    assert!(!num(0.0).meets(num(1.0), num(10.0)));
    assert!(!num(5.0).meets(num(10.0), num(1.0)));
}

#[test]
fn parse_usize_reads_plain_decimal_counts() {
    assert_eq!(parse_usize("0"), Some(0));
    assert_eq!(parse_usize("7"), Some(7));
    assert_eq!(parse_usize("0042"), Some(42));
    assert_eq!(parse_usize("+15"), Some(15));
    assert_eq!(parse_usize("18446744073709551615"), "18446744073709551615".parse::<usize>().ok());
}

#[test]
fn parse_usize_refuses_everything_else() {
    assert_eq!(parse_usize(""), None);
    assert_eq!(parse_usize("+"), None);
    assert_eq!(parse_usize("-1"), None);
    assert_eq!(parse_usize("1_000"), None);
    assert_eq!(parse_usize("10usize"), None);
    assert_eq!(parse_usize("0x10"), None);
    assert_eq!(parse_usize(" 1"), None);
    assert_eq!(parse_usize("1.5"), None);
    assert_eq!(parse_usize("++1"), None);
    assert_eq!(parse_usize("18446744073709551616"), "18446744073709551616".parse::<usize>().ok());
    assert_eq!(parse_usize("99999999999999999999999999"), None);
}

#[test]
fn parse_usize_agrees_with_the_standard_parser() {
    let samples: Vec<&str> = vec!["", "+", "-", "-0", "+0", "00", "12a", "a12", "١٢", "4294967295", "4294967296"];
    for s in samples.iter() {
        assert_eq!(parse_usize(s), s.parse::<usize>().ok());
    }
}

#[test]
fn text_eq_compares_characters() {
    assert!(text_eq("", ""));
    assert!(text_eq("abc", "abc"));
    assert!(!text_eq("abc", "abd"));
    assert!(!text_eq("abc", "ab"));
}
