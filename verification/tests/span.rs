use stopwatch::decimal::{push_decimal, to_decimal};
use stopwatch::Span;

#[test]
fn zero_is_no_time() {
    let z = Span::zero();
    assert_eq!(z.as_nanos(), 0);
    assert_eq!(z.as_millis(), 0);
    assert_eq!(z.as_secs(), 0);
    assert_eq!(z.subsec_nanos(), 0);
    assert_eq!(z, Span::from_secs(0));
    assert_eq!(z, Span::from_millis(0));
    assert_eq!(Some(z), Span::new(0, 0));
}

#[test]
fn new_takes_nanoseconds_below_one_second() {
    let s = Span::new(3, 999_999_999).unwrap();
    assert_eq!(s.as_secs(), 3);
    assert_eq!(s.subsec_nanos(), 999_999_999);
    assert_eq!(s.as_nanos(), 3_999_999_999);
    assert_eq!(s.as_millis(), 3_999);
}

#[test]
fn new_refuses_a_whole_second_of_nanoseconds() {
    assert_eq!(Span::new(0, 1_000_000_000), None);
    assert_eq!(Span::new(7, 1_000_000_001), None);
    assert_eq!(Span::new(u64::MAX, u32::MAX), None);
}

#[test]
fn from_secs_counts_whole_seconds() {
    let s = Span::from_secs(12);
    assert_eq!(s.as_nanos(), 12_000_000_000);
    assert_eq!(s.as_millis(), 12_000);
    assert_eq!(s.as_secs(), 12);
    assert_eq!(s.subsec_nanos(), 0);
}

#[test]
fn from_millis_counts_whole_milliseconds() {
    let s = Span::from_millis(1500);
    assert_eq!(s.as_nanos(), 1_500_000_000);
    assert_eq!(s.as_millis(), 1500);
    assert_eq!(s.as_secs(), 1);
    assert_eq!(s.subsec_nanos(), 500_000_000);
    assert_eq!(Some(s), Span::new(1, 500_000_000));

    let t = Span::from_millis(999);
    assert_eq!(t.as_secs(), 0);
    assert_eq!(t.subsec_nanos(), 999_000_000);
}

#[test]
fn from_millis_takes_every_count() {
    let s = Span::from_millis(u64::MAX);
    assert_eq!(s.as_millis(), 18_446_744_073_709_551_615);
    assert_eq!(s.as_secs(), 18_446_744_073_709_551);
    assert_eq!(s.subsec_nanos(), 615_000_000);
    assert_eq!(s.as_nanos(), 18_446_744_073_709_551_615_000_000);
}

#[test]
fn as_millis_drops_the_unfinished_millisecond() {
    assert_eq!(Span::new(0, 999_999).unwrap().as_millis(), 0);
    assert_eq!(Span::new(0, 1_000_000).unwrap().as_millis(), 1);
    assert_eq!(Span::new(1, 500_999_999).unwrap().as_millis(), 1500);
    assert_eq!(Span::new(2, 1_999_999).unwrap().as_millis(), 2001);
}

#[test]
fn the_longest_span_fits() {
    let s = Span::new(u64::MAX, 999_999_999).unwrap();
    assert_eq!(s.as_secs(), u64::MAX);
    assert_eq!(s.subsec_nanos(), 999_999_999);
    assert_eq!(s.as_millis(), 18_446_744_073_709_551_615_999);
    assert_eq!(s.as_nanos(), 18_446_744_073_709_551_615_999_999_999);
}

#[test]
fn spans_of_one_length_are_equal() {
    assert_eq!(Span::from_millis(2000), Span::from_secs(2));
    assert_eq!(Span::from_millis(2001), Span::new(2, 1_000_000).unwrap());
    assert_ne!(Span::from_millis(2001), Span::from_secs(2));
    assert_ne!(Span::new(0, 1).unwrap(), Span::zero());
}

#[test]
fn span_agrees_with_the_standard_duration() {
    for millis in [0u64, 1, 999, 1000, 1500, 86_400_000, u64::MAX] {
        let d = std::time::Duration::from_millis(millis);
        let s = Span::from_millis(millis);
        assert_eq!(s.as_secs(), d.as_secs());
        assert_eq!(s.subsec_nanos(), d.subsec_nanos());
        assert_eq!(s.as_millis(), d.as_millis());
        assert_eq!(s.as_nanos(), d.as_nanos());
    }
}

#[test]
fn decimal_of_single_digits() {
    let digits = ["0", "1", "2", "3", "4", "5", "6", "7", "8", "9"];
    for (n, text) in digits.iter().enumerate() {
        assert_eq!(to_decimal(n as u128), *text);
    }
}

#[test]
fn decimal_has_no_padding_or_separator() {
    assert_eq!(to_decimal(10), "10");
    assert_eq!(to_decimal(1500), "1500");
    assert_eq!(to_decimal(1_000_000), "1000000");
    assert_eq!(to_decimal(9_876_543_210), "9876543210");
}

#[test]
fn decimal_of_the_largest_number() {
    assert_eq!(to_decimal(u128::MAX), "340282366920938463463374607431768211455");
    assert_eq!(to_decimal(u128::MAX), format!("{}", u128::MAX));
}

#[test]
fn decimal_reads_back() {
    for n in [0u128, 7, 42, 100, 1999, 65_536, 4_294_967_296, 10_000_000_000_000_000_000] {
        assert_eq!(to_decimal(n).parse::<u128>().unwrap(), n);
    }
}

#[test]
fn push_decimal_appends() {
    let mut out = String::from("t=");
    push_decimal(&mut out, 305);
    assert_eq!(out, "t=305");
    push_decimal(&mut out, 0);
    assert_eq!(out, "t=3050");
}
