use leopard::text::str_eq;
use leopard::text::u64_to_string;

#[test]
fn decimal_rendering_exact_values() {
    assert_eq!(u64_to_string(0), "0");
    assert_eq!(u64_to_string(7), "7");
    assert_eq!(u64_to_string(10), "10");
    assert_eq!(u64_to_string(90125), "90125");
    assert_eq!(u64_to_string(u64::MAX), "18446744073709551615");
}

#[test]
fn str_eq_compares_by_characters() {
    assert!(str_eq("", ""));
    assert!(str_eq("wav", "wav"));
    assert!(!str_eq("wav", "wave"));
    assert!(!str_eq("wav", "WAV"));
    assert!(str_eq("stra\u{00df}e", "stra\u{00df}e"));
    assert!(!str_eq("stra\u{00df}e", "strasse"));
    assert!(!str_eq("a", ""));
}
