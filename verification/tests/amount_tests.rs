use invoice_seeder::amount::amount_string;

#[test]
fn renders_exact_values() {
    assert_eq!(amount_string(12345), "123.45");
    assert_eq!(amount_string(10000), "100.00");
    assert_eq!(amount_string(999999), "9999.99");
    assert_eq!(amount_string(1000), "10.00");
    assert_eq!(amount_string(99999), "999.99");
    assert_eq!(amount_string(101), "1.01");
    assert_eq!(amount_string(0), "0.00");
}

#[test]
fn always_two_fraction_digits() {
    for cents in [0u64, 1, 9, 10, 99, 100, 10000, 123456, 999999, u64::MAX] {
        let s = amount_string(cents);
        let dot = s.find('.').expect("no dot");
        assert_eq!(dot, s.len() - 3, "dot not third from last in {s}");
        assert_eq!(s.matches('.').count(), 1, "more than one dot in {s}");
        let frac = &s[dot + 1..];
        assert_eq!(frac.len(), 2);
        assert!(frac.chars().all(|c| c.is_ascii_digit()));
    }
}

#[test]
fn round_trips_through_decimal_parse() {
    // The rendered text must denote the same quantity: a decimal parser
    // scaled back to cents recovers the input.
    for cents in [0u64, 5, 12345, 999999, 100000000] {
        let s = amount_string(cents);
        let d = bigdecimal::BigDecimal::parse_bytes(s.replace('.', "").as_bytes(), 10)
            .expect("parse failed");
        assert_eq!(d, bigdecimal::BigDecimal::from(cents));
    }
}
