use current_logger::text::{push_dec, push_fixed, push_padded};

#[test]
fn decimal_text() {
    let mut s = String::new();
    push_dec(&mut s, 0);
    s.push(' ');
    push_dec(&mut s, 4095);
    s.push(' ');
    push_dec(&mut s, u64::MAX);
    assert_eq!(s, "0 4095 18446744073709551615");
}

#[test]
fn padded_text() {
    let mut s = String::new();
    push_padded(&mut s, 42, 5);
    assert_eq!(s, "00042");
}

#[test]
fn fixed_text() {
    let mut s = String::new();
    push_fixed(&mut s, -1, 5, 100000);
    s.push(' ');
    push_fixed(&mut s, 123456789, 5, 100000);
    s.push(' ');
    push_fixed(&mut s, 5, 2, 100);
    s.push(' ');
    push_fixed(&mut s, i64::MIN, 2, 100);
    assert_eq!(s, "-0.00001 1234.56789 0.05 -92233720368547758.08");
}
