use optopus_py::text::{push_decimal, push_signed_decimal, str_eq};

#[test]
fn decimal_rendering() {
    let mut s = String::from("n=");
    push_decimal(&mut s, 0);
    assert_eq!(s, "n=0");
    let mut s = String::new();
    push_decimal(&mut s, 1234567890);
    assert_eq!(s, "1234567890");
    let mut s = String::new();
    push_decimal(&mut s, u128::MAX);
    assert_eq!(s, u128::MAX.to_string());
}

#[test]
fn signed_decimal_rendering() {
    for v in [0i64, 7, -7, 10, -10, i64::MAX, i64::MIN] {
        let mut s = String::new();
        push_signed_decimal(&mut s, v);
        assert_eq!(s, v.to_string());
    }
}

#[test]
fn string_equality() {
    assert!(str_eq("Flip", "Flip"));
    assert!(!str_eq("Flip", "Flop"));
    assert!(!str_eq("Flip", "Flipper"));
    assert!(str_eq("", ""));
    assert!(str_eq("größe", "größe"));
    assert!(!str_eq("größe", "grosse"));
}
