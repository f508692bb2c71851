use riscv_os::text::{append_decimal, append_padded, str_eq};

#[test]
fn decimal_numbers() {
    for n in [0u32, 7, 10, 99, 100, 1234, 4_000_000_000, u32::MAX] {
        let mut s = String::from("n=");
        append_decimal(&mut s, n);
        assert_eq!(s, format!("n={}", n));
    }
}

#[test]
fn padding() {
    let mut s = String::new();
    append_padded(&mut s, "ab", 5);
    assert_eq!(s, "ab   ");
    let mut t = String::from("x");
    append_padded(&mut t, "abcdef", 3);
    assert_eq!(t, "xabcdef");
}

#[test]
fn string_equality() {
    assert!(str_eq("INFO", "INFO"));
    assert!(!str_eq("INFO", "INF"));
    assert!(!str_eq("INFO", "info"));
    assert!(str_eq("", ""));
}
