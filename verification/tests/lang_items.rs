use riscv_os::lang_items::panic_report;

#[test]
fn report_with_location() {
    assert_eq!(
        panic_report(Some(("src/main.rs", 42)), "oops"),
        "[kernel] Panicked at src/main.rs:42 oops\n"
    );
    assert_eq!(panic_report(Some(("a.rs", 0)), ""), "[kernel] Panicked at a.rs:0 \n");
    assert_eq!(
        panic_report(Some(("x", u32::MAX)), "m"),
        "[kernel] Panicked at x:4294967295 m\n"
    );
}

#[test]
fn report_without_location() {
    assert_eq!(panic_report(None, "oops"), "[kernel] Panicked: oops\n");
}
