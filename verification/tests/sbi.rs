use riscv_os::board::MmioWrite;
use riscv_os::console::{print, Stdout};
use riscv_os::sbi::{console_putchar, shutdown, SbiCall, SBI_CONSOLE_PUTCHAR};

#[test]
fn putchar_call() {
    assert_eq!(SBI_CONSOLE_PUTCHAR, 1);
    assert_eq!(console_putchar('H' as usize), SbiCall { which: 1, arg0: 72, arg1: 0, arg2: 0 });
    assert_eq!(console_putchar('\n' as usize), SbiCall { which: 1, arg0: 10, arg1: 0, arg2: 0 });
}

#[test]
fn shutdown_is_failing_exit() {
    assert_eq!(shutdown(), MmioWrite { addr: 0x100000, value: 0x1_3333 });
}

#[test]
fn print_one_call_per_char() {
    let calls = print("Hi!");
    let codes: Vec<usize> = calls.iter().map(|c| c.arg0).collect();
    assert_eq!(codes, vec![72, 105, 33]);
    assert!(calls.iter().all(|c| c.which == 1 && c.arg1 == 0 && c.arg2 == 0));
}

#[test]
fn print_empty() {
    assert!(print("").is_empty());
}

#[test]
fn write_str_uses_code_points() {
    let calls = Stdout.write_str("é中");
    let codes: Vec<usize> = calls.iter().map(|c| c.arg0).collect();
    assert_eq!(codes, vec![0xe9, 0x4e2d]);
}

#[test]
fn write_char_at_walks_the_text() {
    let s = "aé!";
    assert_eq!(Stdout.write_char_at(s, 0), Some(SbiCall { which: 1, arg0: 97, arg1: 0, arg2: 0 }));
    assert_eq!(Stdout.write_char_at(s, 1), Some(SbiCall { which: 1, arg0: 0xe9, arg1: 0, arg2: 0 }));
    assert_eq!(Stdout.write_char_at(s, 2), Some(SbiCall { which: 1, arg0: 33, arg1: 0, arg2: 0 }));
    assert_eq!(Stdout.write_char_at(s, 3), None);
    assert_eq!(Stdout.write_char_at("", 0), None);
}
