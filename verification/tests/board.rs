use riscv_os::board::{
    exit_code_encode, qemu_exit_handle, MmioWrite, QEMUExit, EXIT_FAILURE, EXIT_FAILURE_FLAG,
    EXIT_RESET, EXIT_SUCCESS, RISCV64, VIRT_TEST,
};

#[test]
fn encode_one_is_failure() {
    assert_eq!(exit_code_encode(1), 0x0001_3333);
    assert_eq!(exit_code_encode(1), EXIT_FAILURE);
}

#[test]
fn encode_shifts_code_into_high_half() {
    assert_eq!(exit_code_encode(0), EXIT_FAILURE_FLAG);
    assert_eq!(exit_code_encode(2), 0x0002_3333);
    assert_eq!(exit_code_encode(0xffff), 0xffff_3333);
    // bits above the low half-word fall off
    assert_eq!(exit_code_encode(0x1_0005), 0x0005_3333);
    assert_eq!(exit_code_encode(u32::MAX), 0xffff_3333);
}

#[test]
fn exit_passes_device_commands_through() {
    let h = RISCV64::new(0x2000);
    assert_eq!(h.exit(EXIT_SUCCESS), MmioWrite { addr: 0x2000, value: 0x5555 });
    assert_eq!(h.exit(EXIT_FAILURE), MmioWrite { addr: 0x2000, value: 0x1_3333 });
    assert_eq!(h.exit(EXIT_RESET), MmioWrite { addr: 0x2000, value: 0x7777 });
}

#[test]
fn exit_encodes_other_codes() {
    let h = RISCV64::new(0x2000);
    assert_eq!(h.exit(0), MmioWrite { addr: 0x2000, value: 0x3333 });
    assert_eq!(h.exit(1), MmioWrite { addr: 0x2000, value: 0x1_3333 });
    assert_eq!(h.exit(7), MmioWrite { addr: 0x2000, value: 0x7_3333 });
    assert_eq!(h.exit(0x5556), MmioWrite { addr: 0x2000, value: 0x5556_3333 });
}

#[test]
fn exit_success_and_failure() {
    let h = RISCV64::new(0x100000);
    assert_eq!(h.exit_success(), MmioWrite { addr: 0x100000, value: EXIT_SUCCESS });
    assert_eq!(h.exit_failure(), MmioWrite { addr: 0x100000, value: EXIT_FAILURE });
    assert_eq!(h.exit_failure(), h.exit(1));
}

#[test]
fn every_exit_store_is_a_device_command() {
    let h = RISCV64::new(0x100000);
    for code in [0u32, 1, 2, 0x3333, 0x5555, 0x7777, 0x1_3333, 0xdead_beef, u32::MAX] {
        let low = h.exit(code).value & 0xffff;
        assert!(low == 0x3333 || low == 0x5555 || low == 0x7777);
    }
}

#[test]
fn handle_is_at_virt_test() {
    assert_eq!(VIRT_TEST, 0x100000);
    assert_eq!(qemu_exit_handle().exit_failure(), MmioWrite { addr: 0x100000, value: 0x1_3333 });
}
