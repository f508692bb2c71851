//! The QEMU `sifive_test` exit device.
//!
//! QEMU maps a test device at a fixed physical address. A 32-bit store to it
//! ends the emulation: the low half-word selects the command (pass, fail or
//! reset) and, for a failure, the high half-word carries the exit status.
//! This module decides which store a request to exit makes; performing the
//! store itself is the caller's business.

use vstd::prelude::*;

verus! {

/// Device command for a successful exit, equal to `exit(0)`.
pub const EXIT_SUCCESS: u32 = 0x5555;

/// Device command for a failing exit; the status goes in the high half-word.
pub const EXIT_FAILURE_FLAG: u32 = 0x3333;

/// Device command for a failing exit with status 1, equal to `exit(1)`:
/// the status 1 in the high half-word, the failure flag in the low one.
pub const EXIT_FAILURE: u32 = 0x1_0000 + EXIT_FAILURE_FLAG;

/// Device command that resets the machine.
pub const EXIT_RESET: u32 = 0x7777;

/// Physical address of QEMU's test device on the `virt` machine.
pub const VIRT_TEST: u64 = 0x100000;

/// The value that `exit_code_encode` computes: the code's low 16 bits as
/// the high half-word (`code << 16` drops the rest), the failure flag as
/// the low one.
pub open spec fn encode_spec(code: u32) -> int {
    (code % 0x10000) * 0x10000 + EXIT_FAILURE_FLAG
}

/// The three values that `exit` hands to the device unchanged.
pub open spec fn is_device_command(code: u32) -> bool {
    code == EXIT_SUCCESS || code == EXIT_FAILURE || code == EXIT_RESET
}

/// The value that an exit with `code` stores into the device.
pub open spec fn exit_value(code: u32) -> u32 {
    if is_device_command(code) {
        code
    } else {
        encode_spec(code) as u32
    }
}

/// Encodes an exit status as a failing exit command:
/// `(code << 16) | EXIT_FAILURE_FLAG`.
pub fn exit_code_encode(code: u32) -> (encoded: u32)
    ensures
        encoded == (code << 16u32) | EXIT_FAILURE_FLAG,
        encoded == encode_spec(code),
{
    proof {
        lemma_encode_arith(code);
    }
    (code << 16u32) | EXIT_FAILURE_FLAG
}

/// The encoded command holds the status's low 16 bits above the flag.
proof fn lemma_encode_arith(code: u32)
    ensures
        ((code << 16u32) | EXIT_FAILURE_FLAG) == encode_spec(code),
{
    assert(((code << 16u32) | 0x3333u32) == (code % 0x10000) * 0x10000 + 0x3333) by (bit_vector);
}

/// A 32-bit store into device memory: what an exit request asks the
/// caller to perform.
#[derive(Clone, Copy, Debug, PartialEq, Eq, Structural)]
pub struct MmioWrite {
    /// Physical address of the store.
    pub addr: u64,
    /// The word stored.
    pub value: u32,
}

/// The exit device of a RISC-V 64 QEMU machine, located at `addr`.
pub struct RISCV64 {
    addr: u64,
}

impl RISCV64 {
    /// The address of the device.
    pub closed spec fn device_addr(&self) -> u64 {
        self.addr
    }

    /// A handle for the exit device mapped at `addr`.
    pub fn new(addr: u64) -> (handle: Self)
        ensures
            handle.device_addr() == addr,
    {
        RISCV64 { addr }
    }
}

/// Leaving the emulator.
///
/// Each method returns the device store that ends the run; the caller
/// performs it and then waits forever, in case the emulator did not stop.
pub trait QEMUExit {
    /// The store that exits with `code`.
    fn exit(&self, code: u32) -> MmioWrite;

    /// The store that exits with success (`exit(0)`).
    fn exit_success(&self) -> MmioWrite;

    /// The store that exits with failure (`exit(1)`).
    fn exit_failure(&self) -> MmioWrite;
}

impl QEMUExit for RISCV64 {
    /// A device command (`EXIT_SUCCESS`, `EXIT_FAILURE`, `EXIT_RESET`) is
    /// stored as it is; any other code is encoded as a failing exit status.
    fn exit(&self, code: u32) -> (write: MmioWrite)
        ensures
            write == (MmioWrite { addr: self.device_addr(), value: exit_value(code) }),
            (code == 0x5555 || code == 0x1_3333 || code == 0x7777) ==> write.value == code,
            !(code == 0x5555 || code == 0x1_3333 || code == 0x7777) ==> write.value == ((code
                << 16u32) | 0x3333u32),
    {
        proof {
            lemma_exit_value_cases(code);
        }
        let value = if code == EXIT_SUCCESS || code == EXIT_FAILURE || code == EXIT_RESET {
            code
        } else {
            exit_code_encode(code)
        };
        MmioWrite { addr: self.addr, value }
    }

    fn exit_success(&self) -> (write: MmioWrite)
        ensures
            write == (MmioWrite { addr: self.device_addr(), value: EXIT_SUCCESS }),
    {
        self.exit(EXIT_SUCCESS)
    }

    fn exit_failure(&self) -> (write: MmioWrite)
        ensures
            write == (MmioWrite { addr: self.device_addr(), value: EXIT_FAILURE }),
    {
        self.exit(EXIT_FAILURE)
    }
}

/// The kernel's exit handle: the device at `VIRT_TEST`.
pub fn qemu_exit_handle() -> (handle: RISCV64)
    ensures
        handle.device_addr() == VIRT_TEST,
{
    RISCV64::new(VIRT_TEST)
}

/// `EXIT_FAILURE` is the encoding of exit status 1: the pair `0x0001_3333`.
pub proof fn lemma_failure_is_encoded_one()
    ensures
        EXIT_FAILURE == encode_spec(1),
        EXIT_FAILURE == 0x13333,
        !is_device_command(1),
{
    lemma_encode_arith(1);
}

/// Exiting with status 1 stores the same word as `exit_failure`, and exiting
/// with `EXIT_SUCCESS` the same word as `exit_success`.
pub proof fn lemma_exit_one_is_failure()
    ensures
        exit_value(1) == EXIT_FAILURE,
        exit_value(EXIT_FAILURE) == EXIT_FAILURE,
        exit_value(EXIT_SUCCESS) == EXIT_SUCCESS,
{
    lemma_failure_is_encoded_one();
}

/// Exactly the pass, fail-with-1 and reset commands (`0x5555`, `0x1_3333`,
/// `0x7777`) are stored as they are; every other code is stored as the
/// failing exit `(code << 16) | 0x3333`, whose high half-word is the code's
/// low 16 bits and whose low half-word is the failure flag.
pub proof fn lemma_exit_value_cases(code: u32)
    ensures
        is_device_command(code) <==> (code == 0x5555 || code == 0x1_3333 || code == 0x7777),
        (code == 0x5555 || code == 0x1_3333 || code == 0x7777) ==> exit_value(code) == code,
        !(code == 0x5555 || code == 0x1_3333 || code == 0x7777) ==> exit_value(code) == ((code
            << 16u32) | 0x3333u32),
        !(code == 0x5555 || code == 0x1_3333 || code == 0x7777) ==> exit_value(code) == (code
            % 0x10000) * 0x10000 + 0x3333,
        EXIT_SUCCESS == 0x5555,
        EXIT_FAILURE == 0x1_3333,
        EXIT_RESET == 0x7777,
        EXIT_FAILURE_FLAG == 0x3333,
{
    assert(((code << 16u32) | 0x3333u32) == (code % 0x10000) * 0x10000 + 0x3333) by (bit_vector);
}

/// The kernel's exit handle is the device at physical address `0x10_0000`.
pub proof fn lemma_handle_address()
    ensures
        VIRT_TEST == 0x10_0000,
{
}

/// Every word an exit stores is a command the device recognises: its low
/// half-word is the pass, fail or reset command.
pub proof fn lemma_exit_command_recognized(code: u32)
    ensures
        exit_value(code) % 0x10000 == EXIT_SUCCESS || exit_value(code) % 0x10000
            == EXIT_FAILURE_FLAG || exit_value(code) % 0x10000 == EXIT_RESET,
{
    lemma_encode_arith(code);
    lemma_failure_is_encoded_one();
}

/// For a code that is not a device command, the stored word carries the
/// code's low 16 bits as the exit status in its high half-word.
pub proof fn lemma_exit_status_recoverable(code: u32)
    requires
        !is_device_command(code),
    ensures
        exit_value(code) / 0x10000 == code % 0x10000,
        exit_value(code) % 0x10000 == EXIT_FAILURE_FLAG,
{
    lemma_encode_arith(code);
}

} // verus!
