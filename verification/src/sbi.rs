//! Calls into the supervisor binary interface (SBI) firmware.
//!
//! An SBI call is an `ecall` with the extension id in `a7` and three
//! arguments in `a0`..`a2`. This module decides which call to make; the
//! caller issues the `ecall`.

use vstd::prelude::*;

use crate::board::{qemu_exit_handle, MmioWrite, QEMUExit, EXIT_FAILURE, VIRT_TEST};

verus! {

/// SBI extension id of the legacy console output call.
pub const SBI_CONSOLE_PUTCHAR: usize = 1;

/// One SBI call: the extension id and the three argument registers.
#[derive(Clone, Copy, Debug, PartialEq, Eq, Structural)]
pub struct SbiCall {
    /// Extension id, passed in `a7`.
    pub which: usize,
    /// First argument, passed in `a0`.
    pub arg0: usize,
    /// Second argument, passed in `a1`.
    pub arg1: usize,
    /// Third argument, passed in `a2`.
    pub arg2: usize,
}

/// The call that writes the character with code `c` to the console.
pub open spec fn putchar_call(c: usize) -> SbiCall {
    SbiCall { which: SBI_CONSOLE_PUTCHAR, arg0: c, arg1: 0, arg2: 0 }
}

/// The SBI call that prints the character with code `c` on the console.
pub fn console_putchar(c: usize) -> (call: SbiCall)
    ensures
        call == putchar_call(c),
        call.which == 1,
        call.arg0 == c,
        call.arg1 == 0,
        call.arg2 == 0,
{
    SbiCall { which: SBI_CONSOLE_PUTCHAR, arg0: c, arg1: 0, arg2: 0 }
}

/// The console call hands the character code over unchanged in `a0`, with
/// extension id 1 in `a7` and zeros in `a1` and `a2`.
pub proof fn lemma_putchar_call_fields(c: usize)
    ensures
        putchar_call(c) == (SbiCall { which: 1, arg0: c, arg1: 0, arg2: 0 }),
        SBI_CONSOLE_PUTCHAR == 1,
        c != 0 ==> putchar_call(c).arg0 != putchar_call(0).arg0,
        forall|d: usize| #[trigger] putchar_call(d) == putchar_call(c) ==> d == c,
{
}

/// The store that shuts the kernel down: a failing exit (status 1) through
/// the kernel's exit handle.
pub fn shutdown() -> (write: MmioWrite)
    ensures
        write == (MmioWrite { addr: VIRT_TEST, value: EXIT_FAILURE }),
{
    qemu_exit_handle().exit_failure()
}

} // verus!
