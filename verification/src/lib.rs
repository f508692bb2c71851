//! Verified core of a small RISC-V kernel running under QEMU: the exit
//! device protocol, the SBI console calls, the text the console prints, the
//! logger's line layout and level selection, and the panic report.

pub mod board;
pub mod console;
pub mod sbi;
pub mod text;
pub mod logging;
pub mod lang_items;
