# riscv_os

The verified core of a small RISC-V kernel that runs under QEMU.

- `src/board.rs`: the QEMU `sifive_test` exit device — which word an exit
  stores and where, with the encoding of exit statuses.
- `src/sbi.rs`: the SBI console call and the shutdown store.
- `src/console.rs`: text to console calls, one per character.
- `src/logging.rs`: the `LOG` level selection and the coloured log line.
- `src/lang_items.rs`: the panic report.
- `src/text.rs`: decimal numbers, padding and string comparison.

`app/` holds the kernel side that Verus does not see: the `ecall` and the
device store, the `print!`/`println!` macros, the `log::Log` impl, a bump heap for the
bare-metal build and the
panic handler.
