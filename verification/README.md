# rriscv

A RISC-V (RV64) emulator whose core is written and proved in Verus.

The library (`src/`) holds the hart and its pipeline (`cpu`, `pipeline`), the instruction
formats, their decoders and executors (`instructions`, `decoder`, `disassembler`), byte memory
and RAM (`memory`), the memory-mapped devices (`mmio`, `uart`, `plic`, `virtio`), the memory
management unit with SV39 page-table walks (`mmu`), the device table read from a flattened
device tree (`device_tree`), loading executable segments (`elf`) and the debugger's command
language (`debugger`). Every function there carries a contract, and Verus checks them all but those of the
three wrappers around the outside crates (`quark`'s sign extension and `dtb`'s reader), whose
contracts are trusted; the laws that
tie functions together (reading back what was written, CSR views, counters of retired
instructions, numerals that read back) are public proof functions beside the code they speak of.

`app/` holds what talks to the outside world: printing, the `elfloader` glue and the debugger's
prompt. `tests/` exercises the library on concrete values.
