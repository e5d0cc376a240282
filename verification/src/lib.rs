pub mod cpu;
pub mod debugger;
pub mod decoder;
pub mod device_tree;
pub mod disassembler;
pub mod elf;
pub mod instructions;
pub mod memory;
pub mod mmio;
pub mod mmu;
pub mod numerals;
pub mod opcodes;
pub mod paging;
pub mod optypes;
pub mod pipeline;
pub mod plic;
pub mod signs;
pub mod uart;
pub mod virtio;
