//! A 64-bit RISC-V instruction-set simulator together with the ELF parsing
//! needed to load a program image into its memory.
pub mod error;
pub mod endian;
pub mod header;
pub mod program_header;
pub mod section_header;
pub mod strtab;
pub mod elf;
pub mod shared;
pub mod tra;
pub mod adr;
pub mod mem;
pub mod reg;
pub mod ins;
pub mod alu;
pub mod cpu;
pub mod symtab;
pub mod loader;
