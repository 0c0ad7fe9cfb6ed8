//! Symbol tables of both classes.
pub mod elf32;
pub mod elf64;
