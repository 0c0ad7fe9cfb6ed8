//! Section headers: the sections of an ELF image.
use vstd::prelude::*;

pub mod elf32;
pub mod elf64;

verus! {

/// Section type: Unused entry.
pub const SH_TYPE_SHT_NULL: u32 = 0x00000000;

/// Section type: Program data.
pub const SH_TYPE_SHT_PROGBITS: u32 = 0x00000001;

/// Section type: Symbol table.
pub const SH_TYPE_SHT_SYMTAB: u32 = 0x00000002;

/// Section type: String table.
pub const SH_TYPE_SHT_STRTAB: u32 = 0x00000003;

/// Section type: Relocation entries with addends.
pub const SH_TYPE_SHT_RELA: u32 = 0x00000004;

/// Section type: Symbol hash table.
pub const SH_TYPE_SHT_HASH: u32 = 0x00000005;

/// Section type: Dynamic linking information.
pub const SH_TYPE_SHT_DYNAMIC: u32 = 0x00000006;

/// Section type: Notes.
pub const SH_TYPE_SHT_NOTE: u32 = 0x00000007;

/// Section type: Program space with no data (bss).
pub const SH_TYPE_SHT_NOBITS: u32 = 0x00000008;

/// Section type: Relocation entries, no addends.
pub const SH_TYPE_SHT_REL: u32 = 0x00000009;

/// Section type: Reserved.
pub const SH_TYPE_SHT_SHLIB: u32 = 0x0000000a;

/// Section type: Dynamic linker symbol table.
pub const SH_TYPE_SHT_DYNSYM: u32 = 0x0000000b;

/// Section type: Array of constructors.
pub const SH_TYPE_SHT_INIT_ARRAY: u32 = 0x0000000e;

/// Section type: Array of destructors.
pub const SH_TYPE_SHT_FINI_ARRAY: u32 = 0x0000000f;

/// Section type: Array of pre-constructors.
pub const SH_TYPE_SHT_PREINIT_ARRAY: u32 = 0x00000010;

/// Section type: Section group.
pub const SH_TYPE_SHT_GROUP: u32 = 0x00000011;

/// Section type: Extended section indices.
pub const SH_TYPE_SHT_SYMTAB_SHNDX: u32 = 0x00000012;

/// Section type: Number of defined types.
pub const SH_TYPE_SHT_NUM: u32 = 0x00000013;

/// Name of a value of this field.
pub fn sh_type_as_str(value: u32) -> (r: &'static str)
    ensures
        value == SH_TYPE_SHT_NULL ==> r@ == "SHT_NULL"@,
        value == SH_TYPE_SHT_PROGBITS ==> r@ == "SHT_PROGBITS"@,
        value == SH_TYPE_SHT_SYMTAB ==> r@ == "SHT_SYMTAB"@,
        value == SH_TYPE_SHT_STRTAB ==> r@ == "SHT_STRTAB"@,
        value == SH_TYPE_SHT_RELA ==> r@ == "SHT_RELA"@,
        value == SH_TYPE_SHT_HASH ==> r@ == "SHT_HASH"@,
        value == SH_TYPE_SHT_DYNAMIC ==> r@ == "SHT_DYNAMIC"@,
        value == SH_TYPE_SHT_NOTE ==> r@ == "SHT_NOTE"@,
        value == SH_TYPE_SHT_NOBITS ==> r@ == "SHT_NOBITS"@,
        value == SH_TYPE_SHT_REL ==> r@ == "SHT_REL"@,
        value == SH_TYPE_SHT_SHLIB ==> r@ == "SHT_SHLIB"@,
        value == SH_TYPE_SHT_DYNSYM ==> r@ == "SHT_DYNSYM"@,
        value == SH_TYPE_SHT_INIT_ARRAY ==> r@ == "SHT_INIT_ARRAY"@,
        value == SH_TYPE_SHT_FINI_ARRAY ==> r@ == "SHT_FINI_ARRAY"@,
        value == SH_TYPE_SHT_PREINIT_ARRAY ==> r@ == "SHT_PREINIT_ARRAY"@,
        value == SH_TYPE_SHT_GROUP ==> r@ == "SHT_GROUP"@,
        value == SH_TYPE_SHT_SYMTAB_SHNDX ==> r@ == "SHT_SYMTAB_SHNDX"@,
        value == SH_TYPE_SHT_NUM ==> r@ == "SHT_NUM"@,
        0x60000000 <= value <= 0xFFFFFFFF ==> r@ == "RESERVED: Operating system specific"@,
{
    if value == SH_TYPE_SHT_NULL {
        "SHT_NULL"
    } else if value == SH_TYPE_SHT_PROGBITS {
        "SHT_PROGBITS"
    } else if value == SH_TYPE_SHT_SYMTAB {
        "SHT_SYMTAB"
    } else if value == SH_TYPE_SHT_STRTAB {
        "SHT_STRTAB"
    } else if value == SH_TYPE_SHT_RELA {
        "SHT_RELA"
    } else if value == SH_TYPE_SHT_HASH {
        "SHT_HASH"
    } else if value == SH_TYPE_SHT_DYNAMIC {
        "SHT_DYNAMIC"
    } else if value == SH_TYPE_SHT_NOTE {
        "SHT_NOTE"
    } else if value == SH_TYPE_SHT_NOBITS {
        "SHT_NOBITS"
    } else if value == SH_TYPE_SHT_REL {
        "SHT_REL"
    } else if value == SH_TYPE_SHT_SHLIB {
        "SHT_SHLIB"
    } else if value == SH_TYPE_SHT_DYNSYM {
        "SHT_DYNSYM"
    } else if value == SH_TYPE_SHT_INIT_ARRAY {
        "SHT_INIT_ARRAY"
    } else if value == SH_TYPE_SHT_FINI_ARRAY {
        "SHT_FINI_ARRAY"
    } else if value == SH_TYPE_SHT_PREINIT_ARRAY {
        "SHT_PREINIT_ARRAY"
    } else if value == SH_TYPE_SHT_GROUP {
        "SHT_GROUP"
    } else if value == SH_TYPE_SHT_SYMTAB_SHNDX {
        "SHT_SYMTAB_SHNDX"
    } else if value == SH_TYPE_SHT_NUM {
        "SHT_NUM"
    } else if 0x60000000 <= value && value <= 0xFFFFFFFF {
        "RESERVED: Operating system specific"
    } else {
        "UNKNOWN"
    }
}

} // verus!
