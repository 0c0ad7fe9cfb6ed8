//! Program headers: the segments of an ELF image.
use vstd::prelude::*;

pub mod elf32;
pub mod elf64;

verus! {

/// Segment type: Unused entry.
pub const P_TYPE_PT_NULL: u32 = 0x00000000;

/// Segment type: Loadable segment.
pub const P_TYPE_PT_LOAD: u32 = 0x00000001;

/// Segment type: Dynamic linking information.
pub const P_TYPE_PT_DYNAMIC: u32 = 0x00000002;

/// Segment type: Interpreter information.
pub const P_TYPE_PT_INTERP: u32 = 0x00000003;

/// Segment type: Auxiliary information.
pub const P_TYPE_PT_NOTE: u32 = 0x00000004;

/// Segment type: Reserved.
pub const P_TYPE_PT_SHLIB: u32 = 0x00000005;

/// Segment type: Segment holding the program header table itself.
pub const P_TYPE_PT_PHDR: u32 = 0x00000006;

/// Segment type: Thread-local storage template.
pub const P_TYPE_PT_TLS: u32 = 0x00000007;

/// Name of a value of this field.
pub fn p_type_as_str(value: u32) -> (r: &'static str)
    ensures
        value == P_TYPE_PT_NULL ==> r@ == "PT_NULL"@,
        value == P_TYPE_PT_LOAD ==> r@ == "PT_LOAD"@,
        value == P_TYPE_PT_DYNAMIC ==> r@ == "PT_DYNAMIC"@,
        value == P_TYPE_PT_INTERP ==> r@ == "PT_INTERP"@,
        value == P_TYPE_PT_NOTE ==> r@ == "PT_NOTE"@,
        value == P_TYPE_PT_SHLIB ==> r@ == "PT_SHLIB"@,
        value == P_TYPE_PT_PHDR ==> r@ == "PT_PHDR"@,
        value == P_TYPE_PT_TLS ==> r@ == "PT_TLS"@,
        0x60000000 <= value <= 0x6FFFFFFF ==> r@ == "RESERVED: Operating system specific"@,
        0x70000000 <= value <= 0x7FFFFFFF ==> r@ == "RESERVED: Processor specific"@,
{
    if value == P_TYPE_PT_NULL {
        "PT_NULL"
    } else if value == P_TYPE_PT_LOAD {
        "PT_LOAD"
    } else if value == P_TYPE_PT_DYNAMIC {
        "PT_DYNAMIC"
    } else if value == P_TYPE_PT_INTERP {
        "PT_INTERP"
    } else if value == P_TYPE_PT_NOTE {
        "PT_NOTE"
    } else if value == P_TYPE_PT_SHLIB {
        "PT_SHLIB"
    } else if value == P_TYPE_PT_PHDR {
        "PT_PHDR"
    } else if value == P_TYPE_PT_TLS {
        "PT_TLS"
    } else if 0x60000000 <= value && value <= 0x6FFFFFFF {
        "RESERVED: Operating system specific"
    } else if 0x70000000 <= value && value <= 0x7FFFFFFF {
        "RESERVED: Processor specific"
    } else {
        "UNKNOWN"
    }
}

} // verus!
