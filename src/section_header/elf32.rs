//! The 32-bit section header layout.
use vstd::prelude::*;
use vstd::slice::slice_subrange;
use crate::endian::{dec32, dec64, get_u32, get_u64, valid_data};
use crate::error::{Error, ErrorKind};

verus! {

/// Size in bytes of one 32-bit section header.
pub const SECTIONHEADER_SIZE: usize = 40;

/// Section flag: Writable.
pub const SH_FLAG_SHF_WRITE: u32 = 0x01;

/// Section flag: Occupies memory during execution.
pub const SH_FLAG_SHF_ALLOC: u32 = 0x02;

/// Section flag: Executable.
pub const SH_FLAG_SHF_EXECINSTR: u32 = 0x04;

/// Section flag: Might be merged.
pub const SH_FLAG_SHF_MERGE: u32 = 0x10;

/// Section flag: Contains null-terminated strings.
pub const SH_FLAG_SHF_STRINGS: u32 = 0x20;

/// Section flag: `sh_info` contains a section index.
pub const SH_FLAG_SHF_INFO_LINK: u32 = 0x40;

/// Section flag: Preserve order after combining.
pub const SH_FLAG_SHF_LINK_ORDER: u32 = 0x80;

/// Section flag: Non-standard operating system specific handling required.
pub const SH_FLAG_SHF_OS_NONCONFORMING: u32 = 0x100;

/// Section flag: Section is member of a group.
pub const SH_FLAG_SHF_GROUP: u32 = 0x200;

/// Section flag: Section holds thread-local data.
pub const SH_FLAG_SHF_TLS: u32 = 0x400;

/// Section flag: Operating system specific (mask).
pub const SH_FLAG_SHF_MASKOS: u32 = 0x0ff0_0000;

/// Section flag: Processor specific (mask).
pub const SH_FLAG_SHF_MASKPROC: u32 = 0xf000_0000;

/// Section flag: Special ordering requirement (Solaris).
pub const SH_FLAG_SHF_ORDERED: u32 = 0x400_0000;

/// Section flag: Section is excluded unless referenced or allocated (Solaris).
pub const SH_FLAG_SHF_EXCLUDE: u32 = 0x800_0000;

/// A 32-bit section header.
#[derive(Debug, Clone, Copy, PartialEq, Eq, Hash)]
pub struct SectionHeader {
    /// Field `sh_name`: offset of the section name in the section header string table.
    pub sh_name: u32,
    /// Field `sh_type`: identifies the type of this header.
    pub sh_type: u32,
    /// Field `sh_flags`: attributes of the section.
    pub sh_flags: u32,
    /// Field `sh_addr`: virtual address of the section in memory, for loaded sections.
    pub sh_addr: u32,
    /// Field `sh_offset`: offset of the section in the file image.
    pub sh_offset: u32,
    /// Field `sh_size`: size in bytes of the section in the file image (may be 0).
    pub sh_size: u32,
    /// Field `sh_link`: section index of an associated section.
    pub sh_link: u32,
    /// Field `sh_info`: extra information about the section.
    pub sh_info: u32,
    /// Field `sh_addralign`: required alignment of the section.
    pub sh_addralign: u32,
    /// Field `sh_entsize`: size in bytes of each entry, for tables of fixed-size entries.
    pub sh_entsize: u32,
}

impl SectionHeader {
    /// The section header that the first bytes of `b` encode in byte order `d`.
    pub open spec fn spec_decode(d: u8, b: Seq<u8>) -> Self {
        SectionHeader {
            sh_name: dec32(d, b.subrange(0, 4)),
            sh_type: dec32(d, b.subrange(4, 8)),
            sh_flags: dec32(d, b.subrange(8, 12)),
            sh_addr: dec32(d, b.subrange(12, 16)),
            sh_offset: dec32(d, b.subrange(16, 20)),
            sh_size: dec32(d, b.subrange(20, 24)),
            sh_link: dec32(d, b.subrange(24, 28)),
            sh_info: dec32(d, b.subrange(28, 32)),
            sh_addralign: dec32(d, b.subrange(32, 36)),
            sh_entsize: dec32(d, b.subrange(36, 40)),
        }
    }

    /// What parsing `b` in byte order `d` gives.
    pub open spec fn spec_parse(d: u8, b: Seq<u8>) -> Result<Self, ErrorKind> {
        if !valid_data(d) {
            Err(ErrorKind::UnknownEndianess)
        } else if b.len() < SECTIONHEADER_SIZE {
            Err(ErrorKind::InsufficantSize)
        } else {
            Ok(Self::spec_decode(d, b))
        }
    }

    /// Parses the section header at the start of `bytes`, whose multi-byte
    /// fields are in byte order `endianness`.
    pub fn from_bytes(endianness: u8, bytes: &[u8]) -> (r: Result<Self, Error>)
        ensures
            crate::error::kind_of(r) == Self::spec_parse(endianness, bytes@),
    {
        if !(endianness == crate::endian::EI_DATA_LE || endianness == crate::endian::EI_DATA_BE) {
            return Err(Error::new(ErrorKind::UnknownEndianess));
        }
        if bytes.len() < SECTIONHEADER_SIZE {
            return Err(Error::new(ErrorKind::InsufficantSize));
        }
        Ok(SectionHeader {
            sh_name: get_u32(bytes, 0, endianness),
            sh_type: get_u32(bytes, 4, endianness),
            sh_flags: get_u32(bytes, 8, endianness),
            sh_addr: get_u32(bytes, 12, endianness),
            sh_offset: get_u32(bytes, 16, endianness),
            sh_size: get_u32(bytes, 20, endianness),
            sh_link: get_u32(bytes, 24, endianness),
            sh_info: get_u32(bytes, 28, endianness),
            sh_addralign: get_u32(bytes, 32, endianness),
            sh_entsize: get_u32(bytes, 36, endianness),
        })
    }

    /// The bytes of the file image that this entry describes.
    pub fn extract_data<'a>(&self, bytes: &'a [u8]) -> (r: &'a [u8])
        requires
            self.sh_offset + self.sh_size <= bytes@.len(),
        ensures
            r@ == bytes@.subrange(self.sh_offset as int, self.sh_offset + self.sh_size),
    {
        let len = bytes.len();
        assert(len == bytes@.len());
        let start = self.sh_offset as usize;
        let end = start + self.sh_size as usize;
        slice_subrange(bytes, start, end)
    }
}

} // verus!
