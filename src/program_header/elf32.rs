//! The 32-bit program header layout.
use vstd::prelude::*;
use vstd::slice::slice_subrange;
use crate::endian::{dec32, dec64, get_u32, get_u64, valid_data};
use crate::error::{Error, ErrorKind};

verus! {

/// Size in bytes of one 32-bit program header.
pub const PROGRAMHEADER_SIZE: usize = 32;

/// A 32-bit program header.
#[derive(Debug, Clone, Copy, PartialEq, Eq, Hash)]
pub struct ProgramHeader {
    /// Field `p_type`: identifies the type of the segment.
    pub p_type: u32,
    /// Field `p_offset`: offset of the segment in the file image.
    pub p_offset: u32,
    /// Field `p_vaddr`: virtual address of the segment in memory.
    pub p_vaddr: u32,
    /// Field `p_paddr`: physical address of the segment, where relevant.
    pub p_paddr: u32,
    /// Field `p_filesz`: size in bytes of the segment in the file image (may be 0).
    pub p_filesz: u32,
    /// Field `p_memsz`: size in bytes of the segment in memory (may be 0).
    pub p_memsz: u32,
    /// Field `p_flags`: segment-dependent flags.
    pub p_flags: u32,
    /// Field `p_align`: alignment; `0` and `1` mean none, otherwise a power of two with `p_vaddr` equal to `p_offset` modulo `p_align`.
    pub p_align: u32,
}

impl ProgramHeader {
    /// The program header that the first bytes of `b` encode in byte order `d`.
    pub open spec fn spec_decode(d: u8, b: Seq<u8>) -> Self {
        ProgramHeader {
            p_type: dec32(d, b.subrange(0, 4)),
            p_offset: dec32(d, b.subrange(4, 8)),
            p_vaddr: dec32(d, b.subrange(8, 12)),
            p_paddr: dec32(d, b.subrange(12, 16)),
            p_filesz: dec32(d, b.subrange(16, 20)),
            p_memsz: dec32(d, b.subrange(20, 24)),
            p_flags: dec32(d, b.subrange(24, 28)),
            p_align: dec32(d, b.subrange(28, 32)),
        }
    }

    /// What parsing `b` in byte order `d` gives.
    pub open spec fn spec_parse(d: u8, b: Seq<u8>) -> Result<Self, ErrorKind> {
        if !valid_data(d) {
            Err(ErrorKind::UnknownEndianess)
        } else if b.len() < PROGRAMHEADER_SIZE {
            Err(ErrorKind::InsufficantSize)
        } else {
            Ok(Self::spec_decode(d, b))
        }
    }

    /// Parses the program header at the start of `bytes`, whose multi-byte
    /// fields are in byte order `endianness`.
    pub fn from_bytes(endianness: u8, bytes: &[u8]) -> (r: Result<Self, Error>)
        ensures
            crate::error::kind_of(r) == Self::spec_parse(endianness, bytes@),
    {
        if !(endianness == crate::endian::EI_DATA_LE || endianness == crate::endian::EI_DATA_BE) {
            return Err(Error::new(ErrorKind::UnknownEndianess));
        }
        if bytes.len() < PROGRAMHEADER_SIZE {
            return Err(Error::new(ErrorKind::InsufficantSize));
        }
        Ok(ProgramHeader {
            p_type: get_u32(bytes, 0, endianness),
            p_offset: get_u32(bytes, 4, endianness),
            p_vaddr: get_u32(bytes, 8, endianness),
            p_paddr: get_u32(bytes, 12, endianness),
            p_filesz: get_u32(bytes, 16, endianness),
            p_memsz: get_u32(bytes, 20, endianness),
            p_flags: get_u32(bytes, 24, endianness),
            p_align: get_u32(bytes, 28, endianness),
        })
    }

    /// The bytes of the file image that this entry describes.
    pub fn extract_data<'a>(&self, bytes: &'a [u8]) -> (r: &'a [u8])
        requires
            self.p_offset + self.p_filesz <= bytes@.len(),
        ensures
            r@ == bytes@.subrange(self.p_offset as int, self.p_offset + self.p_filesz),
    {
        let len = bytes.len();
        assert(len == bytes@.len());
        let start = self.p_offset as usize;
        let end = start + self.p_filesz as usize;
        slice_subrange(bytes, start, end)
    }
}

} // verus!
