//! A whole ELF image: its file header and its program and section header
//! tables.
use vstd::prelude::*;
use vstd::slice::slice_subrange;
use crate::endian::{dec16, dec32, dec64, valid_data};
use crate::error::{Error, ErrorKind};
use crate::header::{header_error, EI_CLASS, EI_CLASS_32, EI_CLASS_64, EI_DATA};
use crate::header::elf32::Header as Header32;
use crate::header::elf64::Header as Header64;
use crate::program_header::elf32::{ProgramHeader as ProgramHeader32, PROGRAMHEADER_SIZE as PH32_SIZE};
use crate::program_header::elf64::{ProgramHeader as ProgramHeader64, PROGRAMHEADER_SIZE as PH64_SIZE};
use crate::section_header::elf32::{SectionHeader as SectionHeader32, SECTIONHEADER_SIZE as SH32_SIZE};
use crate::section_header::elf64::{SectionHeader as SectionHeader64, SECTIONHEADER_SIZE as SH64_SIZE};

verus! {

/// Offset of entry `i` of a table at `off` whose entries are `size` apart.
pub open spec fn entry_start(off: int, i: int, size: int) -> int {
    off + i * size
}

/// Whether all `num` entries of `entry_size` bytes of a table at `off`,
/// `stride` bytes apart, lie within `len` bytes.
pub open spec fn table_fits(len: int, off: int, stride: int, num: int, entry_size: int) -> bool {
    forall|i: int| 0 <= i < num ==> #[trigger] entry_start(off, i, stride) + entry_size <= len
}

proof fn lemma_entry_next(off: int, i: int, size: int)
    ensures
        entry_start(off, i + 1, size) == entry_start(off, i, size) + size,
{
    assert((i + 1) * size == i * size + size) by (nonlinear_arith);
}

/// Why the 32-bit image `b` cannot be parsed, if it cannot: a bad file
/// header, or a program or section header that runs past the end of `b`.
pub open spec fn elf32_error(b: Seq<u8>) -> Option<ErrorKind> {
    match header_error(b, crate::header::elf32::HEADER_SIZE as nat) {
        Some(k) => Some(k),
        None => {
            let d = b[EI_DATA as int];
            if table_fits(
                b.len() as int,
                dec32(d, b.subrange(28, 32)) as int,
                dec16(d, b.subrange(42, 44)) as int,
                dec16(d, b.subrange(44, 46)) as int,
                PH32_SIZE as int,
            ) && table_fits(
                b.len() as int,
                dec32(d, b.subrange(32, 36)) as int,
                dec16(d, b.subrange(46, 48)) as int,
                dec16(d, b.subrange(48, 50)) as int,
                SH32_SIZE as int,
            ) {
                None
            } else {
                Some(ErrorKind::InsufficantSize)
            }
        },
    }
}

/// Whether `header`, `pheaders` and `sheaders` are what the 32-bit image
/// `b` encodes.
pub open spec fn parsed32(b: Seq<u8>, header: Header32, pheaders: Seq<ProgramHeader32>, sheaders: Seq<SectionHeader32>) -> bool {
    let d = b[EI_DATA as int];
    &&& header.decodes(b)
    &&& pheaders.len() == header.e_phnum
    &&& forall|i: int|
        0 <= i < pheaders.len() ==> pheaders[i] == ProgramHeader32::spec_decode(
            d,
            b.subrange(entry_start(header.e_phoff as int, i, header.e_phentsize as int), b.len() as int),
        )
    &&& sheaders.len() == header.e_shnum
    &&& forall|i: int|
        0 <= i < sheaders.len() ==> sheaders[i] == SectionHeader32::spec_decode(
            d,
            b.subrange(entry_start(header.e_shoff as int, i, header.e_shentsize as int), b.len() as int),
        )
}

/// Why the 64-bit image `b` cannot be parsed, if it cannot: a bad file
/// header, or a program or section header that runs past the end of `b`.
pub open spec fn elf64_error(b: Seq<u8>) -> Option<ErrorKind> {
    match header_error(b, crate::header::elf64::HEADER_SIZE as nat) {
        Some(k) => Some(k),
        None => {
            let d = b[EI_DATA as int];
            if table_fits(
                b.len() as int,
                dec64(d, b.subrange(32, 40)) as int,
                dec16(d, b.subrange(54, 56)) as int,
                dec16(d, b.subrange(56, 58)) as int,
                PH64_SIZE as int,
            ) && table_fits(
                b.len() as int,
                dec64(d, b.subrange(40, 48)) as int,
                dec16(d, b.subrange(58, 60)) as int,
                dec16(d, b.subrange(60, 62)) as int,
                SH64_SIZE as int,
            ) {
                None
            } else {
                Some(ErrorKind::InsufficantSize)
            }
        },
    }
}

/// Whether `header`, `pheaders` and `sheaders` are what the 64-bit image
/// `b` encodes.
pub open spec fn parsed64(b: Seq<u8>, header: Header64, pheaders: Seq<ProgramHeader64>, sheaders: Seq<SectionHeader64>) -> bool {
    let d = b[EI_DATA as int];
    &&& header.decodes(b)
    &&& pheaders.len() == header.e_phnum
    &&& forall|i: int|
        0 <= i < pheaders.len() ==> pheaders[i] == ProgramHeader64::spec_decode(
            d,
            b.subrange(entry_start(header.e_phoff as int, i, header.e_phentsize as int), b.len() as int),
        )
    &&& sheaders.len() == header.e_shnum
    &&& forall|i: int|
        0 <= i < sheaders.len() ==> sheaders[i] == SectionHeader64::spec_decode(
            d,
            b.subrange(entry_start(header.e_shoff as int, i, header.e_shentsize as int), b.len() as int),
        )
}

/// Why the image `b` cannot be parsed, if it cannot.
pub open spec fn elf_error(b: Seq<u8>) -> Option<ErrorKind> {
    if b.len() <= EI_CLASS {
        Some(ErrorKind::InsufficantSize)
    } else if b[EI_CLASS as int] == EI_CLASS_32 {
        elf32_error(b)
    } else if b[EI_CLASS as int] == EI_CLASS_64 {
        elf64_error(b)
    } else {
        Some(ErrorKind::InvalidClass)
    }
}

/// A parsed ELF image of either class, borrowing the bytes it was parsed
/// from.
#[allow(inconsistent_fields)]
pub enum Elf<'a> {
    Elf32 {
        bytes: &'a [u8],
        header: Header32,
        pheaders: Vec<ProgramHeader32>,
        sheaders: Vec<SectionHeader32>,
    },
    Elf64 {
        bytes: &'a [u8],
        header: Header64,
        pheaders: Vec<ProgramHeader64>,
        sheaders: Vec<SectionHeader64>,
    },
}

impl<'a> Elf<'a> {
    /// Parses the image in `bytes`: its class byte picks the layout, then
    /// the file header, the program headers and the section headers are
    /// read.
    pub fn from_bytes(bytes: &'a [u8]) -> (r: Result<Self, Error>)
        ensures
            match r {
                Ok(Elf::Elf32 { bytes: b, header, pheaders, sheaders }) => {
                    &&& elf_error(bytes@) is None
                    &&& bytes@[EI_CLASS as int] == EI_CLASS_32
                    &&& b@ == bytes@
                    &&& parsed32(bytes@, header, pheaders@, sheaders@)
                },
                Ok(Elf::Elf64 { bytes: b, header, pheaders, sheaders }) => {
                    &&& elf_error(bytes@) is None
                    &&& bytes@[EI_CLASS as int] == EI_CLASS_64
                    &&& b@ == bytes@
                    &&& parsed64(bytes@, header, pheaders@, sheaders@)
                },
                Err(e) => elf_error(bytes@) == Some(e.kind),
            },
    {
        if bytes.len() <= EI_CLASS {
            return Err(Error::new(ErrorKind::InsufficantSize));
        }
        let class = bytes[EI_CLASS];
        if class == EI_CLASS_32 {
            Self::from_bytes_c32(bytes)
        } else if class == EI_CLASS_64 {
            Self::from_bytes_c64(bytes)
        } else {
            Err(Error::new(ErrorKind::InvalidClass))
        }
    }

    fn from_bytes_c32(bytes: &'a [u8]) -> (r: Result<Self, Error>)
        requires
            bytes@.len() > EI_CLASS,
            bytes@[EI_CLASS as int] == EI_CLASS_32,
        ensures
            match r {
                Ok(Elf::Elf32 { bytes: b, header, pheaders, sheaders }) => {
                    &&& elf32_error(bytes@) is None
                    &&& b@ == bytes@
                    &&& parsed32(bytes@, header, pheaders@, sheaders@)
                },
                Ok(_) => false,
                Err(e) => elf32_error(bytes@) == Some(e.kind),
            },
    {
        let header = Header32::from_bytes(bytes)?;
        let d = header.e_ident.ei_data();
        let len = bytes.len();
        let mut pheaders: Vec<ProgramHeader32> = Vec::new();
        let mut idx: u16 = 0;
        let mut cur: u128 = header.e_phoff as u128;
        while idx < header.e_phnum
            invariant
                len == bytes@.len(),
                valid_data(d),
                d == bytes@[EI_DATA as int],
                header.decodes(bytes@),
                header_error(bytes@, crate::header::elf32::HEADER_SIZE as nat) is None,
                0 <= idx <= header.e_phnum,
                cur <= header.e_phoff as int + len as int + 0x10000,
                cur == entry_start(header.e_phoff as int, idx as int, header.e_phentsize as int),
                pheaders@.len() == idx,
                forall|i: int|
                    0 <= i < idx ==> #[trigger] entry_start(header.e_phoff as int, i, header.e_phentsize as int)
                        + PH32_SIZE <= len,
                forall|i: int|
                    0 <= i < idx ==> pheaders@[i] == ProgramHeader32::spec_decode(
                        d,
                        bytes@.subrange(entry_start(header.e_phoff as int, i, header.e_phentsize as int), len as int),
                    ),
            decreases header.e_phnum - idx,
        {
            if cur + PH32_SIZE as u128 > len as u128 {
                assert(!table_fits(len as int, header.e_phoff as int, header.e_phentsize as int, header.e_phnum as int, PH32_SIZE as int));
                return Err(Error::new(ErrorKind::InsufficantSize));
            }
            let start = cur as usize;
            let entry = match ProgramHeader32::from_bytes(d, slice_subrange(bytes, start, len)) {
                Ok(e) => e,
                Err(e) => {
                    return Err(e);
                },
            };
            pheaders.push(entry);
            proof {
                lemma_entry_next(header.e_phoff as int, idx as int, header.e_phentsize as int);
            }
            cur = cur + header.e_phentsize as u128;
            idx = idx + 1;
        }

        assert(table_fits(len as int, header.e_phoff as int, header.e_phentsize as int, header.e_phnum as int, PH32_SIZE as int));
        let mut sheaders: Vec<SectionHeader32> = Vec::new();
        let mut idx: u16 = 0;
        let mut cur: u128 = header.e_shoff as u128;
        while idx < header.e_shnum
            invariant
                len == bytes@.len(),
                valid_data(d),
                d == bytes@[EI_DATA as int],
                header.decodes(bytes@),
                header_error(bytes@, crate::header::elf32::HEADER_SIZE as nat) is None,
                0 <= idx <= header.e_shnum,
                cur <= header.e_shoff as int + len as int + 0x10000,
                cur == entry_start(header.e_shoff as int, idx as int, header.e_shentsize as int),
                sheaders@.len() == idx,
                forall|i: int|
                    0 <= i < idx ==> #[trigger] entry_start(header.e_shoff as int, i, header.e_shentsize as int)
                        + SH32_SIZE <= len,
                forall|i: int|
                    0 <= i < idx ==> sheaders@[i] == SectionHeader32::spec_decode(
                        d,
                        bytes@.subrange(entry_start(header.e_shoff as int, i, header.e_shentsize as int), len as int),
                    ),
            decreases header.e_shnum - idx,
        {
            if cur + SH32_SIZE as u128 > len as u128 {
                assert(!table_fits(len as int, header.e_shoff as int, header.e_shentsize as int, header.e_shnum as int, SH32_SIZE as int));
                return Err(Error::new(ErrorKind::InsufficantSize));
            }
            let start = cur as usize;
            let entry = match SectionHeader32::from_bytes(d, slice_subrange(bytes, start, len)) {
                Ok(e) => e,
                Err(e) => {
                    return Err(e);
                },
            };
            sheaders.push(entry);
            proof {
                lemma_entry_next(header.e_shoff as int, idx as int, header.e_shentsize as int);
            }
            cur = cur + header.e_shentsize as u128;
            idx = idx + 1;
        }

        assert(table_fits(len as int, header.e_shoff as int, header.e_shentsize as int, header.e_shnum as int, SH32_SIZE as int));
        Ok(Elf::Elf32 { bytes, header, pheaders, sheaders })
    }

    fn from_bytes_c64(bytes: &'a [u8]) -> (r: Result<Self, Error>)
        requires
            bytes@.len() > EI_CLASS,
            bytes@[EI_CLASS as int] == EI_CLASS_64,
        ensures
            match r {
                Ok(Elf::Elf64 { bytes: b, header, pheaders, sheaders }) => {
                    &&& elf64_error(bytes@) is None
                    &&& b@ == bytes@
                    &&& parsed64(bytes@, header, pheaders@, sheaders@)
                },
                Ok(_) => false,
                Err(e) => elf64_error(bytes@) == Some(e.kind),
            },
    {
        let header = Header64::from_bytes(bytes)?;
        let d = header.e_ident.ei_data();
        let len = bytes.len();
        let mut pheaders: Vec<ProgramHeader64> = Vec::new();
        let mut idx: u16 = 0;
        let mut cur: u128 = header.e_phoff as u128;
        while idx < header.e_phnum
            invariant
                len == bytes@.len(),
                valid_data(d),
                d == bytes@[EI_DATA as int],
                header.decodes(bytes@),
                header_error(bytes@, crate::header::elf64::HEADER_SIZE as nat) is None,
                0 <= idx <= header.e_phnum,
                cur <= header.e_phoff as int + len as int + 0x10000,
                cur == entry_start(header.e_phoff as int, idx as int, header.e_phentsize as int),
                pheaders@.len() == idx,
                forall|i: int|
                    0 <= i < idx ==> #[trigger] entry_start(header.e_phoff as int, i, header.e_phentsize as int)
                        + PH64_SIZE <= len,
                forall|i: int|
                    0 <= i < idx ==> pheaders@[i] == ProgramHeader64::spec_decode(
                        d,
                        bytes@.subrange(entry_start(header.e_phoff as int, i, header.e_phentsize as int), len as int),
                    ),
            decreases header.e_phnum - idx,
        {
            if cur + PH64_SIZE as u128 > len as u128 {
                assert(!table_fits(len as int, header.e_phoff as int, header.e_phentsize as int, header.e_phnum as int, PH64_SIZE as int));
                return Err(Error::new(ErrorKind::InsufficantSize));
            }
            let start = cur as usize;
            let entry = match ProgramHeader64::from_bytes(d, slice_subrange(bytes, start, len)) {
                Ok(e) => e,
                Err(e) => {
                    return Err(e);
                },
            };
            pheaders.push(entry);
            proof {
                lemma_entry_next(header.e_phoff as int, idx as int, header.e_phentsize as int);
            }
            cur = cur + header.e_phentsize as u128;
            idx = idx + 1;
        }

        assert(table_fits(len as int, header.e_phoff as int, header.e_phentsize as int, header.e_phnum as int, PH64_SIZE as int));
        let mut sheaders: Vec<SectionHeader64> = Vec::new();
        let mut idx: u16 = 0;
        let mut cur: u128 = header.e_shoff as u128;
        while idx < header.e_shnum
            invariant
                len == bytes@.len(),
                valid_data(d),
                d == bytes@[EI_DATA as int],
                header.decodes(bytes@),
                header_error(bytes@, crate::header::elf64::HEADER_SIZE as nat) is None,
                0 <= idx <= header.e_shnum,
                cur <= header.e_shoff as int + len as int + 0x10000,
                cur == entry_start(header.e_shoff as int, idx as int, header.e_shentsize as int),
                sheaders@.len() == idx,
                forall|i: int|
                    0 <= i < idx ==> #[trigger] entry_start(header.e_shoff as int, i, header.e_shentsize as int)
                        + SH64_SIZE <= len,
                forall|i: int|
                    0 <= i < idx ==> sheaders@[i] == SectionHeader64::spec_decode(
                        d,
                        bytes@.subrange(entry_start(header.e_shoff as int, i, header.e_shentsize as int), len as int),
                    ),
            decreases header.e_shnum - idx,
        {
            if cur + SH64_SIZE as u128 > len as u128 {
                assert(!table_fits(len as int, header.e_shoff as int, header.e_shentsize as int, header.e_shnum as int, SH64_SIZE as int));
                return Err(Error::new(ErrorKind::InsufficantSize));
            }
            let start = cur as usize;
            let entry = match SectionHeader64::from_bytes(d, slice_subrange(bytes, start, len)) {
                Ok(e) => e,
                Err(e) => {
                    return Err(e);
                },
            };
            sheaders.push(entry);
            proof {
                lemma_entry_next(header.e_shoff as int, idx as int, header.e_shentsize as int);
            }
            cur = cur + header.e_shentsize as u128;
            idx = idx + 1;
        }

        assert(table_fits(len as int, header.e_shoff as int, header.e_shentsize as int, header.e_shnum as int, SH64_SIZE as int));
        Ok(Elf::Elf64 { bytes, header, pheaders, sheaders })
    }
}

} // verus!
