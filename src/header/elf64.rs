//! The 64-bit ELF file header.
use vstd::prelude::*;
use crate::endian::{dec16, dec32, dec64, enc16, enc32, enc64, get_u16, get_u32, get_u64, put_u16, put_u32, put_u64};
use crate::error::{Error, ErrorKind};
use crate::header::{header_error, Ident, EI_DATA};

verus! {

/// Size in bytes of the 64-bit file header.
pub const HEADER_SIZE: usize = 64;

/// The 64-bit ELF file header.
#[derive(Debug, Clone, Copy, PartialEq, Eq, Hash)]
pub struct Header {
    /// Field `e_ident`: identifiers.
    pub e_ident: Ident,
    /// Field `e_type`: Object file type.
    pub e_type: u16,
    /// Field `e_machine`: Target instruction set architecture.
    pub e_machine: u16,
    /// Field `e_version`: ELF version (`1`, the current one).
    pub e_version: u32,
    /// Field `e_entry`: Memory address of the entry point.
    pub e_entry: u64,
    /// Field `e_phoff`: Offset of the program header table.
    pub e_phoff: u64,
    /// Field `e_shoff`: Offset of the section header table.
    pub e_shoff: u64,
    /// Field `e_flags`: Architecture specific flags.
    pub e_flags: u32,
    /// Field `e_ehsize`: Size of this header.
    pub e_ehsize: u16,
    /// Field `e_phentsize`: Size of one program header table entry.
    pub e_phentsize: u16,
    /// Field `e_phnum`: Number of program header table entries.
    pub e_phnum: u16,
    /// Field `e_shentsize`: Size of one section header table entry.
    pub e_shentsize: u16,
    /// Field `e_shnum`: Number of section header table entries.
    pub e_shnum: u16,
    /// Field `e_shstrndx`: Index of the section header that holds the section names.
    pub e_shstrndx: u16,
}

impl Header {
    /// Whether every field of `self` holds what `b` encodes at its offset,
    /// in the byte order that the identifier in `b` names.
    pub open spec fn decodes(self, b: Seq<u8>) -> bool {
        let d = b[EI_DATA as int];
        &&& self.e_ident.0@ == b.subrange(0, 16)
        &&& self.e_type == dec16(d, b.subrange(16, 18))
        &&& self.e_machine == dec16(d, b.subrange(18, 20))
        &&& self.e_version == dec32(d, b.subrange(20, 24))
        &&& self.e_entry == dec64(d, b.subrange(24, 32))
        &&& self.e_phoff == dec64(d, b.subrange(32, 40))
        &&& self.e_shoff == dec64(d, b.subrange(40, 48))
        &&& self.e_flags == dec32(d, b.subrange(48, 52))
        &&& self.e_ehsize == dec16(d, b.subrange(52, 54))
        &&& self.e_phentsize == dec16(d, b.subrange(54, 56))
        &&& self.e_phnum == dec16(d, b.subrange(56, 58))
        &&& self.e_shentsize == dec16(d, b.subrange(58, 60))
        &&& self.e_shnum == dec16(d, b.subrange(60, 62))
        &&& self.e_shstrndx == dec16(d, b.subrange(62, 64))
    }

    /// The bytes that hold `self`, in the byte order its identifier names.
    pub open spec fn spec_bytes(self) -> Seq<u8> {
        let d = self.e_ident.0@[EI_DATA as int];
        self.e_ident.0@
            + enc16(d, self.e_type)
            + enc16(d, self.e_machine)
            + enc32(d, self.e_version)
            + enc64(d, self.e_entry)
            + enc64(d, self.e_phoff)
            + enc64(d, self.e_shoff)
            + enc32(d, self.e_flags)
            + enc16(d, self.e_ehsize)
            + enc16(d, self.e_phentsize)
            + enc16(d, self.e_phnum)
            + enc16(d, self.e_shentsize)
            + enc16(d, self.e_shnum)
            + enc16(d, self.e_shstrndx)
    }

    /// Parses the header at the start of `bytes`.
    pub fn from_bytes(bytes: &[u8]) -> (r: Result<Self, Error>)
        ensures
            match r {
                Ok(h) => header_error(bytes@, HEADER_SIZE as nat) is None && h.decodes(bytes@),
                Err(e) => header_error(bytes@, HEADER_SIZE as nat) == Some(e.kind),
            },
    {
        if bytes.len() < HEADER_SIZE {
            return Err(Error::new(ErrorKind::InsufficantSize));
        }
        let e_ident = Ident::from_slice(bytes);
        let mag = e_ident.ei_mag();
        if !(mag[0] == 0x7f && mag[1] == 0x45 && mag[2] == 0x4c && mag[3] == 0x46) {
            return Err(Error::new(ErrorKind::InvalidMagic));
        }
        let d = e_ident.ei_data();
        if !(d == crate::endian::EI_DATA_LE || d == crate::endian::EI_DATA_BE) {
            return Err(Error::new(ErrorKind::UnknownEndianess));
        }
        Ok(Header {
            e_ident,
            e_type: get_u16(bytes, 16, d),
            e_machine: get_u16(bytes, 18, d),
            e_version: get_u32(bytes, 20, d),
            e_entry: get_u64(bytes, 24, d),
            e_phoff: get_u64(bytes, 32, d),
            e_shoff: get_u64(bytes, 40, d),
            e_flags: get_u32(bytes, 48, d),
            e_ehsize: get_u16(bytes, 52, d),
            e_phentsize: get_u16(bytes, 54, d),
            e_phnum: get_u16(bytes, 56, d),
            e_shentsize: get_u16(bytes, 58, d),
            e_shnum: get_u16(bytes, 60, d),
            e_shstrndx: get_u16(bytes, 62, d),
        })
    }

    /// Serializes the header in the byte order its identifier names.
    pub fn to_bytes(&self) -> (r: Vec<u8>)
        ensures
            r@ == self.spec_bytes(),
    {
        let d = self.e_ident.ei_data();
        let mut out: Vec<u8> = Vec::new();
        let mut i: usize = 0;
        while i < 16
            invariant
                0 <= i <= 16,
                out@ == self.e_ident.0@.subrange(0, i as int),
            decreases 16 - i,
        {
            out.push(self.e_ident.0[i]);
            i += 1;
            assert(out@ =~= self.e_ident.0@.subrange(0, i as int));
        }
        assert(out@ =~= self.e_ident.0@);
        put_u16(&mut out, self.e_type, d);
        put_u16(&mut out, self.e_machine, d);
        put_u32(&mut out, self.e_version, d);
        put_u64(&mut out, self.e_entry, d);
        put_u64(&mut out, self.e_phoff, d);
        put_u64(&mut out, self.e_shoff, d);
        put_u32(&mut out, self.e_flags, d);
        put_u16(&mut out, self.e_ehsize, d);
        put_u16(&mut out, self.e_phentsize, d);
        put_u16(&mut out, self.e_phnum, d);
        put_u16(&mut out, self.e_shentsize, d);
        put_u16(&mut out, self.e_shnum, d);
        put_u16(&mut out, self.e_shstrndx, d);
        out
    }
}

/// Parsing a header and serializing it again gives back the bytes it was
/// parsed from.
pub proof fn lemma_header_round_trip(b: Seq<u8>, h: Header)
    requires
        header_error(b, HEADER_SIZE as nat) is None,
        h.decodes(b),
    ensures
        h.spec_bytes() == b.subrange(0, HEADER_SIZE as int),
{
    let d = b[EI_DATA as int];
    assert(h.e_ident.0@[EI_DATA as int] == d);
    crate::endian::lemma_enc_dec16(d, b.subrange(16, 18));
    crate::endian::lemma_enc_dec16(d, b.subrange(18, 20));
    crate::endian::lemma_enc_dec32(d, b.subrange(20, 24));
    crate::endian::lemma_enc_dec64(d, b.subrange(24, 32));
    crate::endian::lemma_enc_dec64(d, b.subrange(32, 40));
    crate::endian::lemma_enc_dec64(d, b.subrange(40, 48));
    crate::endian::lemma_enc_dec32(d, b.subrange(48, 52));
    crate::endian::lemma_enc_dec16(d, b.subrange(52, 54));
    crate::endian::lemma_enc_dec16(d, b.subrange(54, 56));
    crate::endian::lemma_enc_dec16(d, b.subrange(56, 58));
    crate::endian::lemma_enc_dec16(d, b.subrange(58, 60));
    crate::endian::lemma_enc_dec16(d, b.subrange(60, 62));
    crate::endian::lemma_enc_dec16(d, b.subrange(62, 64));
    assert(h.spec_bytes() =~= b.subrange(0, HEADER_SIZE as int));
}

/// Serializing a header whose identifier is valid and parsing the bytes
/// again gives back the same header.
pub proof fn lemma_header_reparse(h: Header)
    requires
        crate::header::magic_ok(h.e_ident.0@),
        crate::endian::valid_data(h.e_ident.0@[EI_DATA as int]),
    ensures
        header_error(h.spec_bytes(), HEADER_SIZE as nat) is None,
        h.decodes(h.spec_bytes()),
{
    let d = h.e_ident.0@[EI_DATA as int];
    let b = h.spec_bytes();
    assert(h.e_ident.0@.len() == 16);
    crate::endian::lemma_dec_enc16(d, h.e_type);
    crate::endian::lemma_dec_enc16(d, h.e_machine);
    crate::endian::lemma_dec_enc32(d, h.e_version);
    crate::endian::lemma_dec_enc64(d, h.e_entry);
    crate::endian::lemma_dec_enc64(d, h.e_phoff);
    crate::endian::lemma_dec_enc64(d, h.e_shoff);
    crate::endian::lemma_dec_enc32(d, h.e_flags);
    crate::endian::lemma_dec_enc16(d, h.e_ehsize);
    crate::endian::lemma_dec_enc16(d, h.e_phentsize);
    crate::endian::lemma_dec_enc16(d, h.e_phnum);
    crate::endian::lemma_dec_enc16(d, h.e_shentsize);
    crate::endian::lemma_dec_enc16(d, h.e_shnum);
    crate::endian::lemma_dec_enc16(d, h.e_shstrndx);
    assert(b.subrange(0, 16) =~= h.e_ident.0@);
    assert(b.subrange(16, 18) =~= enc16(d, h.e_type));
    assert(b.subrange(18, 20) =~= enc16(d, h.e_machine));
    assert(b.subrange(20, 24) =~= enc32(d, h.e_version));
    assert(b.subrange(24, 32) =~= enc64(d, h.e_entry));
    assert(b.subrange(32, 40) =~= enc64(d, h.e_phoff));
    assert(b.subrange(40, 48) =~= enc64(d, h.e_shoff));
    assert(b.subrange(48, 52) =~= enc32(d, h.e_flags));
    assert(b.subrange(52, 54) =~= enc16(d, h.e_ehsize));
    assert(b.subrange(54, 56) =~= enc16(d, h.e_phentsize));
    assert(b.subrange(56, 58) =~= enc16(d, h.e_phnum));
    assert(b.subrange(58, 60) =~= enc16(d, h.e_shentsize));
    assert(b.subrange(60, 62) =~= enc16(d, h.e_shnum));
    assert(b.subrange(62, 64) =~= enc16(d, h.e_shstrndx));
}

} // verus!
