//! 64-bit symbol tables.
use vstd::prelude::*;
use vstd::slice::slice_subrange;
use crate::endian::{dec16, dec32, dec64, get_u16, get_u32, get_u64, valid_data};
use crate::error::{Error, ErrorKind};

verus! {

/// Size in bytes of one 64-bit symbol table entry.
pub const SYMBOL_SIZE: usize = 24;

/// A 64-bit symbol table entry.
#[derive(Debug, Clone, Copy, PartialEq, Eq, Hash)]
pub struct Symbol {
    /// Field `st_name`: offset of the symbol name in the linked string table.
    pub st_name: u32,
    /// Field `st_info`: type and binding attributes.
    pub st_info: u8,
    /// Field `st_other`: visibility.
    pub st_other: u8,
    /// Field `st_shndx`: index of the section the symbol is defined in.
    pub st_shndx: u16,
    /// Field `st_value`: value of the symbol.
    pub st_value: u64,
    /// Field `st_size`: size of the symbol.
    pub st_size: u64,
}

impl Symbol {
    /// The symbol that the first bytes of `b` encode in byte order `d`.
    pub open spec fn spec_decode(d: u8, b: Seq<u8>) -> Self {
        Symbol {
            st_name: dec32(d, b.subrange(0, 4)),
            st_info: b[4],
            st_other: b[5],
            st_shndx: dec16(d, b.subrange(6, 8)),
            st_value: dec64(d, b.subrange(8, 16)),
            st_size: dec64(d, b.subrange(16, 24)),
        }
    }

    /// What parsing `b` in byte order `d` gives.
    pub open spec fn spec_parse(d: u8, b: Seq<u8>) -> Result<Self, ErrorKind> {
        if !valid_data(d) {
            Err(ErrorKind::UnknownEndianess)
        } else if b.len() < SYMBOL_SIZE {
            Err(ErrorKind::InsufficantSize)
        } else {
            Ok(Self::spec_decode(d, b))
        }
    }

    /// Parses the symbol at the start of `bytes`, whose multi-byte fields
    /// are in byte order `endianness`.
    pub fn from_bytes(endianness: u8, bytes: &[u8]) -> (r: Result<Self, Error>)
        ensures
            crate::error::kind_of(r) == Self::spec_parse(endianness, bytes@),
    {
        if !(endianness == crate::endian::EI_DATA_LE || endianness == crate::endian::EI_DATA_BE) {
            return Err(Error::new(ErrorKind::UnknownEndianess));
        }
        if bytes.len() < SYMBOL_SIZE {
            return Err(Error::new(ErrorKind::InsufficantSize));
        }
        Ok(Symbol {
            st_name: get_u32(bytes, 0, endianness),
            st_info: bytes[4],
            st_other: bytes[5],
            st_shndx: get_u16(bytes, 6, endianness),
            st_value: get_u64(bytes, 8, endianness),
            st_size: get_u64(bytes, 16, endianness),
        })
    }
}

/// A symbol table: fixed-size entries over a byte slice, in one byte order.
pub struct Symtab<'a> {
    endianness: u8,
    data: &'a [u8],
}

impl<'a> Symtab<'a> {
    pub closed spec fn spec_endianness(&self) -> u8 {
        self.endianness
    }

    pub closed spec fn spec_data(&self) -> Seq<u8> {
        self.data@
    }

    pub fn new(endianness: u8, data: &'a [u8]) -> (r: Self)
        ensures
            r.spec_endianness() == endianness,
            r.spec_data() == data@,
    {
        Symtab { endianness, data }
    }

    /// Number of whole entries in the table.
    pub fn len(&self) -> (r: usize)
        ensures
            r == self.spec_data().len() / SYMBOL_SIZE as nat,
    {
        self.data.len() / SYMBOL_SIZE
    }

    /// Entry `index`, if the table holds it whole and its byte order is
    /// known.
    pub fn get_symbol(&self, index: usize) -> (r: Option<Symbol>)
        ensures
            r is Some <==> valid_data(self.spec_endianness()) && (index + 1) * SYMBOL_SIZE
                <= self.spec_data().len(),
            r matches Some(s) ==> s == Symbol::spec_decode(
                self.spec_endianness(),
                self.spec_data().subrange(index * SYMBOL_SIZE, self.spec_data().len() as int),
            ),
    {
        let len = self.data.len();
        if index >= len / SYMBOL_SIZE {
            assert((index + 1) * SYMBOL_SIZE > len) by (nonlinear_arith)
                requires
                    index >= len / SYMBOL_SIZE,
                    SYMBOL_SIZE > 0,
            ;
            return None;
        }
        assert((index + 1) * SYMBOL_SIZE <= len) by (nonlinear_arith)
            requires
                index < len / SYMBOL_SIZE,
                SYMBOL_SIZE > 0,
        ;
        let start = index * SYMBOL_SIZE;
        match Symbol::from_bytes(self.endianness, slice_subrange(self.data, start, len)) {
            Ok(s) => Some(s),
            Err(_) => None,
        }
    }
}

} // verus!
