use vstd::prelude::*;

verus! {

/// What went wrong while parsing an ELF image.
#[derive(Debug, Clone, Copy, PartialEq, Eq, Hash, Structural)]
pub enum ErrorKind {
    /// Fewer bytes than the structure being parsed requires.
    InsufficantSize,
    /// The first four identifier bytes are not `7F 45 4C 46`.
    InvalidMagic,
    /// The class byte is neither 32-bit nor 64-bit.
    InvalidClass,
    /// The data byte names neither little nor big endianness.
    UnknownEndianess,
}

impl ErrorKind {
    /// A human readable description of the error kind.
    pub fn message(&self) -> (r: &'static str)
        ensures
            r@ == self.spec_message(),
    {
        match self {
            ErrorKind::InsufficantSize => "Not enough bytes found to parse",
            ErrorKind::InvalidMagic => "Found invalid magic constant at the start of the header",
            ErrorKind::InvalidClass => "Found invalid class in the elf header (expected 32 or 64 bit)",
            ErrorKind::UnknownEndianess => "Found unknown endianness in field `e_ident[EI_DATA]`",
        }
    }

    pub open spec fn spec_message(&self) -> Seq<char> {
        match self {
            ErrorKind::InsufficantSize => "Not enough bytes found to parse"@,
            ErrorKind::InvalidMagic => "Found invalid magic constant at the start of the header"@,
            ErrorKind::InvalidClass => "Found invalid class in the elf header (expected 32 or 64 bit)"@,
            ErrorKind::UnknownEndianess => "Found unknown endianness in field `e_ident[EI_DATA]`"@,
        }
    }
}

/// A parse error: its kind and an optional free-form message.
#[derive(Debug, Clone, PartialEq, Eq, Hash)]
pub struct Error {
    pub kind: ErrorKind,
    pub message: Option<String>,
}

impl Error {
    pub fn new(kind: ErrorKind) -> (r: Self)
        ensures
            r.kind == kind,
            r.message is None,
    {
        Error { kind, message: None }
    }

    pub fn with_message(self, message: String) -> (r: Self)
        ensures
            r.kind == self.kind,
            r.message == Some(message),
    {
        Error { kind: self.kind, message: Some(message) }
    }

    /// The text shown for this error: the description of its kind.
    pub fn to_string(&self) -> (r: String)
        ensures
            r@ == self.kind.spec_message(),
    {
        let s = self.kind.message();
        s.to_string()
    }
}

/// The kind of a failed parse, or the parsed value.
pub open spec fn kind_of<T>(r: Result<T, Error>) -> Result<T, ErrorKind> {
    match r {
        Ok(v) => Ok(v),
        Err(e) => Err(e.kind),
    }
}

} // verus!
