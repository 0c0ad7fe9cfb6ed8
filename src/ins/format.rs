//! The instruction formats: which bits of a 32-bit instruction word hold
//! which field, and how scattered immediate bits are put back together.
use vstd::prelude::*;

verus! {

/// Bits `lo..=hi` of `word`, placed at bit `dest` of `field` after the bits
/// they replace are cleared.
pub open spec fn spec_insert(field: u32, word: u32, lo: u32, hi: u32, dest: u32) -> u32 {
    let mask = ((1u64 << (hi - lo + 1) as u64) - 1) as u32;
    (field & !(mask << dest)) | (((word >> lo) & mask) << dest)
}

/// The starting value of a sign-extended immediate: all ones when bit 31 of
/// `word` is set, else zero.
pub open spec fn spec_sign_init(word: u32) -> u32 {
    if (word >> 31u32) & 1 == 1 {
        0xffff_ffff
    } else {
        0
    }
}

/// The five-bit register number at bit `lo` of `word`.
pub open spec fn spec_reg(word: u32, lo: u32) -> u8 {
    ((word >> lo) & 0x1f) as u8
}

/// Register numbers are five bits wide.
pub proof fn lemma_reg_bounds(w: u32)
    ensures
        spec_reg(w, 7) < 32,
        spec_reg(w, 15) < 32,
        spec_reg(w, 20) < 32,
        spec_reg(w, 27) < 32,
{
    assert(spec_reg(w, 7) < 32 && spec_reg(w, 15) < 32 && spec_reg(w, 20) < 32 && spec_reg(w, 27)
        < 32) by (bit_vector);
}

fn insert(field: u32, word: u32, lo: u32, hi: u32, dest: u32) -> (r: u32)
    requires
        lo <= hi < 32,
        dest + (hi - lo) < 32,
    ensures
        r == spec_insert(field, word, lo, hi, dest),
{
    let n = (hi - lo + 1) as u64;
    assert(1u64 << n >= 1) by (bit_vector)
        requires
            n <= 32,
    ;
    let mask = ((1u64 << n) - 1) as u32;
    (field & !(mask << dest)) | (((word >> lo) & mask) << dest)
}

fn sign_init(word: u32) -> (r: u32)
    ensures
        r == spec_sign_init(word),
{
    if (word >> 31u32) & 1 == 1 {
        0xffff_ffff
    } else {
        0
    }
}

fn reg(word: u32, lo: u32) -> (r: u8)
    requires
        lo < 32,
    ensures
        r == spec_reg(word, lo),
        r < 32,
{
    let r = ((word >> lo) & 0x1f) as u8;
    assert(((word >> lo) & 0x1f) < 32) by (bit_vector);
    r
}

/// The I-format immediate: bits 31..20, sign-extended.
pub open spec fn imm_i(w: u32) -> i64 {
    ((w as i32) >> 20i32) as i64
}

/// The S-format immediate: bits 31..25 and 11..7, sign-extended.
pub open spec fn imm_s(w: u32) -> i64 {
    ((((w & 0xfe00_0000) as i32) >> 20i32) | (((w >> 7u32) & 0x1f) as i32)) as i64
}

/// The B-format immediate: bits 31, 7, 30..25 and 11..8 as bits 12, 11,
/// 10..5 and 4..1 of a sign-extended, even offset.
pub open spec fn imm_b(w: u32) -> u64 {
    (((((w & 0x8000_0000) as i32) >> 19i32) as u32 | ((w & 0x80) << 4u32) | ((w >> 20u32) & 0x7e0)
        | ((w >> 7u32) & 0x1e)) as i32) as i64 as u64
}

/// The U-format immediate: bits 31..12 in place, low twelve bits zero,
/// sign-extended.
pub open spec fn imm_u(w: u32) -> u64 {
    ((w & 0xffff_f000) as i32) as i64 as u64
}

/// The J-format immediate: bits 31, 19..12, 20 and 30..21 as bits 20,
/// 19..12, 11 and 10..1 of a sign-extended, even offset.
pub open spec fn imm_j(w: u32) -> u64 {
    (((((w & 0x8000_0000) as i32) >> 11i32) as u32 | (w & 0xff000) | ((w >> 9u32) & 0x800) | ((w
        >> 20u32) & 0x7fe)) as i32) as i64 as u64
}

/// Register-register operations.
#[derive(Debug, Clone, Copy, PartialEq, Eq, Hash, Structural)]
pub struct FormatR {
    pub rd: u8,
    pub rs1: u8,
    pub rs2: u8,
}

/// Register-immediate operations and loads.
#[derive(Debug, Clone, Copy, PartialEq, Eq, Hash, Structural)]
pub struct FormatI {
    pub rd: u8,
    pub rs1: u8,
    pub imm: i64,
}

/// Stores.
#[derive(Debug, Clone, Copy, PartialEq, Eq, Hash, Structural)]
pub struct FormatS {
    pub rs1: u8,
    pub rs2: u8,
    pub imm: i64,
}

/// Conditional branches.
#[derive(Debug, Clone, Copy, PartialEq, Eq, Hash, Structural)]
pub struct FormatB {
    pub rs1: u8,
    pub rs2: u8,
    pub imm: u64,
}

/// Upper immediates.
#[derive(Debug, Clone, Copy, PartialEq, Eq, Hash, Structural)]
pub struct FormatU {
    pub rd: u8,
    pub imm: u64,
}

/// Jumps.
#[derive(Debug, Clone, Copy, PartialEq, Eq, Hash, Structural)]
pub struct FormatJ {
    pub rd: u8,
    pub imm: u64,
}

/// Fused multiply-add operations: three sources.
#[derive(Debug, Clone, Copy, PartialEq, Eq, Hash, Structural)]
pub struct FormatR4 {
    pub rd: u8,
    pub rs1: u8,
    pub rs2: u8,
    pub rs3: u8,
}

/// Mask of the rd field.
pub const RD_BITS: u32 = 0x0000_0f80;

/// Mask of the rs1 field.
pub const RS1_BITS: u32 = 0x000f_8000;

/// Mask of the rs2 field.
pub const RS2_BITS: u32 = 0x01f0_0000;

/// Mask of the rs3 field.
pub const RS3_BITS: u32 = 0xf800_0000;

impl FormatR {
    pub open spec fn spec_parse(w: u32) -> FormatR {
        FormatR { rd: spec_reg(w, 7), rs1: spec_reg(w, 15), rs2: spec_reg(w, 20) }
    }

    pub fn parse(word: u32) -> (r: FormatR)
        ensures
            r == FormatR::spec_parse(word),
            r.rd < 32,
            r.rs1 < 32,
            r.rs2 < 32,
    {
        FormatR { rd: reg(word, 7), rs1: reg(word, 15), rs2: reg(word, 20) }
    }

    pub open spec fn valid(self) -> bool {
        self.rd < 32 && self.rs1 < 32 && self.rs2 < 32
    }

    /// `base` with its register fields replaced by those of `self`.
    pub open spec fn spec_encode(self, base: u32) -> u32 {
        (base & !(RD_BITS | RS1_BITS | RS2_BITS)) | ((self.rd as u32) << 7u32) | ((self.rs1 as u32)
            << 15u32) | ((self.rs2 as u32) << 20u32)
    }

    pub fn encode(&self, base: u32) -> (r: u32)
        requires
            self.valid(),
        ensures
            r == self.spec_encode(base),
    {
        (base & !(RD_BITS | RS1_BITS | RS2_BITS)) | ((self.rd as u32) << 7u32) | ((self.rs1 as u32)
            << 15u32) | ((self.rs2 as u32) << 20u32)
    }
}

impl FormatR4 {
    pub open spec fn spec_parse(w: u32) -> FormatR4 {
        FormatR4 {
            rd: spec_reg(w, 7),
            rs1: spec_reg(w, 15),
            rs2: spec_reg(w, 20),
            rs3: spec_reg(w, 27),
        }
    }

    pub fn parse(word: u32) -> (r: FormatR4)
        ensures
            r == FormatR4::spec_parse(word),
            r.rd < 32,
            r.rs1 < 32,
            r.rs2 < 32,
            r.rs3 < 32,
    {
        FormatR4 { rd: reg(word, 7), rs1: reg(word, 15), rs2: reg(word, 20), rs3: reg(word, 27) }
    }

    pub open spec fn valid(self) -> bool {
        self.rd < 32 && self.rs1 < 32 && self.rs2 < 32 && self.rs3 < 32
    }

    pub open spec fn spec_encode(self, base: u32) -> u32 {
        (base & !(RD_BITS | RS1_BITS | RS2_BITS | RS3_BITS)) | ((self.rd as u32) << 7u32) | ((
        self.rs1 as u32) << 15u32) | ((self.rs2 as u32) << 20u32) | ((self.rs3 as u32) << 27u32)
    }

    pub fn encode(&self, base: u32) -> (r: u32)
        requires
            self.valid(),
        ensures
            r == self.spec_encode(base),
    {
        (base & !(RD_BITS | RS1_BITS | RS2_BITS | RS3_BITS)) | ((self.rd as u32) << 7u32) | ((
        self.rs1 as u32) << 15u32) | ((self.rs2 as u32) << 20u32) | ((self.rs3 as u32) << 27u32)
    }
}

impl FormatI {
    pub open spec fn spec_parse(w: u32) -> FormatI {
        FormatI { rd: spec_reg(w, 7), rs1: spec_reg(w, 15), imm: imm_i(w) }
    }

    pub fn parse(word: u32) -> (r: FormatI)
        ensures
            r == FormatI::spec_parse(word),
            r.rd < 32,
            r.rs1 < 32,
    {
        let mut imm = sign_init(word);
        imm = insert(imm, word, 20, 31, 0);
        assert(spec_insert(spec_sign_init(word), word, 20, 31, 0) as i32 as i64 == imm_i(word))
            by (bit_vector);
        FormatI { rd: reg(word, 7), rs1: reg(word, 15), imm: imm as i32 as i64 }
    }

    pub open spec fn valid(self) -> bool {
        self.rd < 32 && self.rs1 < 32 && -2048 <= self.imm < 2048
    }

    pub open spec fn spec_encode(self, base: u32) -> u32 {
        (base & !(RD_BITS | RS1_BITS | 0xfff0_0000)) | ((self.rd as u32) << 7u32) | ((
        self.rs1 as u32) << 15u32) | (((self.imm as u32) & 0xfff) << 20u32)
    }

    pub fn encode(&self, base: u32) -> (r: u32)
        requires
            self.valid(),
        ensures
            r == self.spec_encode(base),
    {
        (base & !(RD_BITS | RS1_BITS | 0xfff0_0000)) | ((self.rd as u32) << 7u32) | ((
        self.rs1 as u32) << 15u32) | (((self.imm as u32) & 0xfff) << 20u32)
    }
}

impl FormatS {
    pub open spec fn spec_parse(w: u32) -> FormatS {
        FormatS { rs1: spec_reg(w, 15), rs2: spec_reg(w, 20), imm: imm_s(w) }
    }

    pub fn parse(word: u32) -> (r: FormatS)
        ensures
            r == FormatS::spec_parse(word),
            r.rs1 < 32,
            r.rs2 < 32,
    {
        let mut imm = sign_init(word);
        imm = insert(imm, word, 7, 11, 0);
        imm = insert(imm, word, 25, 31, 5);
        assert(spec_insert(spec_insert(spec_sign_init(word), word, 7, 11, 0), word, 25, 31, 5) as i32
            as i64 == imm_s(word)) by (bit_vector);
        FormatS { rs1: reg(word, 15), rs2: reg(word, 20), imm: imm as i32 as i64 }
    }

    pub open spec fn valid(self) -> bool {
        self.rs1 < 32 && self.rs2 < 32 && -2048 <= self.imm < 2048
    }

    pub open spec fn spec_encode(self, base: u32) -> u32 {
        (base & !(RD_BITS | RS1_BITS | RS2_BITS | 0xfe00_0000)) | (((self.imm as u32) & 0x1f)
            << 7u32) | ((self.rs1 as u32) << 15u32) | ((self.rs2 as u32) << 20u32) | ((((
        self.imm as u32) >> 5u32) & 0x7f) << 25u32)
    }

    pub fn encode(&self, base: u32) -> (r: u32)
        requires
            self.valid(),
        ensures
            r == self.spec_encode(base),
    {
        (base & !(RD_BITS | RS1_BITS | RS2_BITS | 0xfe00_0000)) | (((self.imm as u32) & 0x1f)
            << 7u32) | ((self.rs1 as u32) << 15u32) | ((self.rs2 as u32) << 20u32) | ((((
        self.imm as u32) >> 5u32) & 0x7f) << 25u32)
    }
}

impl FormatB {
    pub open spec fn spec_parse(w: u32) -> FormatB {
        FormatB { rs1: spec_reg(w, 15), rs2: spec_reg(w, 20), imm: imm_b(w) }
    }

    pub fn parse(word: u32) -> (r: FormatB)
        ensures
            r == FormatB::spec_parse(word),
            r.rs1 < 32,
            r.rs2 < 32,
    {
        let mut imm = sign_init(word);
        imm = imm << 1u32;
        imm = insert(imm, word, 8, 11, 1);
        imm = insert(imm, word, 25, 30, 5);
        imm = insert(imm, word, 7, 7, 11);
        imm = insert(imm, word, 31, 31, 12);
        assert(spec_insert(
            spec_insert(
                spec_insert(spec_insert(spec_sign_init(word) << 1u32, word, 8, 11, 1), word, 25, 30, 5),
                word,
                7,
                7,
                11,
            ),
            word,
            31,
            31,
            12,
        ) as i32 as i64 as u64 == imm_b(word)) by (bit_vector);
        FormatB { rs1: reg(word, 15), rs2: reg(word, 20), imm: imm as i32 as i64 as u64 }
    }

    pub open spec fn valid(self) -> bool {
        self.rs1 < 32 && self.rs2 < 32 && -4096 <= (self.imm as i64) <= 4094 && self.imm & 1 == 0
    }

    pub open spec fn spec_encode(self, base: u32) -> u32 {
        let i = self.imm as u32;
        (base & !(RS1_BITS | RS2_BITS | 0xfe00_0f80)) | (((i >> 11u32) & 1) << 7u32) | (((i >> 1u32)
            & 0xf) << 8u32) | ((self.rs1 as u32) << 15u32) | ((self.rs2 as u32) << 20u32) | (((i
            >> 5u32) & 0x3f) << 25u32) | (((i >> 12u32) & 1) << 31u32)
    }

    pub fn encode(&self, base: u32) -> (r: u32)
        requires
            self.valid(),
        ensures
            r == self.spec_encode(base),
    {
        let i = self.imm as u32;
        (base & !(RS1_BITS | RS2_BITS | 0xfe00_0f80)) | (((i >> 11u32) & 1) << 7u32) | (((i >> 1u32)
            & 0xf) << 8u32) | ((self.rs1 as u32) << 15u32) | ((self.rs2 as u32) << 20u32) | (((i
            >> 5u32) & 0x3f) << 25u32) | (((i >> 12u32) & 1) << 31u32)
    }
}

impl FormatU {
    pub open spec fn spec_parse(w: u32) -> FormatU {
        FormatU { rd: spec_reg(w, 7), imm: imm_u(w) }
    }

    pub fn parse(word: u32) -> (r: FormatU)
        ensures
            r == FormatU::spec_parse(word),
            r.rd < 32,
    {
        let mut imm = sign_init(word);
        imm = imm << 12u32;
        imm = insert(imm, word, 12, 31, 12);
        assert(spec_insert(spec_sign_init(word) << 12u32, word, 12, 31, 12) as i32 as i64 as u64
            == imm_u(word)) by (bit_vector);
        FormatU { rd: reg(word, 7), imm: imm as i32 as i64 as u64 }
    }

    pub open spec fn valid(self) -> bool {
        self.rd < 32 && self.imm & 0xfff == 0 && -0x8000_0000 <= (self.imm as i64) < 0x8000_0000
    }

    pub open spec fn spec_encode(self, base: u32) -> u32 {
        (base & !(RD_BITS | 0xffff_f000)) | ((self.rd as u32) << 7u32) | ((self.imm as u32)
            & 0xffff_f000)
    }

    pub fn encode(&self, base: u32) -> (r: u32)
        requires
            self.valid(),
        ensures
            r == self.spec_encode(base),
    {
        (base & !(RD_BITS | 0xffff_f000)) | ((self.rd as u32) << 7u32) | ((self.imm as u32)
            & 0xffff_f000)
    }
}

impl FormatJ {
    pub open spec fn spec_parse(w: u32) -> FormatJ {
        FormatJ { rd: spec_reg(w, 7), imm: imm_j(w) }
    }

    pub fn parse(word: u32) -> (r: FormatJ)
        ensures
            r == FormatJ::spec_parse(word),
            r.rd < 32,
    {
        let mut imm = sign_init(word);
        imm = imm << 1u32;
        imm = insert(imm, word, 21, 30, 1);
        imm = insert(imm, word, 20, 20, 11);
        imm = insert(imm, word, 12, 19, 12);
        imm = insert(imm, word, 31, 31, 20);
        assert(spec_insert(
            spec_insert(
                spec_insert(
                    spec_insert(spec_sign_init(word) << 1u32, word, 21, 30, 1),
                    word,
                    20,
                    20,
                    11,
                ),
                word,
                12,
                19,
                12,
            ),
            word,
            31,
            31,
            20,
        ) as i32 as i64 as u64 == imm_j(word)) by (bit_vector);
        FormatJ { rd: reg(word, 7), imm: imm as i32 as i64 as u64 }
    }

    pub open spec fn valid(self) -> bool {
        self.rd < 32 && -0x10_0000 <= (self.imm as i64) <= 0xf_fffe && self.imm & 1 == 0
    }

    pub open spec fn spec_encode(self, base: u32) -> u32 {
        let i = self.imm as u32;
        (base & !(RD_BITS | 0xffff_f000)) | ((self.rd as u32) << 7u32) | (i & 0xff000) | (((i
            >> 11u32) & 1) << 20u32) | (((i >> 1u32) & 0x3ff) << 21u32) | (((i >> 20u32) & 1)
            << 31u32)
    }

    pub fn encode(&self, base: u32) -> (r: u32)
        requires
            self.valid(),
        ensures
            r == self.spec_encode(base),
    {
        let i = self.imm as u32;
        (base & !(RD_BITS | 0xffff_f000)) | ((self.rd as u32) << 7u32) | (i & 0xff000) | (((i
            >> 11u32) & 1) << 20u32) | (((i >> 1u32) & 0x3ff) << 21u32) | (((i >> 20u32) & 1)
            << 31u32)
    }
}

/// The B- and J-format immediates are even and the U-format immediate has
/// its low twelve bits clear, whatever the word.
pub proof fn lemma_immediate_alignment(w: u32)
    ensures
        imm_b(w) & 1 == 0,
        imm_j(w) & 1 == 0,
        imm_u(w) & 0xfff == 0,
{
    assert(imm_b(w) & 1 == 0 && imm_j(w) & 1 == 0 && imm_u(w) & 0xfff == 0) by (bit_vector);
}

/// For the I, S, B, U and J formats every bit of the 64-bit immediate above
/// the encoded range is a copy of bit 31 of the word: all ones when it is
/// set, all zeros when it is clear.
pub proof fn lemma_immediate_sign(w: u32)
    ensures
        (w >> 31u32) & 1 == 1 ==> {
            &&& (imm_i(w) as u64) >> 11u64 == 0xffff_ffff_ffff_ffffu64 >> 11u64
            &&& (imm_s(w) as u64) >> 11u64 == 0xffff_ffff_ffff_ffffu64 >> 11u64
            &&& imm_b(w) >> 12u64 == 0xffff_ffff_ffff_ffffu64 >> 12u64
            &&& imm_u(w) >> 31u64 == 0xffff_ffff_ffff_ffffu64 >> 31u64
            &&& imm_j(w) >> 20u64 == 0xffff_ffff_ffff_ffffu64 >> 20u64
        },
        (w >> 31u32) & 1 == 0 ==> {
            &&& (imm_i(w) as u64) >> 11u64 == 0
            &&& (imm_s(w) as u64) >> 11u64 == 0
            &&& imm_b(w) >> 12u64 == 0
            &&& imm_u(w) >> 31u64 == 0
            &&& imm_j(w) >> 20u64 == 0
        },
{
    assert((w >> 31u32) & 1 == 1 ==> {
        &&& (imm_i(w) as u64) >> 11u64 == 0xffff_ffff_ffff_ffffu64 >> 11u64
        &&& (imm_s(w) as u64) >> 11u64 == 0xffff_ffff_ffff_ffffu64 >> 11u64
        &&& imm_b(w) >> 12u64 == 0xffff_ffff_ffff_ffffu64 >> 12u64
        &&& imm_u(w) >> 31u64 == 0xffff_ffff_ffff_ffffu64 >> 31u64
        &&& imm_j(w) >> 20u64 == 0xffff_ffff_ffff_ffffu64 >> 20u64
    }) by (bit_vector);
    assert((w >> 31u32) & 1 == 0 ==> {
        &&& (imm_i(w) as u64) >> 11u64 == 0
        &&& (imm_s(w) as u64) >> 11u64 == 0
        &&& imm_b(w) >> 12u64 == 0
        &&& imm_u(w) >> 31u64 == 0
        &&& imm_j(w) >> 20u64 == 0
    }) by (bit_vector);
}

/// Parsing an encoded R-format instruction gives back its fields.
pub proof fn lemma_reparse_r(f: FormatR, base: u32)
    requires
        f.valid(),
    ensures
        FormatR::spec_parse(f.spec_encode(base)) == f,
{
    let (rd, rs1, rs2) = (f.rd, f.rs1, f.rs2);
    let w = f.spec_encode(base);
    assert(spec_reg(w, 7) == rd && spec_reg(w, 15) == rs1 && spec_reg(w, 20) == rs2) by (bit_vector)
        requires
            rd < 32 && rs1 < 32 && rs2 < 32,
            w == (base & !(RD_BITS | RS1_BITS | RS2_BITS)) | ((rd as u32) << 7u32) | ((rs1 as u32)
                << 15u32) | ((rs2 as u32) << 20u32),
    ;
}

/// Parsing an encoded R4-format instruction gives back its fields.
pub proof fn lemma_reparse_r4(f: FormatR4, base: u32)
    requires
        f.valid(),
    ensures
        FormatR4::spec_parse(f.spec_encode(base)) == f,
{
    let (rd, rs1, rs2, rs3) = (f.rd, f.rs1, f.rs2, f.rs3);
    let w = f.spec_encode(base);
    assert(spec_reg(w, 7) == rd && spec_reg(w, 15) == rs1 && spec_reg(w, 20) == rs2 && spec_reg(
        w,
        27,
    ) == rs3) by (bit_vector)
        requires
            rd < 32 && rs1 < 32 && rs2 < 32 && rs3 < 32,
            w == (base & !(RD_BITS | RS1_BITS | RS2_BITS | RS3_BITS)) | ((rd as u32) << 7u32) | ((
            rs1 as u32) << 15u32) | ((rs2 as u32) << 20u32) | ((rs3 as u32) << 27u32),
    ;
}

/// Parsing an encoded I-format instruction gives back its fields.
pub proof fn lemma_reparse_i(f: FormatI, base: u32)
    requires
        f.valid(),
    ensures
        FormatI::spec_parse(f.spec_encode(base)) == f,
{
    let (rd, rs1, imm) = (f.rd, f.rs1, f.imm);
    let w = f.spec_encode(base);
    assert(spec_reg(w, 7) == rd && spec_reg(w, 15) == rs1 && imm_i(w) == imm) by (bit_vector)
        requires
            rd < 32 && rs1 < 32 && -2048 <= imm < 2048,
            w == (base & !(RD_BITS | RS1_BITS | 0xfff0_0000)) | ((rd as u32) << 7u32) | ((rs1 as u32)
                << 15u32) | (((imm as u32) & 0xfff) << 20u32),
    ;
}

/// Parsing an encoded S-format instruction gives back its fields.
pub proof fn lemma_reparse_s(f: FormatS, base: u32)
    requires
        f.valid(),
    ensures
        FormatS::spec_parse(f.spec_encode(base)) == f,
{
    let (rs1, rs2, imm) = (f.rs1, f.rs2, f.imm);
    let w = f.spec_encode(base);
    assert(spec_reg(w, 15) == rs1 && spec_reg(w, 20) == rs2 && imm_s(w) == imm) by (bit_vector)
        requires
            rs1 < 32 && rs2 < 32 && -2048 <= imm < 2048,
            w == (base & !(RD_BITS | RS1_BITS | RS2_BITS | 0xfe00_0000)) | (((imm as u32) & 0x1f)
                << 7u32) | ((rs1 as u32) << 15u32) | ((rs2 as u32) << 20u32) | ((((imm as u32)
                >> 5u32) & 0x7f) << 25u32),
    ;
}

/// Parsing an encoded B-format instruction gives back its fields.
pub proof fn lemma_reparse_b(f: FormatB, base: u32)
    requires
        f.valid(),
    ensures
        FormatB::spec_parse(f.spec_encode(base)) == f,
{
    let (rs1, rs2, imm) = (f.rs1, f.rs2, f.imm);
    let w = f.spec_encode(base);
    let i = imm as u32;
    assert(spec_reg(w, 15) == rs1 && spec_reg(w, 20) == rs2 && imm_b(w) == imm) by (bit_vector)
        requires
            rs1 < 32 && rs2 < 32 && -4096 <= (imm as i64) <= 4094 && imm & 1 == 0,
            i == imm as u32,
            w == (base & !(RS1_BITS | RS2_BITS | 0xfe00_0f80)) | (((i >> 11u32) & 1) << 7u32) | (((i
                >> 1u32) & 0xf) << 8u32) | ((rs1 as u32) << 15u32) | ((rs2 as u32) << 20u32) | (((i
                >> 5u32) & 0x3f) << 25u32) | (((i >> 12u32) & 1) << 31u32),
    ;
}

/// Parsing an encoded U-format instruction gives back its fields.
pub proof fn lemma_reparse_u(f: FormatU, base: u32)
    requires
        f.valid(),
    ensures
        FormatU::spec_parse(f.spec_encode(base)) == f,
{
    let (rd, imm) = (f.rd, f.imm);
    let w = f.spec_encode(base);
    assert(spec_reg(w, 7) == rd && imm_u(w) == imm) by (bit_vector)
        requires
            rd < 32 && imm & 0xfff == 0 && -0x8000_0000 <= (imm as i64) < 0x8000_0000,
            w == (base & !(RD_BITS | 0xffff_f000)) | ((rd as u32) << 7u32) | ((imm as u32)
                & 0xffff_f000),
    ;
}

/// Parsing an encoded J-format instruction gives back its fields.
pub proof fn lemma_reparse_j(f: FormatJ, base: u32)
    requires
        f.valid(),
    ensures
        FormatJ::spec_parse(f.spec_encode(base)) == f,
{
    let (rd, imm) = (f.rd, f.imm);
    let w = f.spec_encode(base);
    let i = imm as u32;
    assert(spec_reg(w, 7) == rd && imm_j(w) == imm) by (bit_vector)
        requires
            rd < 32 && -0x10_0000 <= (imm as i64) <= 0xf_fffe && imm & 1 == 0,
            i == imm as u32,
            w == (base & !(RD_BITS | 0xffff_f000)) | ((rd as u32) << 7u32) | (i & 0xff000) | (((i
                >> 11u32) & 1) << 20u32) | (((i >> 1u32) & 0x3ff) << 21u32) | (((i >> 20u32) & 1)
                << 31u32),
    ;
}

} // verus!
