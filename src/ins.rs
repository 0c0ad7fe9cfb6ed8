//! Instruction decoding: the formats, the table of supported instructions
//! and the matching of words against it.
use vstd::prelude::*;

pub mod format;

verus! {

/// Number of entries in the instruction table.
pub const INSTRUCTION_COUNT: u8 = 158;

/// The operation an instruction performs.
#[derive(Debug, Clone, Copy, PartialEq, Eq, Hash, Structural)]
pub enum Op {
    Lui,
    Auipc,
    Jal,
    Jalr,
    Beq,
    Bne,
    Blt,
    Bge,
    Bltu,
    Bgeu,
    Lb,
    Lh,
    Lw,
    Lbu,
    Lhu,
    Sb,
    Sh,
    Sw,
    Addi,
    Slti,
    Sltiu,
    Xori,
    Ori,
    Andi,
    Add,
    Sub,
    Sll,
    Slt,
    Sltu,
    Xor,
    Srl,
    Sra,
    Or,
    And,
    Fence,
    Ecall,
    Ebreak,
    Lwu,
    Ld,
    Sd,
    Slli,
    Srli,
    Srai,
    Addiw,
    Slliw,
    Srliw,
    Sraiw,
    Addw,
    Subw,
    Sllw,
    Srlw,
    Sraw,
    FenceI,
    Csrrw,
    Csrrs,
    Csrrc,
    Csrrwi,
    Csrrsi,
    Csrrci,
    Mul,
    Mulh,
    Mulhsu,
    Mulhu,
    Div,
    Divu,
    Rem,
    Remu,
    Mulw,
    Divw,
    Divuw,
    Remw,
    Remuw,
    LrW,
    ScW,
    AmoswapW,
    AmoaddW,
    AmoxorW,
    AmoandW,
    AmoorW,
    AmominW,
    AmomaxW,
    AmominuW,
    AmomaxuW,
    LrD,
    ScD,
    AmoswapD,
    AmoaddD,
    AmoxorD,
    AmoandD,
    AmoorD,
    AmominD,
    AmomaxD,
    AmominuD,
    AmomaxuD,
    Flw,
    Fsw,
    FmaddS,
    FmsubS,
    FnmsubS,
    FnmaddS,
    FaddS,
    FsubS,
    FmulS,
    FdivS,
    FsqrtS,
    FsgnjS,
    FsgnjnS,
    FsgnjxS,
    FminS,
    FmaxS,
    FcvtWS,
    FcvtWuS,
    FmvXS,
    FeqS,
    FltS,
    FleS,
    FclassS,
    FcvtSW,
    FcvtSWu,
    FmvWX,
    FcvtLS,
    FcvtLuS,
    FcvtSL,
    FcvtSLu,
    Fld,
    Fsd,
    FmaddD,
    FmsubD,
    FnmsubD,
    FnmaddD,
    FaddD,
    FsubD,
    FmulD,
    FdivD,
    FsqrtD,
    FsgnjD,
    FsgnjnD,
    FsgnjxD,
    FminD,
    FmaxD,
    FcvtSD,
    FcvtDS,
    FeqD,
    FltD,
    FleD,
    FclassD,
    FcvtWD,
    FcvtWuD,
    FcvtDW,
    FcvtDWu,
    FcvtLD,
    FcvtLuD,
    FmvXD,
    FcvtDL,
    FcvtDLu,
    FmvDX,
    Sret,
    Mret,
}

/// An entry of the instruction table: a word `w` is this instruction when
/// `w & mask == reqd`.
#[derive(Debug, Clone, Copy)]
pub struct Instruction {
    pub mask: u32,
    pub reqd: u32,
    pub name: &'static str,
    pub extension: &'static str,
    pub op: Op,
}

/// The mask of table entry `i`.
pub open spec fn spec_mask(i: u8) -> u32 {
    if i == 0 {
        0x7f
    } else     if i == 1 {
        0x7f
    } else     if i == 2 {
        0x7f
    } else     if i == 3 {
        0x707f
    } else     if i == 4 {
        0x707f
    } else     if i == 5 {
        0x707f
    } else     if i == 6 {
        0x707f
    } else     if i == 7 {
        0x707f
    } else     if i == 8 {
        0x707f
    } else     if i == 9 {
        0x707f
    } else     if i == 10 {
        0x707f
    } else     if i == 11 {
        0x707f
    } else     if i == 12 {
        0x707f
    } else     if i == 13 {
        0x707f
    } else     if i == 14 {
        0x707f
    } else     if i == 15 {
        0x707f
    } else     if i == 16 {
        0x707f
    } else     if i == 17 {
        0x707f
    } else     if i == 18 {
        0x707f
    } else     if i == 19 {
        0x707f
    } else     if i == 20 {
        0x707f
    } else     if i == 21 {
        0x707f
    } else     if i == 22 {
        0x707f
    } else     if i == 23 {
        0x707f
    } else     if i == 24 {
        0xfe00707f
    } else     if i == 25 {
        0xfe00707f
    } else     if i == 26 {
        0xfe00707f
    } else     if i == 27 {
        0xfe00707f
    } else     if i == 28 {
        0xfe00707f
    } else     if i == 29 {
        0xfe00707f
    } else     if i == 30 {
        0xfe00707f
    } else     if i == 31 {
        0xfe00707f
    } else     if i == 32 {
        0xfe00707f
    } else     if i == 33 {
        0xfe00707f
    } else     if i == 34 {
        0x707f
    } else     if i == 35 {
        0xffffffff
    } else     if i == 36 {
        0xffffffff
    } else     if i == 37 {
        0x707f
    } else     if i == 38 {
        0x707f
    } else     if i == 39 {
        0x707f
    } else     if i == 40 {
        0xfc00707f
    } else     if i == 41 {
        0xfc00707f
    } else     if i == 42 {
        0xfc00707f
    } else     if i == 43 {
        0x707f
    } else     if i == 44 {
        0xfe00707f
    } else     if i == 45 {
        0xfe00707f
    } else     if i == 46 {
        0xfe00707f
    } else     if i == 47 {
        0xfe00707f
    } else     if i == 48 {
        0xfe00707f
    } else     if i == 49 {
        0xfe00707f
    } else     if i == 50 {
        0xfe00707f
    } else     if i == 51 {
        0xfe00707f
    } else     if i == 52 {
        0x707f
    } else     if i == 53 {
        0x707f
    } else     if i == 54 {
        0x707f
    } else     if i == 55 {
        0x707f
    } else     if i == 56 {
        0x707f
    } else     if i == 57 {
        0x707f
    } else     if i == 58 {
        0x707f
    } else     if i == 59 {
        0xfe00707f
    } else     if i == 60 {
        0xfe00707f
    } else     if i == 61 {
        0xfe00707f
    } else     if i == 62 {
        0xfe00707f
    } else     if i == 63 {
        0xfe00707f
    } else     if i == 64 {
        0xfe00707f
    } else     if i == 65 {
        0xfe00707f
    } else     if i == 66 {
        0xfe00707f
    } else     if i == 67 {
        0xfe00707f
    } else     if i == 68 {
        0xfe00707f
    } else     if i == 69 {
        0xfe00707f
    } else     if i == 70 {
        0xfe00707f
    } else     if i == 71 {
        0xfe00707f
    } else     if i == 72 {
        0xf9f0707f
    } else     if i == 73 {
        0xf800707f
    } else     if i == 74 {
        0xf800707f
    } else     if i == 75 {
        0xf800707f
    } else     if i == 76 {
        0xf800707f
    } else     if i == 77 {
        0xf800707f
    } else     if i == 78 {
        0xf800707f
    } else     if i == 79 {
        0xf800707f
    } else     if i == 80 {
        0xf800707f
    } else     if i == 81 {
        0xf800707f
    } else     if i == 82 {
        0xf800707f
    } else     if i == 83 {
        0xf9f0707f
    } else     if i == 84 {
        0xf800707f
    } else     if i == 85 {
        0xf800707f
    } else     if i == 86 {
        0xf800707f
    } else     if i == 87 {
        0xf800707f
    } else     if i == 88 {
        0xf800707f
    } else     if i == 89 {
        0xf800707f
    } else     if i == 90 {
        0xf800707f
    } else     if i == 91 {
        0xf800707f
    } else     if i == 92 {
        0xf800707f
    } else     if i == 93 {
        0xf800707f
    } else     if i == 94 {
        0x707f
    } else     if i == 95 {
        0x707f
    } else     if i == 96 {
        0x600007f
    } else     if i == 97 {
        0x600007f
    } else     if i == 98 {
        0x600007f
    } else     if i == 99 {
        0x600007f
    } else     if i == 100 {
        0xfe00007f
    } else     if i == 101 {
        0xfe00007f
    } else     if i == 102 {
        0xfe00007f
    } else     if i == 103 {
        0xfe00007f
    } else     if i == 104 {
        0xfff0007f
    } else     if i == 105 {
        0xfe00707f
    } else     if i == 106 {
        0xfe00707f
    } else     if i == 107 {
        0xfe00707f
    } else     if i == 108 {
        0xfe00707f
    } else     if i == 109 {
        0xfe00707f
    } else     if i == 110 {
        0xfff0007f
    } else     if i == 111 {
        0xfff0007f
    } else     if i == 112 {
        0xfff0707f
    } else     if i == 113 {
        0xfe00707f
    } else     if i == 114 {
        0xfe00707f
    } else     if i == 115 {
        0xfe00707f
    } else     if i == 116 {
        0xfff0707f
    } else     if i == 117 {
        0xfff0007f
    } else     if i == 118 {
        0xfff0007f
    } else     if i == 119 {
        0xfff0707f
    } else     if i == 120 {
        0xfff0007f
    } else     if i == 121 {
        0xfff0007f
    } else     if i == 122 {
        0xfff0007f
    } else     if i == 123 {
        0xfff0007f
    } else     if i == 124 {
        0x707f
    } else     if i == 125 {
        0x707f
    } else     if i == 126 {
        0x600007f
    } else     if i == 127 {
        0x600007f
    } else     if i == 128 {
        0x600007f
    } else     if i == 129 {
        0x600007f
    } else     if i == 130 {
        0xfe00007f
    } else     if i == 131 {
        0xfe00007f
    } else     if i == 132 {
        0xfe00007f
    } else     if i == 133 {
        0xfe00007f
    } else     if i == 134 {
        0xfff0007f
    } else     if i == 135 {
        0xfe00707f
    } else     if i == 136 {
        0xfe00707f
    } else     if i == 137 {
        0xfe00707f
    } else     if i == 138 {
        0xfe00707f
    } else     if i == 139 {
        0xfe00707f
    } else     if i == 140 {
        0xfff0007f
    } else     if i == 141 {
        0xfff0007f
    } else     if i == 142 {
        0xfe00707f
    } else     if i == 143 {
        0xfe00707f
    } else     if i == 144 {
        0xfe00707f
    } else     if i == 145 {
        0xfff0707f
    } else     if i == 146 {
        0xfff0007f
    } else     if i == 147 {
        0xfff0007f
    } else     if i == 148 {
        0xfff0007f
    } else     if i == 149 {
        0xfff0007f
    } else     if i == 150 {
        0xfff0007f
    } else     if i == 151 {
        0xfff0007f
    } else     if i == 152 {
        0xfff0707f
    } else     if i == 153 {
        0xfff0007f
    } else     if i == 154 {
        0xfff0007f
    } else     if i == 155 {
        0xfff0707f
    } else     if i == 156 {
        0xffffffff
    } else {
        0xffffffff
    }
}

/// The required bits of table entry `i`.
pub open spec fn spec_reqd(i: u8) -> u32 {
    if i == 0 {
        0x37
    } else     if i == 1 {
        0x17
    } else     if i == 2 {
        0x6f
    } else     if i == 3 {
        0x67
    } else     if i == 4 {
        0x63
    } else     if i == 5 {
        0x1063
    } else     if i == 6 {
        0x4063
    } else     if i == 7 {
        0x5063
    } else     if i == 8 {
        0x6063
    } else     if i == 9 {
        0x7063
    } else     if i == 10 {
        0x3
    } else     if i == 11 {
        0x1003
    } else     if i == 12 {
        0x2003
    } else     if i == 13 {
        0x4003
    } else     if i == 14 {
        0x5003
    } else     if i == 15 {
        0x23
    } else     if i == 16 {
        0x1023
    } else     if i == 17 {
        0x2023
    } else     if i == 18 {
        0x13
    } else     if i == 19 {
        0x2013
    } else     if i == 20 {
        0x3013
    } else     if i == 21 {
        0x4013
    } else     if i == 22 {
        0x6013
    } else     if i == 23 {
        0x7013
    } else     if i == 24 {
        0x33
    } else     if i == 25 {
        0x40000033
    } else     if i == 26 {
        0x1033
    } else     if i == 27 {
        0x2033
    } else     if i == 28 {
        0x3033
    } else     if i == 29 {
        0x4033
    } else     if i == 30 {
        0x5033
    } else     if i == 31 {
        0x40005033
    } else     if i == 32 {
        0x6033
    } else     if i == 33 {
        0x7033
    } else     if i == 34 {
        0xf
    } else     if i == 35 {
        0x73
    } else     if i == 36 {
        0x100073
    } else     if i == 37 {
        0x6003
    } else     if i == 38 {
        0x3003
    } else     if i == 39 {
        0x3023
    } else     if i == 40 {
        0x1013
    } else     if i == 41 {
        0x5013
    } else     if i == 42 {
        0x40005013
    } else     if i == 43 {
        0x1b
    } else     if i == 44 {
        0x101b
    } else     if i == 45 {
        0x501b
    } else     if i == 46 {
        0x4000501b
    } else     if i == 47 {
        0x3b
    } else     if i == 48 {
        0x4000003b
    } else     if i == 49 {
        0x103b
    } else     if i == 50 {
        0x503b
    } else     if i == 51 {
        0x4000503b
    } else     if i == 52 {
        0x100f
    } else     if i == 53 {
        0x1073
    } else     if i == 54 {
        0x2073
    } else     if i == 55 {
        0x3073
    } else     if i == 56 {
        0x5073
    } else     if i == 57 {
        0x6073
    } else     if i == 58 {
        0x7073
    } else     if i == 59 {
        0x2000033
    } else     if i == 60 {
        0x2001033
    } else     if i == 61 {
        0x2002033
    } else     if i == 62 {
        0x2003033
    } else     if i == 63 {
        0x2004033
    } else     if i == 64 {
        0x2005033
    } else     if i == 65 {
        0x2006033
    } else     if i == 66 {
        0x2007033
    } else     if i == 67 {
        0x200003b
    } else     if i == 68 {
        0x200403b
    } else     if i == 69 {
        0x200503b
    } else     if i == 70 {
        0x200603b
    } else     if i == 71 {
        0x200703b
    } else     if i == 72 {
        0x1000202f
    } else     if i == 73 {
        0x1800202f
    } else     if i == 74 {
        0x800202f
    } else     if i == 75 {
        0x202f
    } else     if i == 76 {
        0x2000202f
    } else     if i == 77 {
        0x6000202f
    } else     if i == 78 {
        0x4000202f
    } else     if i == 79 {
        0x8000202f
    } else     if i == 80 {
        0xa000202f
    } else     if i == 81 {
        0xc000202f
    } else     if i == 82 {
        0xe000202f
    } else     if i == 83 {
        0x1000302f
    } else     if i == 84 {
        0x1800302f
    } else     if i == 85 {
        0x800302f
    } else     if i == 86 {
        0x302f
    } else     if i == 87 {
        0x2000302f
    } else     if i == 88 {
        0x6000302f
    } else     if i == 89 {
        0x4000302f
    } else     if i == 90 {
        0x8000302f
    } else     if i == 91 {
        0xa000302f
    } else     if i == 92 {
        0xc000302f
    } else     if i == 93 {
        0xe000302f
    } else     if i == 94 {
        0x2007
    } else     if i == 95 {
        0x2027
    } else     if i == 96 {
        0x43
    } else     if i == 97 {
        0x47
    } else     if i == 98 {
        0x4b
    } else     if i == 99 {
        0x4f
    } else     if i == 100 {
        0x53
    } else     if i == 101 {
        0x8000053
    } else     if i == 102 {
        0x10000053
    } else     if i == 103 {
        0x18000053
    } else     if i == 104 {
        0x58000053
    } else     if i == 105 {
        0x20000053
    } else     if i == 106 {
        0x20001053
    } else     if i == 107 {
        0x20002053
    } else     if i == 108 {
        0x28000053
    } else     if i == 109 {
        0x28001053
    } else     if i == 110 {
        0xc0000053
    } else     if i == 111 {
        0xc0100053
    } else     if i == 112 {
        0xe0000053
    } else     if i == 113 {
        0xa0002053
    } else     if i == 114 {
        0xa0001053
    } else     if i == 115 {
        0xa0000053
    } else     if i == 116 {
        0xe0001053
    } else     if i == 117 {
        0xd0000053
    } else     if i == 118 {
        0xd0100053
    } else     if i == 119 {
        0xf0000053
    } else     if i == 120 {
        0xc0200053
    } else     if i == 121 {
        0xc0300053
    } else     if i == 122 {
        0xd0200053
    } else     if i == 123 {
        0xd0300053
    } else     if i == 124 {
        0x3007
    } else     if i == 125 {
        0x3027
    } else     if i == 126 {
        0x2000043
    } else     if i == 127 {
        0x2000047
    } else     if i == 128 {
        0x200004b
    } else     if i == 129 {
        0x200004f
    } else     if i == 130 {
        0x2000053
    } else     if i == 131 {
        0xa000053
    } else     if i == 132 {
        0x12000053
    } else     if i == 133 {
        0x1a000053
    } else     if i == 134 {
        0x5a000053
    } else     if i == 135 {
        0x22000053
    } else     if i == 136 {
        0x22001053
    } else     if i == 137 {
        0x22002053
    } else     if i == 138 {
        0x2a000053
    } else     if i == 139 {
        0x2a001053
    } else     if i == 140 {
        0x40100053
    } else     if i == 141 {
        0x42000053
    } else     if i == 142 {
        0xa2002053
    } else     if i == 143 {
        0xa2001053
    } else     if i == 144 {
        0xa2000053
    } else     if i == 145 {
        0xe2001053
    } else     if i == 146 {
        0xc2000053
    } else     if i == 147 {
        0xc2100053
    } else     if i == 148 {
        0xd2000053
    } else     if i == 149 {
        0xd2100053
    } else     if i == 150 {
        0xc2200053
    } else     if i == 151 {
        0xc2300053
    } else     if i == 152 {
        0xe2000053
    } else     if i == 153 {
        0xd2200053
    } else     if i == 154 {
        0xd2300053
    } else     if i == 155 {
        0xf2000053
    } else     if i == 156 {
        0x10200073
    } else {
        0x30200073
    }
}

/// The mnemonic of table entry `i`.
pub open spec fn spec_name(i: u8) -> Seq<char> {
    if i == 0 {
        "LUI"@
    } else     if i == 1 {
        "AUIPC"@
    } else     if i == 2 {
        "JAL"@
    } else     if i == 3 {
        "JALR"@
    } else     if i == 4 {
        "BEQ"@
    } else     if i == 5 {
        "BNE"@
    } else     if i == 6 {
        "BLT"@
    } else     if i == 7 {
        "BGE"@
    } else     if i == 8 {
        "BLTU"@
    } else     if i == 9 {
        "BGEU"@
    } else     if i == 10 {
        "LB"@
    } else     if i == 11 {
        "LH"@
    } else     if i == 12 {
        "LW"@
    } else     if i == 13 {
        "LBU"@
    } else     if i == 14 {
        "LHU"@
    } else     if i == 15 {
        "SB"@
    } else     if i == 16 {
        "SH"@
    } else     if i == 17 {
        "SW"@
    } else     if i == 18 {
        "ADDI"@
    } else     if i == 19 {
        "SLTI"@
    } else     if i == 20 {
        "SLTIU"@
    } else     if i == 21 {
        "XORI"@
    } else     if i == 22 {
        "ORI"@
    } else     if i == 23 {
        "ANDI"@
    } else     if i == 24 {
        "ADD"@
    } else     if i == 25 {
        "SUB"@
    } else     if i == 26 {
        "SLL"@
    } else     if i == 27 {
        "SLT"@
    } else     if i == 28 {
        "SLTU"@
    } else     if i == 29 {
        "XOR"@
    } else     if i == 30 {
        "SRL"@
    } else     if i == 31 {
        "SRA"@
    } else     if i == 32 {
        "OR"@
    } else     if i == 33 {
        "AND"@
    } else     if i == 34 {
        "FENCE"@
    } else     if i == 35 {
        "ECALL"@
    } else     if i == 36 {
        "EBREAK"@
    } else     if i == 37 {
        "LWU"@
    } else     if i == 38 {
        "LD"@
    } else     if i == 39 {
        "SD"@
    } else     if i == 40 {
        "SLLI"@
    } else     if i == 41 {
        "SRLI"@
    } else     if i == 42 {
        "SRAI"@
    } else     if i == 43 {
        "ADDIW"@
    } else     if i == 44 {
        "SLLIW"@
    } else     if i == 45 {
        "SRLIW"@
    } else     if i == 46 {
        "SRAIW"@
    } else     if i == 47 {
        "ADDW"@
    } else     if i == 48 {
        "SUBW"@
    } else     if i == 49 {
        "SLLW"@
    } else     if i == 50 {
        "SRLW"@
    } else     if i == 51 {
        "SRAW"@
    } else     if i == 52 {
        "FENCE.I"@
    } else     if i == 53 {
        "CSRRW"@
    } else     if i == 54 {
        "CSRRS"@
    } else     if i == 55 {
        "CSRRC"@
    } else     if i == 56 {
        "CSRRWI"@
    } else     if i == 57 {
        "CSRRSI"@
    } else     if i == 58 {
        "CSRRCI"@
    } else     if i == 59 {
        "MUL"@
    } else     if i == 60 {
        "MULH"@
    } else     if i == 61 {
        "MULHSU"@
    } else     if i == 62 {
        "MULHU"@
    } else     if i == 63 {
        "DIV"@
    } else     if i == 64 {
        "DIVU"@
    } else     if i == 65 {
        "REM"@
    } else     if i == 66 {
        "REMU"@
    } else     if i == 67 {
        "MULW"@
    } else     if i == 68 {
        "DIVW"@
    } else     if i == 69 {
        "DIVUW"@
    } else     if i == 70 {
        "REMW"@
    } else     if i == 71 {
        "REMUW"@
    } else     if i == 72 {
        "LR.W"@
    } else     if i == 73 {
        "SC.W"@
    } else     if i == 74 {
        "AMOSWAP.W"@
    } else     if i == 75 {
        "AMOADD.W"@
    } else     if i == 76 {
        "AMOXOR.W"@
    } else     if i == 77 {
        "AMOAND.W"@
    } else     if i == 78 {
        "AMOOR.W"@
    } else     if i == 79 {
        "AMOMIN.W"@
    } else     if i == 80 {
        "AMOMAX.W"@
    } else     if i == 81 {
        "AMOMINU.W"@
    } else     if i == 82 {
        "AMOMAXU.W"@
    } else     if i == 83 {
        "LR.D"@
    } else     if i == 84 {
        "SC.D"@
    } else     if i == 85 {
        "AMOSWAP.D"@
    } else     if i == 86 {
        "AMOADD.D"@
    } else     if i == 87 {
        "AMOXOR.D"@
    } else     if i == 88 {
        "AMOAND.D"@
    } else     if i == 89 {
        "AMOOR.D"@
    } else     if i == 90 {
        "AMOMIN.D"@
    } else     if i == 91 {
        "AMOMAX.D"@
    } else     if i == 92 {
        "AMOMINU.D"@
    } else     if i == 93 {
        "AMOMAXU.D"@
    } else     if i == 94 {
        "FLW"@
    } else     if i == 95 {
        "FSW"@
    } else     if i == 96 {
        "FMADD.S"@
    } else     if i == 97 {
        "FMSUB.S"@
    } else     if i == 98 {
        "FNMSUB.S"@
    } else     if i == 99 {
        "FNMADD.S"@
    } else     if i == 100 {
        "FADD.S"@
    } else     if i == 101 {
        "FSUB.S"@
    } else     if i == 102 {
        "FMUL.S"@
    } else     if i == 103 {
        "FDIV.S"@
    } else     if i == 104 {
        "FSQRT.S"@
    } else     if i == 105 {
        "FSGNJ.S"@
    } else     if i == 106 {
        "FSGNJN.S"@
    } else     if i == 107 {
        "FSGNJX.S"@
    } else     if i == 108 {
        "FMIN.S"@
    } else     if i == 109 {
        "FMAX.S"@
    } else     if i == 110 {
        "FCVT.W.S"@
    } else     if i == 111 {
        "FCVT.WU.S"@
    } else     if i == 112 {
        "FMV.X.S"@
    } else     if i == 113 {
        "FEQ.S"@
    } else     if i == 114 {
        "FLT.S"@
    } else     if i == 115 {
        "FLE.S"@
    } else     if i == 116 {
        "FCLASS.S"@
    } else     if i == 117 {
        "FCVT.S.W"@
    } else     if i == 118 {
        "FCVT.S.WU"@
    } else     if i == 119 {
        "FMV.W.X"@
    } else     if i == 120 {
        "FCVT.L.S"@
    } else     if i == 121 {
        "FCVT.LU.S"@
    } else     if i == 122 {
        "FCVT.S.L"@
    } else     if i == 123 {
        "FCVT.S.LU"@
    } else     if i == 124 {
        "FLD"@
    } else     if i == 125 {
        "FSD"@
    } else     if i == 126 {
        "FMADD.D"@
    } else     if i == 127 {
        "FMSUB.D"@
    } else     if i == 128 {
        "FNMSUB.D"@
    } else     if i == 129 {
        "FNMADD.D"@
    } else     if i == 130 {
        "FADD.D"@
    } else     if i == 131 {
        "FSUB.D"@
    } else     if i == 132 {
        "FMUL.D"@
    } else     if i == 133 {
        "FDIV.D"@
    } else     if i == 134 {
        "FSQRT.D"@
    } else     if i == 135 {
        "FSGNJ.D"@
    } else     if i == 136 {
        "FSGNJN.D"@
    } else     if i == 137 {
        "FSGNJX.D"@
    } else     if i == 138 {
        "FMIN.D"@
    } else     if i == 139 {
        "FMAX.D"@
    } else     if i == 140 {
        "FCVT.S.D"@
    } else     if i == 141 {
        "FCVT.D.S"@
    } else     if i == 142 {
        "FEQ.D"@
    } else     if i == 143 {
        "FLT.D"@
    } else     if i == 144 {
        "FLE.D"@
    } else     if i == 145 {
        "FCLASS.D"@
    } else     if i == 146 {
        "FCVT.W.D"@
    } else     if i == 147 {
        "FCVT.WU.D"@
    } else     if i == 148 {
        "FCVT.D.W"@
    } else     if i == 149 {
        "FCVT.D.WU"@
    } else     if i == 150 {
        "FCVT.L.D"@
    } else     if i == 151 {
        "FCVT.LU.D"@
    } else     if i == 152 {
        "FMV.X.D"@
    } else     if i == 153 {
        "FCVT.D.L"@
    } else     if i == 154 {
        "FCVT.D.LU"@
    } else     if i == 155 {
        "FMV.D.X"@
    } else     if i == 156 {
        "SRET"@
    } else {
        "MRET"@
    }
}

/// The extension of table entry `i`.
pub open spec fn spec_extension(i: u8) -> Seq<char> {
    if i == 0 {
        "RV32I"@
    } else     if i == 1 {
        "RV32I"@
    } else     if i == 2 {
        "RV32I"@
    } else     if i == 3 {
        "RV32I"@
    } else     if i == 4 {
        "RV32I"@
    } else     if i == 5 {
        "RV32I"@
    } else     if i == 6 {
        "RV32I"@
    } else     if i == 7 {
        "RV32I"@
    } else     if i == 8 {
        "RV32I"@
    } else     if i == 9 {
        "RV32I"@
    } else     if i == 10 {
        "RV32I"@
    } else     if i == 11 {
        "RV32I"@
    } else     if i == 12 {
        "RV32I"@
    } else     if i == 13 {
        "RV32I"@
    } else     if i == 14 {
        "RV32I"@
    } else     if i == 15 {
        "RV32I"@
    } else     if i == 16 {
        "RV32I"@
    } else     if i == 17 {
        "RV32I"@
    } else     if i == 18 {
        "RV32I"@
    } else     if i == 19 {
        "RV32I"@
    } else     if i == 20 {
        "RV32I"@
    } else     if i == 21 {
        "RV32I"@
    } else     if i == 22 {
        "RV32I"@
    } else     if i == 23 {
        "RV32I"@
    } else     if i == 24 {
        "RV32I"@
    } else     if i == 25 {
        "RV32I"@
    } else     if i == 26 {
        "RV32I"@
    } else     if i == 27 {
        "RV32I"@
    } else     if i == 28 {
        "RV32I"@
    } else     if i == 29 {
        "RV32I"@
    } else     if i == 30 {
        "RV32I"@
    } else     if i == 31 {
        "RV32I"@
    } else     if i == 32 {
        "RV32I"@
    } else     if i == 33 {
        "RV32I"@
    } else     if i == 34 {
        "RV32I"@
    } else     if i == 35 {
        "RV32I"@
    } else     if i == 36 {
        "RV32I"@
    } else     if i == 37 {
        "RV64I"@
    } else     if i == 38 {
        "RV64I"@
    } else     if i == 39 {
        "RV64I"@
    } else     if i == 40 {
        "RV64I"@
    } else     if i == 41 {
        "RV64I"@
    } else     if i == 42 {
        "RV64I"@
    } else     if i == 43 {
        "RV64I"@
    } else     if i == 44 {
        "RV64I"@
    } else     if i == 45 {
        "RV64I"@
    } else     if i == 46 {
        "RV64I"@
    } else     if i == 47 {
        "RV64I"@
    } else     if i == 48 {
        "RV64I"@
    } else     if i == 49 {
        "RV64I"@
    } else     if i == 50 {
        "RV64I"@
    } else     if i == 51 {
        "RV64I"@
    } else     if i == 52 {
        "Zifencei"@
    } else     if i == 53 {
        "Zicsr"@
    } else     if i == 54 {
        "Zicsr"@
    } else     if i == 55 {
        "Zicsr"@
    } else     if i == 56 {
        "Zicsr"@
    } else     if i == 57 {
        "Zicsr"@
    } else     if i == 58 {
        "Zicsr"@
    } else     if i == 59 {
        "RV32M"@
    } else     if i == 60 {
        "RV32M"@
    } else     if i == 61 {
        "RV32M"@
    } else     if i == 62 {
        "RV32M"@
    } else     if i == 63 {
        "RV32M"@
    } else     if i == 64 {
        "RV32M"@
    } else     if i == 65 {
        "RV32M"@
    } else     if i == 66 {
        "RV32M"@
    } else     if i == 67 {
        "RV64M"@
    } else     if i == 68 {
        "RV64M"@
    } else     if i == 69 {
        "RV64M"@
    } else     if i == 70 {
        "RV64M"@
    } else     if i == 71 {
        "RV64M"@
    } else     if i == 72 {
        "RV32A"@
    } else     if i == 73 {
        "RV32A"@
    } else     if i == 74 {
        "RV32A"@
    } else     if i == 75 {
        "RV32A"@
    } else     if i == 76 {
        "RV32A"@
    } else     if i == 77 {
        "RV32A"@
    } else     if i == 78 {
        "RV32A"@
    } else     if i == 79 {
        "RV32A"@
    } else     if i == 80 {
        "RV32A"@
    } else     if i == 81 {
        "RV32A"@
    } else     if i == 82 {
        "RV32A"@
    } else     if i == 83 {
        "RV64A"@
    } else     if i == 84 {
        "RV64A"@
    } else     if i == 85 {
        "RV64A"@
    } else     if i == 86 {
        "RV64A"@
    } else     if i == 87 {
        "RV64A"@
    } else     if i == 88 {
        "RV64A"@
    } else     if i == 89 {
        "RV64A"@
    } else     if i == 90 {
        "RV64A"@
    } else     if i == 91 {
        "RV64A"@
    } else     if i == 92 {
        "RV64A"@
    } else     if i == 93 {
        "RV64A"@
    } else     if i == 94 {
        "RV32F"@
    } else     if i == 95 {
        "RV32F"@
    } else     if i == 96 {
        "RV32F"@
    } else     if i == 97 {
        "RV32F"@
    } else     if i == 98 {
        "RV32F"@
    } else     if i == 99 {
        "RV32F"@
    } else     if i == 100 {
        "RV32F"@
    } else     if i == 101 {
        "RV32F"@
    } else     if i == 102 {
        "RV32F"@
    } else     if i == 103 {
        "RV32F"@
    } else     if i == 104 {
        "RV32F"@
    } else     if i == 105 {
        "RV32F"@
    } else     if i == 106 {
        "RV32F"@
    } else     if i == 107 {
        "RV32F"@
    } else     if i == 108 {
        "RV32F"@
    } else     if i == 109 {
        "RV32F"@
    } else     if i == 110 {
        "RV32F"@
    } else     if i == 111 {
        "RV32F"@
    } else     if i == 112 {
        "RV32F"@
    } else     if i == 113 {
        "RV32F"@
    } else     if i == 114 {
        "RV32F"@
    } else     if i == 115 {
        "RV32F"@
    } else     if i == 116 {
        "RV32F"@
    } else     if i == 117 {
        "RV32F"@
    } else     if i == 118 {
        "RV32F"@
    } else     if i == 119 {
        "RV32F"@
    } else     if i == 120 {
        "RV64F"@
    } else     if i == 121 {
        "RV64F"@
    } else     if i == 122 {
        "RV64F"@
    } else     if i == 123 {
        "RV64F"@
    } else     if i == 124 {
        "RV32D"@
    } else     if i == 125 {
        "RV32D"@
    } else     if i == 126 {
        "RV32D"@
    } else     if i == 127 {
        "RV32D"@
    } else     if i == 128 {
        "RV32D"@
    } else     if i == 129 {
        "RV32D"@
    } else     if i == 130 {
        "RV32D"@
    } else     if i == 131 {
        "RV32D"@
    } else     if i == 132 {
        "RV32D"@
    } else     if i == 133 {
        "RV32D"@
    } else     if i == 134 {
        "RV32D"@
    } else     if i == 135 {
        "RV32D"@
    } else     if i == 136 {
        "RV32D"@
    } else     if i == 137 {
        "RV32D"@
    } else     if i == 138 {
        "RV32D"@
    } else     if i == 139 {
        "RV32D"@
    } else     if i == 140 {
        "RV32D"@
    } else     if i == 141 {
        "RV32D"@
    } else     if i == 142 {
        "RV32D"@
    } else     if i == 143 {
        "RV32D"@
    } else     if i == 144 {
        "RV32D"@
    } else     if i == 145 {
        "RV32D"@
    } else     if i == 146 {
        "RV32D"@
    } else     if i == 147 {
        "RV32D"@
    } else     if i == 148 {
        "RV32D"@
    } else     if i == 149 {
        "RV32D"@
    } else     if i == 150 {
        "RV64D"@
    } else     if i == 151 {
        "RV64D"@
    } else     if i == 152 {
        "RV64D"@
    } else     if i == 153 {
        "RV64D"@
    } else     if i == 154 {
        "RV64D"@
    } else     if i == 155 {
        "RV64D"@
    } else     if i == 156 {
        "Privileged"@
    } else {
        "Privileged"@
    }
}

/// The operation of table entry `i`.
pub open spec fn spec_op(i: u8) -> Op {
    if i == 0 {
        Op::Lui
    } else     if i == 1 {
        Op::Auipc
    } else     if i == 2 {
        Op::Jal
    } else     if i == 3 {
        Op::Jalr
    } else     if i == 4 {
        Op::Beq
    } else     if i == 5 {
        Op::Bne
    } else     if i == 6 {
        Op::Blt
    } else     if i == 7 {
        Op::Bge
    } else     if i == 8 {
        Op::Bltu
    } else     if i == 9 {
        Op::Bgeu
    } else     if i == 10 {
        Op::Lb
    } else     if i == 11 {
        Op::Lh
    } else     if i == 12 {
        Op::Lw
    } else     if i == 13 {
        Op::Lbu
    } else     if i == 14 {
        Op::Lhu
    } else     if i == 15 {
        Op::Sb
    } else     if i == 16 {
        Op::Sh
    } else     if i == 17 {
        Op::Sw
    } else     if i == 18 {
        Op::Addi
    } else     if i == 19 {
        Op::Slti
    } else     if i == 20 {
        Op::Sltiu
    } else     if i == 21 {
        Op::Xori
    } else     if i == 22 {
        Op::Ori
    } else     if i == 23 {
        Op::Andi
    } else     if i == 24 {
        Op::Add
    } else     if i == 25 {
        Op::Sub
    } else     if i == 26 {
        Op::Sll
    } else     if i == 27 {
        Op::Slt
    } else     if i == 28 {
        Op::Sltu
    } else     if i == 29 {
        Op::Xor
    } else     if i == 30 {
        Op::Srl
    } else     if i == 31 {
        Op::Sra
    } else     if i == 32 {
        Op::Or
    } else     if i == 33 {
        Op::And
    } else     if i == 34 {
        Op::Fence
    } else     if i == 35 {
        Op::Ecall
    } else     if i == 36 {
        Op::Ebreak
    } else     if i == 37 {
        Op::Lwu
    } else     if i == 38 {
        Op::Ld
    } else     if i == 39 {
        Op::Sd
    } else     if i == 40 {
        Op::Slli
    } else     if i == 41 {
        Op::Srli
    } else     if i == 42 {
        Op::Srai
    } else     if i == 43 {
        Op::Addiw
    } else     if i == 44 {
        Op::Slliw
    } else     if i == 45 {
        Op::Srliw
    } else     if i == 46 {
        Op::Sraiw
    } else     if i == 47 {
        Op::Addw
    } else     if i == 48 {
        Op::Subw
    } else     if i == 49 {
        Op::Sllw
    } else     if i == 50 {
        Op::Srlw
    } else     if i == 51 {
        Op::Sraw
    } else     if i == 52 {
        Op::FenceI
    } else     if i == 53 {
        Op::Csrrw
    } else     if i == 54 {
        Op::Csrrs
    } else     if i == 55 {
        Op::Csrrc
    } else     if i == 56 {
        Op::Csrrwi
    } else     if i == 57 {
        Op::Csrrsi
    } else     if i == 58 {
        Op::Csrrci
    } else     if i == 59 {
        Op::Mul
    } else     if i == 60 {
        Op::Mulh
    } else     if i == 61 {
        Op::Mulhsu
    } else     if i == 62 {
        Op::Mulhu
    } else     if i == 63 {
        Op::Div
    } else     if i == 64 {
        Op::Divu
    } else     if i == 65 {
        Op::Rem
    } else     if i == 66 {
        Op::Remu
    } else     if i == 67 {
        Op::Mulw
    } else     if i == 68 {
        Op::Divw
    } else     if i == 69 {
        Op::Divuw
    } else     if i == 70 {
        Op::Remw
    } else     if i == 71 {
        Op::Remuw
    } else     if i == 72 {
        Op::LrW
    } else     if i == 73 {
        Op::ScW
    } else     if i == 74 {
        Op::AmoswapW
    } else     if i == 75 {
        Op::AmoaddW
    } else     if i == 76 {
        Op::AmoxorW
    } else     if i == 77 {
        Op::AmoandW
    } else     if i == 78 {
        Op::AmoorW
    } else     if i == 79 {
        Op::AmominW
    } else     if i == 80 {
        Op::AmomaxW
    } else     if i == 81 {
        Op::AmominuW
    } else     if i == 82 {
        Op::AmomaxuW
    } else     if i == 83 {
        Op::LrD
    } else     if i == 84 {
        Op::ScD
    } else     if i == 85 {
        Op::AmoswapD
    } else     if i == 86 {
        Op::AmoaddD
    } else     if i == 87 {
        Op::AmoxorD
    } else     if i == 88 {
        Op::AmoandD
    } else     if i == 89 {
        Op::AmoorD
    } else     if i == 90 {
        Op::AmominD
    } else     if i == 91 {
        Op::AmomaxD
    } else     if i == 92 {
        Op::AmominuD
    } else     if i == 93 {
        Op::AmomaxuD
    } else     if i == 94 {
        Op::Flw
    } else     if i == 95 {
        Op::Fsw
    } else     if i == 96 {
        Op::FmaddS
    } else     if i == 97 {
        Op::FmsubS
    } else     if i == 98 {
        Op::FnmsubS
    } else     if i == 99 {
        Op::FnmaddS
    } else     if i == 100 {
        Op::FaddS
    } else     if i == 101 {
        Op::FsubS
    } else     if i == 102 {
        Op::FmulS
    } else     if i == 103 {
        Op::FdivS
    } else     if i == 104 {
        Op::FsqrtS
    } else     if i == 105 {
        Op::FsgnjS
    } else     if i == 106 {
        Op::FsgnjnS
    } else     if i == 107 {
        Op::FsgnjxS
    } else     if i == 108 {
        Op::FminS
    } else     if i == 109 {
        Op::FmaxS
    } else     if i == 110 {
        Op::FcvtWS
    } else     if i == 111 {
        Op::FcvtWuS
    } else     if i == 112 {
        Op::FmvXS
    } else     if i == 113 {
        Op::FeqS
    } else     if i == 114 {
        Op::FltS
    } else     if i == 115 {
        Op::FleS
    } else     if i == 116 {
        Op::FclassS
    } else     if i == 117 {
        Op::FcvtSW
    } else     if i == 118 {
        Op::FcvtSWu
    } else     if i == 119 {
        Op::FmvWX
    } else     if i == 120 {
        Op::FcvtLS
    } else     if i == 121 {
        Op::FcvtLuS
    } else     if i == 122 {
        Op::FcvtSL
    } else     if i == 123 {
        Op::FcvtSLu
    } else     if i == 124 {
        Op::Fld
    } else     if i == 125 {
        Op::Fsd
    } else     if i == 126 {
        Op::FmaddD
    } else     if i == 127 {
        Op::FmsubD
    } else     if i == 128 {
        Op::FnmsubD
    } else     if i == 129 {
        Op::FnmaddD
    } else     if i == 130 {
        Op::FaddD
    } else     if i == 131 {
        Op::FsubD
    } else     if i == 132 {
        Op::FmulD
    } else     if i == 133 {
        Op::FdivD
    } else     if i == 134 {
        Op::FsqrtD
    } else     if i == 135 {
        Op::FsgnjD
    } else     if i == 136 {
        Op::FsgnjnD
    } else     if i == 137 {
        Op::FsgnjxD
    } else     if i == 138 {
        Op::FminD
    } else     if i == 139 {
        Op::FmaxD
    } else     if i == 140 {
        Op::FcvtSD
    } else     if i == 141 {
        Op::FcvtDS
    } else     if i == 142 {
        Op::FeqD
    } else     if i == 143 {
        Op::FltD
    } else     if i == 144 {
        Op::FleD
    } else     if i == 145 {
        Op::FclassD
    } else     if i == 146 {
        Op::FcvtWD
    } else     if i == 147 {
        Op::FcvtWuD
    } else     if i == 148 {
        Op::FcvtDW
    } else     if i == 149 {
        Op::FcvtDWu
    } else     if i == 150 {
        Op::FcvtLD
    } else     if i == 151 {
        Op::FcvtLuD
    } else     if i == 152 {
        Op::FmvXD
    } else     if i == 153 {
        Op::FcvtDL
    } else     if i == 154 {
        Op::FcvtDLu
    } else     if i == 155 {
        Op::FmvDX
    } else     if i == 156 {
        Op::Sret
    } else {
        Op::Mret
    }
}

/// Whether word `w` encodes table entry `i`.
pub open spec fn encodes(i: u8, w: u32) -> bool {
    w & spec_mask(i) == spec_reqd(i)
}

impl Instruction {
    /// Whether `self` is table entry `i`.
    pub open spec fn is_entry(self, i: u8) -> bool {
        &&& self.mask == spec_mask(i)
        &&& self.reqd == spec_reqd(i)
        &&& self.name@ == spec_name(i)
        &&& self.extension@ == spec_extension(i)
        &&& self.op == spec_op(i)
    }
}

/// Entry `index` of the instruction table.
pub fn instruction(index: u8) -> (r: Instruction)
    requires
        index < INSTRUCTION_COUNT,
    ensures
        r.is_entry(index),
{
    match index {
        0 => Instruction {
            mask: 0x7f,
            reqd: 0x37,
            name: "LUI",
            extension: "RV32I",
            op: Op::Lui,
        },
        1 => Instruction {
            mask: 0x7f,
            reqd: 0x17,
            name: "AUIPC",
            extension: "RV32I",
            op: Op::Auipc,
        },
        2 => Instruction {
            mask: 0x7f,
            reqd: 0x6f,
            name: "JAL",
            extension: "RV32I",
            op: Op::Jal,
        },
        3 => Instruction {
            mask: 0x707f,
            reqd: 0x67,
            name: "JALR",
            extension: "RV32I",
            op: Op::Jalr,
        },
        4 => Instruction {
            mask: 0x707f,
            reqd: 0x63,
            name: "BEQ",
            extension: "RV32I",
            op: Op::Beq,
        },
        5 => Instruction {
            mask: 0x707f,
            reqd: 0x1063,
            name: "BNE",
            extension: "RV32I",
            op: Op::Bne,
        },
        6 => Instruction {
            mask: 0x707f,
            reqd: 0x4063,
            name: "BLT",
            extension: "RV32I",
            op: Op::Blt,
        },
        7 => Instruction {
            mask: 0x707f,
            reqd: 0x5063,
            name: "BGE",
            extension: "RV32I",
            op: Op::Bge,
        },
        8 => Instruction {
            mask: 0x707f,
            reqd: 0x6063,
            name: "BLTU",
            extension: "RV32I",
            op: Op::Bltu,
        },
        9 => Instruction {
            mask: 0x707f,
            reqd: 0x7063,
            name: "BGEU",
            extension: "RV32I",
            op: Op::Bgeu,
        },
        10 => Instruction {
            mask: 0x707f,
            reqd: 0x3,
            name: "LB",
            extension: "RV32I",
            op: Op::Lb,
        },
        11 => Instruction {
            mask: 0x707f,
            reqd: 0x1003,
            name: "LH",
            extension: "RV32I",
            op: Op::Lh,
        },
        12 => Instruction {
            mask: 0x707f,
            reqd: 0x2003,
            name: "LW",
            extension: "RV32I",
            op: Op::Lw,
        },
        13 => Instruction {
            mask: 0x707f,
            reqd: 0x4003,
            name: "LBU",
            extension: "RV32I",
            op: Op::Lbu,
        },
        14 => Instruction {
            mask: 0x707f,
            reqd: 0x5003,
            name: "LHU",
            extension: "RV32I",
            op: Op::Lhu,
        },
        15 => Instruction {
            mask: 0x707f,
            reqd: 0x23,
            name: "SB",
            extension: "RV32I",
            op: Op::Sb,
        },
        16 => Instruction {
            mask: 0x707f,
            reqd: 0x1023,
            name: "SH",
            extension: "RV32I",
            op: Op::Sh,
        },
        17 => Instruction {
            mask: 0x707f,
            reqd: 0x2023,
            name: "SW",
            extension: "RV32I",
            op: Op::Sw,
        },
        18 => Instruction {
            mask: 0x707f,
            reqd: 0x13,
            name: "ADDI",
            extension: "RV32I",
            op: Op::Addi,
        },
        19 => Instruction {
            mask: 0x707f,
            reqd: 0x2013,
            name: "SLTI",
            extension: "RV32I",
            op: Op::Slti,
        },
        20 => Instruction {
            mask: 0x707f,
            reqd: 0x3013,
            name: "SLTIU",
            extension: "RV32I",
            op: Op::Sltiu,
        },
        21 => Instruction {
            mask: 0x707f,
            reqd: 0x4013,
            name: "XORI",
            extension: "RV32I",
            op: Op::Xori,
        },
        22 => Instruction {
            mask: 0x707f,
            reqd: 0x6013,
            name: "ORI",
            extension: "RV32I",
            op: Op::Ori,
        },
        23 => Instruction {
            mask: 0x707f,
            reqd: 0x7013,
            name: "ANDI",
            extension: "RV32I",
            op: Op::Andi,
        },
        24 => Instruction {
            mask: 0xfe00707f,
            reqd: 0x33,
            name: "ADD",
            extension: "RV32I",
            op: Op::Add,
        },
        25 => Instruction {
            mask: 0xfe00707f,
            reqd: 0x40000033,
            name: "SUB",
            extension: "RV32I",
            op: Op::Sub,
        },
        26 => Instruction {
            mask: 0xfe00707f,
            reqd: 0x1033,
            name: "SLL",
            extension: "RV32I",
            op: Op::Sll,
        },
        27 => Instruction {
            mask: 0xfe00707f,
            reqd: 0x2033,
            name: "SLT",
            extension: "RV32I",
            op: Op::Slt,
        },
        28 => Instruction {
            mask: 0xfe00707f,
            reqd: 0x3033,
            name: "SLTU",
            extension: "RV32I",
            op: Op::Sltu,
        },
        29 => Instruction {
            mask: 0xfe00707f,
            reqd: 0x4033,
            name: "XOR",
            extension: "RV32I",
            op: Op::Xor,
        },
        30 => Instruction {
            mask: 0xfe00707f,
            reqd: 0x5033,
            name: "SRL",
            extension: "RV32I",
            op: Op::Srl,
        },
        31 => Instruction {
            mask: 0xfe00707f,
            reqd: 0x40005033,
            name: "SRA",
            extension: "RV32I",
            op: Op::Sra,
        },
        32 => Instruction {
            mask: 0xfe00707f,
            reqd: 0x6033,
            name: "OR",
            extension: "RV32I",
            op: Op::Or,
        },
        33 => Instruction {
            mask: 0xfe00707f,
            reqd: 0x7033,
            name: "AND",
            extension: "RV32I",
            op: Op::And,
        },
        34 => Instruction {
            mask: 0x707f,
            reqd: 0xf,
            name: "FENCE",
            extension: "RV32I",
            op: Op::Fence,
        },
        35 => Instruction {
            mask: 0xffffffff,
            reqd: 0x73,
            name: "ECALL",
            extension: "RV32I",
            op: Op::Ecall,
        },
        36 => Instruction {
            mask: 0xffffffff,
            reqd: 0x100073,
            name: "EBREAK",
            extension: "RV32I",
            op: Op::Ebreak,
        },
        37 => Instruction {
            mask: 0x707f,
            reqd: 0x6003,
            name: "LWU",
            extension: "RV64I",
            op: Op::Lwu,
        },
        38 => Instruction {
            mask: 0x707f,
            reqd: 0x3003,
            name: "LD",
            extension: "RV64I",
            op: Op::Ld,
        },
        39 => Instruction {
            mask: 0x707f,
            reqd: 0x3023,
            name: "SD",
            extension: "RV64I",
            op: Op::Sd,
        },
        40 => Instruction {
            mask: 0xfc00707f,
            reqd: 0x1013,
            name: "SLLI",
            extension: "RV64I",
            op: Op::Slli,
        },
        41 => Instruction {
            mask: 0xfc00707f,
            reqd: 0x5013,
            name: "SRLI",
            extension: "RV64I",
            op: Op::Srli,
        },
        42 => Instruction {
            mask: 0xfc00707f,
            reqd: 0x40005013,
            name: "SRAI",
            extension: "RV64I",
            op: Op::Srai,
        },
        43 => Instruction {
            mask: 0x707f,
            reqd: 0x1b,
            name: "ADDIW",
            extension: "RV64I",
            op: Op::Addiw,
        },
        44 => Instruction {
            mask: 0xfe00707f,
            reqd: 0x101b,
            name: "SLLIW",
            extension: "RV64I",
            op: Op::Slliw,
        },
        45 => Instruction {
            mask: 0xfe00707f,
            reqd: 0x501b,
            name: "SRLIW",
            extension: "RV64I",
            op: Op::Srliw,
        },
        46 => Instruction {
            mask: 0xfe00707f,
            reqd: 0x4000501b,
            name: "SRAIW",
            extension: "RV64I",
            op: Op::Sraiw,
        },
        47 => Instruction {
            mask: 0xfe00707f,
            reqd: 0x3b,
            name: "ADDW",
            extension: "RV64I",
            op: Op::Addw,
        },
        48 => Instruction {
            mask: 0xfe00707f,
            reqd: 0x4000003b,
            name: "SUBW",
            extension: "RV64I",
            op: Op::Subw,
        },
        49 => Instruction {
            mask: 0xfe00707f,
            reqd: 0x103b,
            name: "SLLW",
            extension: "RV64I",
            op: Op::Sllw,
        },
        50 => Instruction {
            mask: 0xfe00707f,
            reqd: 0x503b,
            name: "SRLW",
            extension: "RV64I",
            op: Op::Srlw,
        },
        51 => Instruction {
            mask: 0xfe00707f,
            reqd: 0x4000503b,
            name: "SRAW",
            extension: "RV64I",
            op: Op::Sraw,
        },
        52 => Instruction {
            mask: 0x707f,
            reqd: 0x100f,
            name: "FENCE.I",
            extension: "Zifencei",
            op: Op::FenceI,
        },
        53 => Instruction {
            mask: 0x707f,
            reqd: 0x1073,
            name: "CSRRW",
            extension: "Zicsr",
            op: Op::Csrrw,
        },
        54 => Instruction {
            mask: 0x707f,
            reqd: 0x2073,
            name: "CSRRS",
            extension: "Zicsr",
            op: Op::Csrrs,
        },
        55 => Instruction {
            mask: 0x707f,
            reqd: 0x3073,
            name: "CSRRC",
            extension: "Zicsr",
            op: Op::Csrrc,
        },
        56 => Instruction {
            mask: 0x707f,
            reqd: 0x5073,
            name: "CSRRWI",
            extension: "Zicsr",
            op: Op::Csrrwi,
        },
        57 => Instruction {
            mask: 0x707f,
            reqd: 0x6073,
            name: "CSRRSI",
            extension: "Zicsr",
            op: Op::Csrrsi,
        },
        58 => Instruction {
            mask: 0x707f,
            reqd: 0x7073,
            name: "CSRRCI",
            extension: "Zicsr",
            op: Op::Csrrci,
        },
        59 => Instruction {
            mask: 0xfe00707f,
            reqd: 0x2000033,
            name: "MUL",
            extension: "RV32M",
            op: Op::Mul,
        },
        60 => Instruction {
            mask: 0xfe00707f,
            reqd: 0x2001033,
            name: "MULH",
            extension: "RV32M",
            op: Op::Mulh,
        },
        61 => Instruction {
            mask: 0xfe00707f,
            reqd: 0x2002033,
            name: "MULHSU",
            extension: "RV32M",
            op: Op::Mulhsu,
        },
        62 => Instruction {
            mask: 0xfe00707f,
            reqd: 0x2003033,
            name: "MULHU",
            extension: "RV32M",
            op: Op::Mulhu,
        },
        63 => Instruction {
            mask: 0xfe00707f,
            reqd: 0x2004033,
            name: "DIV",
            extension: "RV32M",
            op: Op::Div,
        },
        64 => Instruction {
            mask: 0xfe00707f,
            reqd: 0x2005033,
            name: "DIVU",
            extension: "RV32M",
            op: Op::Divu,
        },
        65 => Instruction {
            mask: 0xfe00707f,
            reqd: 0x2006033,
            name: "REM",
            extension: "RV32M",
            op: Op::Rem,
        },
        66 => Instruction {
            mask: 0xfe00707f,
            reqd: 0x2007033,
            name: "REMU",
            extension: "RV32M",
            op: Op::Remu,
        },
        67 => Instruction {
            mask: 0xfe00707f,
            reqd: 0x200003b,
            name: "MULW",
            extension: "RV64M",
            op: Op::Mulw,
        },
        68 => Instruction {
            mask: 0xfe00707f,
            reqd: 0x200403b,
            name: "DIVW",
            extension: "RV64M",
            op: Op::Divw,
        },
        69 => Instruction {
            mask: 0xfe00707f,
            reqd: 0x200503b,
            name: "DIVUW",
            extension: "RV64M",
            op: Op::Divuw,
        },
        70 => Instruction {
            mask: 0xfe00707f,
            reqd: 0x200603b,
            name: "REMW",
            extension: "RV64M",
            op: Op::Remw,
        },
        71 => Instruction {
            mask: 0xfe00707f,
            reqd: 0x200703b,
            name: "REMUW",
            extension: "RV64M",
            op: Op::Remuw,
        },
        72 => Instruction {
            mask: 0xf9f0707f,
            reqd: 0x1000202f,
            name: "LR.W",
            extension: "RV32A",
            op: Op::LrW,
        },
        73 => Instruction {
            mask: 0xf800707f,
            reqd: 0x1800202f,
            name: "SC.W",
            extension: "RV32A",
            op: Op::ScW,
        },
        74 => Instruction {
            mask: 0xf800707f,
            reqd: 0x800202f,
            name: "AMOSWAP.W",
            extension: "RV32A",
            op: Op::AmoswapW,
        },
        75 => Instruction {
            mask: 0xf800707f,
            reqd: 0x202f,
            name: "AMOADD.W",
            extension: "RV32A",
            op: Op::AmoaddW,
        },
        76 => Instruction {
            mask: 0xf800707f,
            reqd: 0x2000202f,
            name: "AMOXOR.W",
            extension: "RV32A",
            op: Op::AmoxorW,
        },
        77 => Instruction {
            mask: 0xf800707f,
            reqd: 0x6000202f,
            name: "AMOAND.W",
            extension: "RV32A",
            op: Op::AmoandW,
        },
        78 => Instruction {
            mask: 0xf800707f,
            reqd: 0x4000202f,
            name: "AMOOR.W",
            extension: "RV32A",
            op: Op::AmoorW,
        },
        79 => Instruction {
            mask: 0xf800707f,
            reqd: 0x8000202f,
            name: "AMOMIN.W",
            extension: "RV32A",
            op: Op::AmominW,
        },
        80 => Instruction {
            mask: 0xf800707f,
            reqd: 0xa000202f,
            name: "AMOMAX.W",
            extension: "RV32A",
            op: Op::AmomaxW,
        },
        81 => Instruction {
            mask: 0xf800707f,
            reqd: 0xc000202f,
            name: "AMOMINU.W",
            extension: "RV32A",
            op: Op::AmominuW,
        },
        82 => Instruction {
            mask: 0xf800707f,
            reqd: 0xe000202f,
            name: "AMOMAXU.W",
            extension: "RV32A",
            op: Op::AmomaxuW,
        },
        83 => Instruction {
            mask: 0xf9f0707f,
            reqd: 0x1000302f,
            name: "LR.D",
            extension: "RV64A",
            op: Op::LrD,
        },
        84 => Instruction {
            mask: 0xf800707f,
            reqd: 0x1800302f,
            name: "SC.D",
            extension: "RV64A",
            op: Op::ScD,
        },
        85 => Instruction {
            mask: 0xf800707f,
            reqd: 0x800302f,
            name: "AMOSWAP.D",
            extension: "RV64A",
            op: Op::AmoswapD,
        },
        86 => Instruction {
            mask: 0xf800707f,
            reqd: 0x302f,
            name: "AMOADD.D",
            extension: "RV64A",
            op: Op::AmoaddD,
        },
        87 => Instruction {
            mask: 0xf800707f,
            reqd: 0x2000302f,
            name: "AMOXOR.D",
            extension: "RV64A",
            op: Op::AmoxorD,
        },
        88 => Instruction {
            mask: 0xf800707f,
            reqd: 0x6000302f,
            name: "AMOAND.D",
            extension: "RV64A",
            op: Op::AmoandD,
        },
        89 => Instruction {
            mask: 0xf800707f,
            reqd: 0x4000302f,
            name: "AMOOR.D",
            extension: "RV64A",
            op: Op::AmoorD,
        },
        90 => Instruction {
            mask: 0xf800707f,
            reqd: 0x8000302f,
            name: "AMOMIN.D",
            extension: "RV64A",
            op: Op::AmominD,
        },
        91 => Instruction {
            mask: 0xf800707f,
            reqd: 0xa000302f,
            name: "AMOMAX.D",
            extension: "RV64A",
            op: Op::AmomaxD,
        },
        92 => Instruction {
            mask: 0xf800707f,
            reqd: 0xc000302f,
            name: "AMOMINU.D",
            extension: "RV64A",
            op: Op::AmominuD,
        },
        93 => Instruction {
            mask: 0xf800707f,
            reqd: 0xe000302f,
            name: "AMOMAXU.D",
            extension: "RV64A",
            op: Op::AmomaxuD,
        },
        94 => Instruction {
            mask: 0x707f,
            reqd: 0x2007,
            name: "FLW",
            extension: "RV32F",
            op: Op::Flw,
        },
        95 => Instruction {
            mask: 0x707f,
            reqd: 0x2027,
            name: "FSW",
            extension: "RV32F",
            op: Op::Fsw,
        },
        96 => Instruction {
            mask: 0x600007f,
            reqd: 0x43,
            name: "FMADD.S",
            extension: "RV32F",
            op: Op::FmaddS,
        },
        97 => Instruction {
            mask: 0x600007f,
            reqd: 0x47,
            name: "FMSUB.S",
            extension: "RV32F",
            op: Op::FmsubS,
        },
        98 => Instruction {
            mask: 0x600007f,
            reqd: 0x4b,
            name: "FNMSUB.S",
            extension: "RV32F",
            op: Op::FnmsubS,
        },
        99 => Instruction {
            mask: 0x600007f,
            reqd: 0x4f,
            name: "FNMADD.S",
            extension: "RV32F",
            op: Op::FnmaddS,
        },
        100 => Instruction {
            mask: 0xfe00007f,
            reqd: 0x53,
            name: "FADD.S",
            extension: "RV32F",
            op: Op::FaddS,
        },
        101 => Instruction {
            mask: 0xfe00007f,
            reqd: 0x8000053,
            name: "FSUB.S",
            extension: "RV32F",
            op: Op::FsubS,
        },
        102 => Instruction {
            mask: 0xfe00007f,
            reqd: 0x10000053,
            name: "FMUL.S",
            extension: "RV32F",
            op: Op::FmulS,
        },
        103 => Instruction {
            mask: 0xfe00007f,
            reqd: 0x18000053,
            name: "FDIV.S",
            extension: "RV32F",
            op: Op::FdivS,
        },
        104 => Instruction {
            mask: 0xfff0007f,
            reqd: 0x58000053,
            name: "FSQRT.S",
            extension: "RV32F",
            op: Op::FsqrtS,
        },
        105 => Instruction {
            mask: 0xfe00707f,
            reqd: 0x20000053,
            name: "FSGNJ.S",
            extension: "RV32F",
            op: Op::FsgnjS,
        },
        106 => Instruction {
            mask: 0xfe00707f,
            reqd: 0x20001053,
            name: "FSGNJN.S",
            extension: "RV32F",
            op: Op::FsgnjnS,
        },
        107 => Instruction {
            mask: 0xfe00707f,
            reqd: 0x20002053,
            name: "FSGNJX.S",
            extension: "RV32F",
            op: Op::FsgnjxS,
        },
        108 => Instruction {
            mask: 0xfe00707f,
            reqd: 0x28000053,
            name: "FMIN.S",
            extension: "RV32F",
            op: Op::FminS,
        },
        109 => Instruction {
            mask: 0xfe00707f,
            reqd: 0x28001053,
            name: "FMAX.S",
            extension: "RV32F",
            op: Op::FmaxS,
        },
        110 => Instruction {
            mask: 0xfff0007f,
            reqd: 0xc0000053,
            name: "FCVT.W.S",
            extension: "RV32F",
            op: Op::FcvtWS,
        },
        111 => Instruction {
            mask: 0xfff0007f,
            reqd: 0xc0100053,
            name: "FCVT.WU.S",
            extension: "RV32F",
            op: Op::FcvtWuS,
        },
        112 => Instruction {
            mask: 0xfff0707f,
            reqd: 0xe0000053,
            name: "FMV.X.S",
            extension: "RV32F",
            op: Op::FmvXS,
        },
        113 => Instruction {
            mask: 0xfe00707f,
            reqd: 0xa0002053,
            name: "FEQ.S",
            extension: "RV32F",
            op: Op::FeqS,
        },
        114 => Instruction {
            mask: 0xfe00707f,
            reqd: 0xa0001053,
            name: "FLT.S",
            extension: "RV32F",
            op: Op::FltS,
        },
        115 => Instruction {
            mask: 0xfe00707f,
            reqd: 0xa0000053,
            name: "FLE.S",
            extension: "RV32F",
            op: Op::FleS,
        },
        116 => Instruction {
            mask: 0xfff0707f,
            reqd: 0xe0001053,
            name: "FCLASS.S",
            extension: "RV32F",
            op: Op::FclassS,
        },
        117 => Instruction {
            mask: 0xfff0007f,
            reqd: 0xd0000053,
            name: "FCVT.S.W",
            extension: "RV32F",
            op: Op::FcvtSW,
        },
        118 => Instruction {
            mask: 0xfff0007f,
            reqd: 0xd0100053,
            name: "FCVT.S.WU",
            extension: "RV32F",
            op: Op::FcvtSWu,
        },
        119 => Instruction {
            mask: 0xfff0707f,
            reqd: 0xf0000053,
            name: "FMV.W.X",
            extension: "RV32F",
            op: Op::FmvWX,
        },
        120 => Instruction {
            mask: 0xfff0007f,
            reqd: 0xc0200053,
            name: "FCVT.L.S",
            extension: "RV64F",
            op: Op::FcvtLS,
        },
        121 => Instruction {
            mask: 0xfff0007f,
            reqd: 0xc0300053,
            name: "FCVT.LU.S",
            extension: "RV64F",
            op: Op::FcvtLuS,
        },
        122 => Instruction {
            mask: 0xfff0007f,
            reqd: 0xd0200053,
            name: "FCVT.S.L",
            extension: "RV64F",
            op: Op::FcvtSL,
        },
        123 => Instruction {
            mask: 0xfff0007f,
            reqd: 0xd0300053,
            name: "FCVT.S.LU",
            extension: "RV64F",
            op: Op::FcvtSLu,
        },
        124 => Instruction {
            mask: 0x707f,
            reqd: 0x3007,
            name: "FLD",
            extension: "RV32D",
            op: Op::Fld,
        },
        125 => Instruction {
            mask: 0x707f,
            reqd: 0x3027,
            name: "FSD",
            extension: "RV32D",
            op: Op::Fsd,
        },
        126 => Instruction {
            mask: 0x600007f,
            reqd: 0x2000043,
            name: "FMADD.D",
            extension: "RV32D",
            op: Op::FmaddD,
        },
        127 => Instruction {
            mask: 0x600007f,
            reqd: 0x2000047,
            name: "FMSUB.D",
            extension: "RV32D",
            op: Op::FmsubD,
        },
        128 => Instruction {
            mask: 0x600007f,
            reqd: 0x200004b,
            name: "FNMSUB.D",
            extension: "RV32D",
            op: Op::FnmsubD,
        },
        129 => Instruction {
            mask: 0x600007f,
            reqd: 0x200004f,
            name: "FNMADD.D",
            extension: "RV32D",
            op: Op::FnmaddD,
        },
        130 => Instruction {
            mask: 0xfe00007f,
            reqd: 0x2000053,
            name: "FADD.D",
            extension: "RV32D",
            op: Op::FaddD,
        },
        131 => Instruction {
            mask: 0xfe00007f,
            reqd: 0xa000053,
            name: "FSUB.D",
            extension: "RV32D",
            op: Op::FsubD,
        },
        132 => Instruction {
            mask: 0xfe00007f,
            reqd: 0x12000053,
            name: "FMUL.D",
            extension: "RV32D",
            op: Op::FmulD,
        },
        133 => Instruction {
            mask: 0xfe00007f,
            reqd: 0x1a000053,
            name: "FDIV.D",
            extension: "RV32D",
            op: Op::FdivD,
        },
        134 => Instruction {
            mask: 0xfff0007f,
            reqd: 0x5a000053,
            name: "FSQRT.D",
            extension: "RV32D",
            op: Op::FsqrtD,
        },
        135 => Instruction {
            mask: 0xfe00707f,
            reqd: 0x22000053,
            name: "FSGNJ.D",
            extension: "RV32D",
            op: Op::FsgnjD,
        },
        136 => Instruction {
            mask: 0xfe00707f,
            reqd: 0x22001053,
            name: "FSGNJN.D",
            extension: "RV32D",
            op: Op::FsgnjnD,
        },
        137 => Instruction {
            mask: 0xfe00707f,
            reqd: 0x22002053,
            name: "FSGNJX.D",
            extension: "RV32D",
            op: Op::FsgnjxD,
        },
        138 => Instruction {
            mask: 0xfe00707f,
            reqd: 0x2a000053,
            name: "FMIN.D",
            extension: "RV32D",
            op: Op::FminD,
        },
        139 => Instruction {
            mask: 0xfe00707f,
            reqd: 0x2a001053,
            name: "FMAX.D",
            extension: "RV32D",
            op: Op::FmaxD,
        },
        140 => Instruction {
            mask: 0xfff0007f,
            reqd: 0x40100053,
            name: "FCVT.S.D",
            extension: "RV32D",
            op: Op::FcvtSD,
        },
        141 => Instruction {
            mask: 0xfff0007f,
            reqd: 0x42000053,
            name: "FCVT.D.S",
            extension: "RV32D",
            op: Op::FcvtDS,
        },
        142 => Instruction {
            mask: 0xfe00707f,
            reqd: 0xa2002053,
            name: "FEQ.D",
            extension: "RV32D",
            op: Op::FeqD,
        },
        143 => Instruction {
            mask: 0xfe00707f,
            reqd: 0xa2001053,
            name: "FLT.D",
            extension: "RV32D",
            op: Op::FltD,
        },
        144 => Instruction {
            mask: 0xfe00707f,
            reqd: 0xa2000053,
            name: "FLE.D",
            extension: "RV32D",
            op: Op::FleD,
        },
        145 => Instruction {
            mask: 0xfff0707f,
            reqd: 0xe2001053,
            name: "FCLASS.D",
            extension: "RV32D",
            op: Op::FclassD,
        },
        146 => Instruction {
            mask: 0xfff0007f,
            reqd: 0xc2000053,
            name: "FCVT.W.D",
            extension: "RV32D",
            op: Op::FcvtWD,
        },
        147 => Instruction {
            mask: 0xfff0007f,
            reqd: 0xc2100053,
            name: "FCVT.WU.D",
            extension: "RV32D",
            op: Op::FcvtWuD,
        },
        148 => Instruction {
            mask: 0xfff0007f,
            reqd: 0xd2000053,
            name: "FCVT.D.W",
            extension: "RV32D",
            op: Op::FcvtDW,
        },
        149 => Instruction {
            mask: 0xfff0007f,
            reqd: 0xd2100053,
            name: "FCVT.D.WU",
            extension: "RV32D",
            op: Op::FcvtDWu,
        },
        150 => Instruction {
            mask: 0xfff0007f,
            reqd: 0xc2200053,
            name: "FCVT.L.D",
            extension: "RV64D",
            op: Op::FcvtLD,
        },
        151 => Instruction {
            mask: 0xfff0007f,
            reqd: 0xc2300053,
            name: "FCVT.LU.D",
            extension: "RV64D",
            op: Op::FcvtLuD,
        },
        152 => Instruction {
            mask: 0xfff0707f,
            reqd: 0xe2000053,
            name: "FMV.X.D",
            extension: "RV64D",
            op: Op::FmvXD,
        },
        153 => Instruction {
            mask: 0xfff0007f,
            reqd: 0xd2200053,
            name: "FCVT.D.L",
            extension: "RV64D",
            op: Op::FcvtDL,
        },
        154 => Instruction {
            mask: 0xfff0007f,
            reqd: 0xd2300053,
            name: "FCVT.D.LU",
            extension: "RV64D",
            op: Op::FcvtDLu,
        },
        155 => Instruction {
            mask: 0xfff0707f,
            reqd: 0xf2000053,
            name: "FMV.D.X",
            extension: "RV64D",
            op: Op::FmvDX,
        },
        156 => Instruction {
            mask: 0xffffffff,
            reqd: 0x10200073,
            name: "SRET",
            extension: "Privileged",
            op: Op::Sret,
        },
        _ => Instruction {
            mask: 0xffffffff,
            reqd: 0x30200073,
            name: "MRET",
            extension: "Privileged",
            op: Op::Mret,
        },
    }
}

/// The table entry that `word` encodes, if any. By
/// `lemma_at_most_one_match` there is at most one.
pub fn decode(word: u32) -> (r: Option<Instruction>)
    ensures
        r matches Some(ins) ==> exists|i: u8| i < INSTRUCTION_COUNT && encodes(i, word) && ins.is_entry(i),
        r is None ==> forall|i: u8| i < INSTRUCTION_COUNT ==> !encodes(i, word),
{
    let mut i: u8 = 0;
    while i < INSTRUCTION_COUNT
        invariant
            0 <= i <= INSTRUCTION_COUNT,
            forall|j: u8| j < i ==> !encodes(j, word),
        decreases INSTRUCTION_COUNT - i,
    {
        let ins = instruction(i);
        if word & ins.mask == ins.reqd {
            return Some(ins);
        }
        i += 1;
    }
    None
}

/// Every entry's required bits lie inside its mask.
pub proof fn lemma_required_within_mask()
    ensures
        forall|i: u8|
            i < INSTRUCTION_COUNT ==> #[trigger] spec_reqd(i) & spec_mask(i) == spec_reqd(i)
                && spec_reqd(i) | spec_mask(i) == spec_mask(i),
{
    assert(forall|i: u8|
        i < INSTRUCTION_COUNT ==> spec_reqd(i) & spec_mask(i) == spec_reqd(i) && spec_reqd(i)
            | spec_mask(i) == spec_mask(i)) by (bit_vector);
}

proof fn lemma_entries_disjoint()
    ensures
        forall|i: u8, j: u8|
            i < INSTRUCTION_COUNT && j < INSTRUCTION_COUNT && i != j ==> #[trigger] ((spec_reqd(i)
                ^ spec_reqd(j)) & spec_mask(i) & spec_mask(j)) != 0,
{
    assert(forall|i: u8, j: u8|
        i < INSTRUCTION_COUNT && j < INSTRUCTION_COUNT && i != j ==> ((spec_reqd(i) ^ spec_reqd(j))
            & spec_mask(i) & spec_mask(j)) != 0) by (bit_vector);
}

proof fn lemma_differing_bit(w: u32, mi: u32, ri: u32, mj: u32, rj: u32)
    requires
        ((ri ^ rj) & mi & mj) != 0,
    ensures
        !(w & mi == ri && w & mj == rj),
{
    assert(((ri ^ rj) & mi & mj) != 0 ==> !(w & mi == ri && w & mj == rj)) by (bit_vector);
}

/// No word encodes two different table entries.
pub proof fn lemma_at_most_one_match(w: u32)
    ensures
        forall|i: u8, j: u8|
            i < INSTRUCTION_COUNT && j < INSTRUCTION_COUNT && #[trigger] encodes(i, w)
                && #[trigger] encodes(j, w) ==> i == j,
{
    lemma_entries_disjoint();
    assert forall|i: u8, j: u8|
        i < INSTRUCTION_COUNT && j < INSTRUCTION_COUNT && #[trigger] encodes(i, w)
            && #[trigger] encodes(j, w) implies i == j by {
        if i != j {
            assert(((spec_reqd(i) ^ spec_reqd(j)) & spec_mask(i) & spec_mask(j)) != 0);
            lemma_differing_bit(w, spec_mask(i), spec_reqd(i), spec_mask(j), spec_reqd(j));
        }
    }
}

/// No two table entries share a mnemonic.
pub proof fn lemma_mnemonics_unique()
    ensures
        forall|i: u8, j: u8|
            i < INSTRUCTION_COUNT && j < INSTRUCTION_COUNT && i != j ==> #[trigger] spec_name(i)
                != #[trigger] spec_name(j),
{
    reveal_strlit("LUI");
    assert("LUI"@.len() == 3 && "LUI"@[0] == 'L' && "LUI"@[1] == 'U' && "LUI"@[2] == 'I');
    reveal_strlit("AUIPC");
    assert("AUIPC"@.len() == 5 && "AUIPC"@[0] == 'A' && "AUIPC"@[1] == 'U' && "AUIPC"@[2] == 'I' && "AUIPC"@[3] == 'P' && "AUIPC"@[4] == 'C');
    reveal_strlit("JAL");
    assert("JAL"@.len() == 3 && "JAL"@[0] == 'J' && "JAL"@[1] == 'A' && "JAL"@[2] == 'L');
    reveal_strlit("JALR");
    assert("JALR"@.len() == 4 && "JALR"@[0] == 'J' && "JALR"@[1] == 'A' && "JALR"@[2] == 'L' && "JALR"@[3] == 'R');
    reveal_strlit("BEQ");
    assert("BEQ"@.len() == 3 && "BEQ"@[0] == 'B' && "BEQ"@[1] == 'E' && "BEQ"@[2] == 'Q');
    reveal_strlit("BNE");
    assert("BNE"@.len() == 3 && "BNE"@[0] == 'B' && "BNE"@[1] == 'N' && "BNE"@[2] == 'E');
    reveal_strlit("BLT");
    assert("BLT"@.len() == 3 && "BLT"@[0] == 'B' && "BLT"@[1] == 'L' && "BLT"@[2] == 'T');
    reveal_strlit("BGE");
    assert("BGE"@.len() == 3 && "BGE"@[0] == 'B' && "BGE"@[1] == 'G' && "BGE"@[2] == 'E');
    reveal_strlit("BLTU");
    assert("BLTU"@.len() == 4 && "BLTU"@[0] == 'B' && "BLTU"@[1] == 'L' && "BLTU"@[2] == 'T' && "BLTU"@[3] == 'U');
    reveal_strlit("BGEU");
    assert("BGEU"@.len() == 4 && "BGEU"@[0] == 'B' && "BGEU"@[1] == 'G' && "BGEU"@[2] == 'E' && "BGEU"@[3] == 'U');
    reveal_strlit("LB");
    assert("LB"@.len() == 2 && "LB"@[0] == 'L' && "LB"@[1] == 'B');
    reveal_strlit("LH");
    assert("LH"@.len() == 2 && "LH"@[0] == 'L' && "LH"@[1] == 'H');
    reveal_strlit("LW");
    assert("LW"@.len() == 2 && "LW"@[0] == 'L' && "LW"@[1] == 'W');
    reveal_strlit("LBU");
    assert("LBU"@.len() == 3 && "LBU"@[0] == 'L' && "LBU"@[1] == 'B' && "LBU"@[2] == 'U');
    reveal_strlit("LHU");
    assert("LHU"@.len() == 3 && "LHU"@[0] == 'L' && "LHU"@[1] == 'H' && "LHU"@[2] == 'U');
    reveal_strlit("SB");
    assert("SB"@.len() == 2 && "SB"@[0] == 'S' && "SB"@[1] == 'B');
    reveal_strlit("SH");
    assert("SH"@.len() == 2 && "SH"@[0] == 'S' && "SH"@[1] == 'H');
    reveal_strlit("SW");
    assert("SW"@.len() == 2 && "SW"@[0] == 'S' && "SW"@[1] == 'W');
    reveal_strlit("ADDI");
    assert("ADDI"@.len() == 4 && "ADDI"@[0] == 'A' && "ADDI"@[1] == 'D' && "ADDI"@[2] == 'D' && "ADDI"@[3] == 'I');
    reveal_strlit("SLTI");
    assert("SLTI"@.len() == 4 && "SLTI"@[0] == 'S' && "SLTI"@[1] == 'L' && "SLTI"@[2] == 'T' && "SLTI"@[3] == 'I');
    reveal_strlit("SLTIU");
    assert("SLTIU"@.len() == 5 && "SLTIU"@[0] == 'S' && "SLTIU"@[1] == 'L' && "SLTIU"@[2] == 'T' && "SLTIU"@[3] == 'I' && "SLTIU"@[4] == 'U');
    reveal_strlit("XORI");
    assert("XORI"@.len() == 4 && "XORI"@[0] == 'X' && "XORI"@[1] == 'O' && "XORI"@[2] == 'R' && "XORI"@[3] == 'I');
    reveal_strlit("ORI");
    assert("ORI"@.len() == 3 && "ORI"@[0] == 'O' && "ORI"@[1] == 'R' && "ORI"@[2] == 'I');
    reveal_strlit("ANDI");
    assert("ANDI"@.len() == 4 && "ANDI"@[0] == 'A' && "ANDI"@[1] == 'N' && "ANDI"@[2] == 'D' && "ANDI"@[3] == 'I');
    reveal_strlit("ADD");
    assert("ADD"@.len() == 3 && "ADD"@[0] == 'A' && "ADD"@[1] == 'D' && "ADD"@[2] == 'D');
    reveal_strlit("SUB");
    assert("SUB"@.len() == 3 && "SUB"@[0] == 'S' && "SUB"@[1] == 'U' && "SUB"@[2] == 'B');
    reveal_strlit("SLL");
    assert("SLL"@.len() == 3 && "SLL"@[0] == 'S' && "SLL"@[1] == 'L' && "SLL"@[2] == 'L');
    reveal_strlit("SLT");
    assert("SLT"@.len() == 3 && "SLT"@[0] == 'S' && "SLT"@[1] == 'L' && "SLT"@[2] == 'T');
    reveal_strlit("SLTU");
    assert("SLTU"@.len() == 4 && "SLTU"@[0] == 'S' && "SLTU"@[1] == 'L' && "SLTU"@[2] == 'T' && "SLTU"@[3] == 'U');
    reveal_strlit("XOR");
    assert("XOR"@.len() == 3 && "XOR"@[0] == 'X' && "XOR"@[1] == 'O' && "XOR"@[2] == 'R');
    reveal_strlit("SRL");
    assert("SRL"@.len() == 3 && "SRL"@[0] == 'S' && "SRL"@[1] == 'R' && "SRL"@[2] == 'L');
    reveal_strlit("SRA");
    assert("SRA"@.len() == 3 && "SRA"@[0] == 'S' && "SRA"@[1] == 'R' && "SRA"@[2] == 'A');
    reveal_strlit("OR");
    assert("OR"@.len() == 2 && "OR"@[0] == 'O' && "OR"@[1] == 'R');
    reveal_strlit("AND");
    assert("AND"@.len() == 3 && "AND"@[0] == 'A' && "AND"@[1] == 'N' && "AND"@[2] == 'D');
    reveal_strlit("FENCE");
    assert("FENCE"@.len() == 5 && "FENCE"@[0] == 'F' && "FENCE"@[1] == 'E' && "FENCE"@[2] == 'N' && "FENCE"@[3] == 'C' && "FENCE"@[4] == 'E');
    reveal_strlit("ECALL");
    assert("ECALL"@.len() == 5 && "ECALL"@[0] == 'E' && "ECALL"@[1] == 'C' && "ECALL"@[2] == 'A' && "ECALL"@[3] == 'L' && "ECALL"@[4] == 'L');
    reveal_strlit("EBREAK");
    assert("EBREAK"@.len() == 6 && "EBREAK"@[0] == 'E' && "EBREAK"@[1] == 'B' && "EBREAK"@[2] == 'R' && "EBREAK"@[3] == 'E' && "EBREAK"@[4] == 'A' && "EBREAK"@[5] == 'K');
    reveal_strlit("LWU");
    assert("LWU"@.len() == 3 && "LWU"@[0] == 'L' && "LWU"@[1] == 'W' && "LWU"@[2] == 'U');
    reveal_strlit("LD");
    assert("LD"@.len() == 2 && "LD"@[0] == 'L' && "LD"@[1] == 'D');
    reveal_strlit("SD");
    assert("SD"@.len() == 2 && "SD"@[0] == 'S' && "SD"@[1] == 'D');
    reveal_strlit("SLLI");
    assert("SLLI"@.len() == 4 && "SLLI"@[0] == 'S' && "SLLI"@[1] == 'L' && "SLLI"@[2] == 'L' && "SLLI"@[3] == 'I');
    reveal_strlit("SRLI");
    assert("SRLI"@.len() == 4 && "SRLI"@[0] == 'S' && "SRLI"@[1] == 'R' && "SRLI"@[2] == 'L' && "SRLI"@[3] == 'I');
    reveal_strlit("SRAI");
    assert("SRAI"@.len() == 4 && "SRAI"@[0] == 'S' && "SRAI"@[1] == 'R' && "SRAI"@[2] == 'A' && "SRAI"@[3] == 'I');
    reveal_strlit("ADDIW");
    assert("ADDIW"@.len() == 5 && "ADDIW"@[0] == 'A' && "ADDIW"@[1] == 'D' && "ADDIW"@[2] == 'D' && "ADDIW"@[3] == 'I' && "ADDIW"@[4] == 'W');
    reveal_strlit("SLLIW");
    assert("SLLIW"@.len() == 5 && "SLLIW"@[0] == 'S' && "SLLIW"@[1] == 'L' && "SLLIW"@[2] == 'L' && "SLLIW"@[3] == 'I' && "SLLIW"@[4] == 'W');
    reveal_strlit("SRLIW");
    assert("SRLIW"@.len() == 5 && "SRLIW"@[0] == 'S' && "SRLIW"@[1] == 'R' && "SRLIW"@[2] == 'L' && "SRLIW"@[3] == 'I' && "SRLIW"@[4] == 'W');
    reveal_strlit("SRAIW");
    assert("SRAIW"@.len() == 5 && "SRAIW"@[0] == 'S' && "SRAIW"@[1] == 'R' && "SRAIW"@[2] == 'A' && "SRAIW"@[3] == 'I' && "SRAIW"@[4] == 'W');
    reveal_strlit("ADDW");
    assert("ADDW"@.len() == 4 && "ADDW"@[0] == 'A' && "ADDW"@[1] == 'D' && "ADDW"@[2] == 'D' && "ADDW"@[3] == 'W');
    reveal_strlit("SUBW");
    assert("SUBW"@.len() == 4 && "SUBW"@[0] == 'S' && "SUBW"@[1] == 'U' && "SUBW"@[2] == 'B' && "SUBW"@[3] == 'W');
    reveal_strlit("SLLW");
    assert("SLLW"@.len() == 4 && "SLLW"@[0] == 'S' && "SLLW"@[1] == 'L' && "SLLW"@[2] == 'L' && "SLLW"@[3] == 'W');
    reveal_strlit("SRLW");
    assert("SRLW"@.len() == 4 && "SRLW"@[0] == 'S' && "SRLW"@[1] == 'R' && "SRLW"@[2] == 'L' && "SRLW"@[3] == 'W');
    reveal_strlit("SRAW");
    assert("SRAW"@.len() == 4 && "SRAW"@[0] == 'S' && "SRAW"@[1] == 'R' && "SRAW"@[2] == 'A' && "SRAW"@[3] == 'W');
    reveal_strlit("FENCE.I");
    assert("FENCE.I"@.len() == 7 && "FENCE.I"@[0] == 'F' && "FENCE.I"@[1] == 'E' && "FENCE.I"@[2] == 'N' && "FENCE.I"@[3] == 'C' && "FENCE.I"@[4] == 'E' && "FENCE.I"@[5] == '.' && "FENCE.I"@[6] == 'I');
    reveal_strlit("CSRRW");
    assert("CSRRW"@.len() == 5 && "CSRRW"@[0] == 'C' && "CSRRW"@[1] == 'S' && "CSRRW"@[2] == 'R' && "CSRRW"@[3] == 'R' && "CSRRW"@[4] == 'W');
    reveal_strlit("CSRRS");
    assert("CSRRS"@.len() == 5 && "CSRRS"@[0] == 'C' && "CSRRS"@[1] == 'S' && "CSRRS"@[2] == 'R' && "CSRRS"@[3] == 'R' && "CSRRS"@[4] == 'S');
    reveal_strlit("CSRRC");
    assert("CSRRC"@.len() == 5 && "CSRRC"@[0] == 'C' && "CSRRC"@[1] == 'S' && "CSRRC"@[2] == 'R' && "CSRRC"@[3] == 'R' && "CSRRC"@[4] == 'C');
    reveal_strlit("CSRRWI");
    assert("CSRRWI"@.len() == 6 && "CSRRWI"@[0] == 'C' && "CSRRWI"@[1] == 'S' && "CSRRWI"@[2] == 'R' && "CSRRWI"@[3] == 'R' && "CSRRWI"@[4] == 'W' && "CSRRWI"@[5] == 'I');
    reveal_strlit("CSRRSI");
    assert("CSRRSI"@.len() == 6 && "CSRRSI"@[0] == 'C' && "CSRRSI"@[1] == 'S' && "CSRRSI"@[2] == 'R' && "CSRRSI"@[3] == 'R' && "CSRRSI"@[4] == 'S' && "CSRRSI"@[5] == 'I');
    reveal_strlit("CSRRCI");
    assert("CSRRCI"@.len() == 6 && "CSRRCI"@[0] == 'C' && "CSRRCI"@[1] == 'S' && "CSRRCI"@[2] == 'R' && "CSRRCI"@[3] == 'R' && "CSRRCI"@[4] == 'C' && "CSRRCI"@[5] == 'I');
    reveal_strlit("MUL");
    assert("MUL"@.len() == 3 && "MUL"@[0] == 'M' && "MUL"@[1] == 'U' && "MUL"@[2] == 'L');
    reveal_strlit("MULH");
    assert("MULH"@.len() == 4 && "MULH"@[0] == 'M' && "MULH"@[1] == 'U' && "MULH"@[2] == 'L' && "MULH"@[3] == 'H');
    reveal_strlit("MULHSU");
    assert("MULHSU"@.len() == 6 && "MULHSU"@[0] == 'M' && "MULHSU"@[1] == 'U' && "MULHSU"@[2] == 'L' && "MULHSU"@[3] == 'H' && "MULHSU"@[4] == 'S' && "MULHSU"@[5] == 'U');
    reveal_strlit("MULHU");
    assert("MULHU"@.len() == 5 && "MULHU"@[0] == 'M' && "MULHU"@[1] == 'U' && "MULHU"@[2] == 'L' && "MULHU"@[3] == 'H' && "MULHU"@[4] == 'U');
    reveal_strlit("DIV");
    assert("DIV"@.len() == 3 && "DIV"@[0] == 'D' && "DIV"@[1] == 'I' && "DIV"@[2] == 'V');
    reveal_strlit("DIVU");
    assert("DIVU"@.len() == 4 && "DIVU"@[0] == 'D' && "DIVU"@[1] == 'I' && "DIVU"@[2] == 'V' && "DIVU"@[3] == 'U');
    reveal_strlit("REM");
    assert("REM"@.len() == 3 && "REM"@[0] == 'R' && "REM"@[1] == 'E' && "REM"@[2] == 'M');
    reveal_strlit("REMU");
    assert("REMU"@.len() == 4 && "REMU"@[0] == 'R' && "REMU"@[1] == 'E' && "REMU"@[2] == 'M' && "REMU"@[3] == 'U');
    reveal_strlit("MULW");
    assert("MULW"@.len() == 4 && "MULW"@[0] == 'M' && "MULW"@[1] == 'U' && "MULW"@[2] == 'L' && "MULW"@[3] == 'W');
    reveal_strlit("DIVW");
    assert("DIVW"@.len() == 4 && "DIVW"@[0] == 'D' && "DIVW"@[1] == 'I' && "DIVW"@[2] == 'V' && "DIVW"@[3] == 'W');
    reveal_strlit("DIVUW");
    assert("DIVUW"@.len() == 5 && "DIVUW"@[0] == 'D' && "DIVUW"@[1] == 'I' && "DIVUW"@[2] == 'V' && "DIVUW"@[3] == 'U' && "DIVUW"@[4] == 'W');
    reveal_strlit("REMW");
    assert("REMW"@.len() == 4 && "REMW"@[0] == 'R' && "REMW"@[1] == 'E' && "REMW"@[2] == 'M' && "REMW"@[3] == 'W');
    reveal_strlit("REMUW");
    assert("REMUW"@.len() == 5 && "REMUW"@[0] == 'R' && "REMUW"@[1] == 'E' && "REMUW"@[2] == 'M' && "REMUW"@[3] == 'U' && "REMUW"@[4] == 'W');
    reveal_strlit("LR.W");
    assert("LR.W"@.len() == 4 && "LR.W"@[0] == 'L' && "LR.W"@[1] == 'R' && "LR.W"@[2] == '.' && "LR.W"@[3] == 'W');
    reveal_strlit("SC.W");
    assert("SC.W"@.len() == 4 && "SC.W"@[0] == 'S' && "SC.W"@[1] == 'C' && "SC.W"@[2] == '.' && "SC.W"@[3] == 'W');
    reveal_strlit("AMOSWAP.W");
    assert("AMOSWAP.W"@.len() == 9 && "AMOSWAP.W"@[0] == 'A' && "AMOSWAP.W"@[1] == 'M' && "AMOSWAP.W"@[2] == 'O' && "AMOSWAP.W"@[3] == 'S' && "AMOSWAP.W"@[4] == 'W' && "AMOSWAP.W"@[5] == 'A' && "AMOSWAP.W"@[6] == 'P' && "AMOSWAP.W"@[7] == '.' && "AMOSWAP.W"@[8] == 'W');
    reveal_strlit("AMOADD.W");
    assert("AMOADD.W"@.len() == 8 && "AMOADD.W"@[0] == 'A' && "AMOADD.W"@[1] == 'M' && "AMOADD.W"@[2] == 'O' && "AMOADD.W"@[3] == 'A' && "AMOADD.W"@[4] == 'D' && "AMOADD.W"@[5] == 'D' && "AMOADD.W"@[6] == '.' && "AMOADD.W"@[7] == 'W');
    reveal_strlit("AMOXOR.W");
    assert("AMOXOR.W"@.len() == 8 && "AMOXOR.W"@[0] == 'A' && "AMOXOR.W"@[1] == 'M' && "AMOXOR.W"@[2] == 'O' && "AMOXOR.W"@[3] == 'X' && "AMOXOR.W"@[4] == 'O' && "AMOXOR.W"@[5] == 'R' && "AMOXOR.W"@[6] == '.' && "AMOXOR.W"@[7] == 'W');
    reveal_strlit("AMOAND.W");
    assert("AMOAND.W"@.len() == 8 && "AMOAND.W"@[0] == 'A' && "AMOAND.W"@[1] == 'M' && "AMOAND.W"@[2] == 'O' && "AMOAND.W"@[3] == 'A' && "AMOAND.W"@[4] == 'N' && "AMOAND.W"@[5] == 'D' && "AMOAND.W"@[6] == '.' && "AMOAND.W"@[7] == 'W');
    reveal_strlit("AMOOR.W");
    assert("AMOOR.W"@.len() == 7 && "AMOOR.W"@[0] == 'A' && "AMOOR.W"@[1] == 'M' && "AMOOR.W"@[2] == 'O' && "AMOOR.W"@[3] == 'O' && "AMOOR.W"@[4] == 'R' && "AMOOR.W"@[5] == '.' && "AMOOR.W"@[6] == 'W');
    reveal_strlit("AMOMIN.W");
    assert("AMOMIN.W"@.len() == 8 && "AMOMIN.W"@[0] == 'A' && "AMOMIN.W"@[1] == 'M' && "AMOMIN.W"@[2] == 'O' && "AMOMIN.W"@[3] == 'M' && "AMOMIN.W"@[4] == 'I' && "AMOMIN.W"@[5] == 'N' && "AMOMIN.W"@[6] == '.' && "AMOMIN.W"@[7] == 'W');
    reveal_strlit("AMOMAX.W");
    assert("AMOMAX.W"@.len() == 8 && "AMOMAX.W"@[0] == 'A' && "AMOMAX.W"@[1] == 'M' && "AMOMAX.W"@[2] == 'O' && "AMOMAX.W"@[3] == 'M' && "AMOMAX.W"@[4] == 'A' && "AMOMAX.W"@[5] == 'X' && "AMOMAX.W"@[6] == '.' && "AMOMAX.W"@[7] == 'W');
    reveal_strlit("AMOMINU.W");
    assert("AMOMINU.W"@.len() == 9 && "AMOMINU.W"@[0] == 'A' && "AMOMINU.W"@[1] == 'M' && "AMOMINU.W"@[2] == 'O' && "AMOMINU.W"@[3] == 'M' && "AMOMINU.W"@[4] == 'I' && "AMOMINU.W"@[5] == 'N' && "AMOMINU.W"@[6] == 'U' && "AMOMINU.W"@[7] == '.' && "AMOMINU.W"@[8] == 'W');
    reveal_strlit("AMOMAXU.W");
    assert("AMOMAXU.W"@.len() == 9 && "AMOMAXU.W"@[0] == 'A' && "AMOMAXU.W"@[1] == 'M' && "AMOMAXU.W"@[2] == 'O' && "AMOMAXU.W"@[3] == 'M' && "AMOMAXU.W"@[4] == 'A' && "AMOMAXU.W"@[5] == 'X' && "AMOMAXU.W"@[6] == 'U' && "AMOMAXU.W"@[7] == '.' && "AMOMAXU.W"@[8] == 'W');
    reveal_strlit("LR.D");
    assert("LR.D"@.len() == 4 && "LR.D"@[0] == 'L' && "LR.D"@[1] == 'R' && "LR.D"@[2] == '.' && "LR.D"@[3] == 'D');
    reveal_strlit("SC.D");
    assert("SC.D"@.len() == 4 && "SC.D"@[0] == 'S' && "SC.D"@[1] == 'C' && "SC.D"@[2] == '.' && "SC.D"@[3] == 'D');
    reveal_strlit("AMOSWAP.D");
    assert("AMOSWAP.D"@.len() == 9 && "AMOSWAP.D"@[0] == 'A' && "AMOSWAP.D"@[1] == 'M' && "AMOSWAP.D"@[2] == 'O' && "AMOSWAP.D"@[3] == 'S' && "AMOSWAP.D"@[4] == 'W' && "AMOSWAP.D"@[5] == 'A' && "AMOSWAP.D"@[6] == 'P' && "AMOSWAP.D"@[7] == '.' && "AMOSWAP.D"@[8] == 'D');
    reveal_strlit("AMOADD.D");
    assert("AMOADD.D"@.len() == 8 && "AMOADD.D"@[0] == 'A' && "AMOADD.D"@[1] == 'M' && "AMOADD.D"@[2] == 'O' && "AMOADD.D"@[3] == 'A' && "AMOADD.D"@[4] == 'D' && "AMOADD.D"@[5] == 'D' && "AMOADD.D"@[6] == '.' && "AMOADD.D"@[7] == 'D');
    reveal_strlit("AMOXOR.D");
    assert("AMOXOR.D"@.len() == 8 && "AMOXOR.D"@[0] == 'A' && "AMOXOR.D"@[1] == 'M' && "AMOXOR.D"@[2] == 'O' && "AMOXOR.D"@[3] == 'X' && "AMOXOR.D"@[4] == 'O' && "AMOXOR.D"@[5] == 'R' && "AMOXOR.D"@[6] == '.' && "AMOXOR.D"@[7] == 'D');
    reveal_strlit("AMOAND.D");
    assert("AMOAND.D"@.len() == 8 && "AMOAND.D"@[0] == 'A' && "AMOAND.D"@[1] == 'M' && "AMOAND.D"@[2] == 'O' && "AMOAND.D"@[3] == 'A' && "AMOAND.D"@[4] == 'N' && "AMOAND.D"@[5] == 'D' && "AMOAND.D"@[6] == '.' && "AMOAND.D"@[7] == 'D');
    reveal_strlit("AMOOR.D");
    assert("AMOOR.D"@.len() == 7 && "AMOOR.D"@[0] == 'A' && "AMOOR.D"@[1] == 'M' && "AMOOR.D"@[2] == 'O' && "AMOOR.D"@[3] == 'O' && "AMOOR.D"@[4] == 'R' && "AMOOR.D"@[5] == '.' && "AMOOR.D"@[6] == 'D');
    reveal_strlit("AMOMIN.D");
    assert("AMOMIN.D"@.len() == 8 && "AMOMIN.D"@[0] == 'A' && "AMOMIN.D"@[1] == 'M' && "AMOMIN.D"@[2] == 'O' && "AMOMIN.D"@[3] == 'M' && "AMOMIN.D"@[4] == 'I' && "AMOMIN.D"@[5] == 'N' && "AMOMIN.D"@[6] == '.' && "AMOMIN.D"@[7] == 'D');
    reveal_strlit("AMOMAX.D");
    assert("AMOMAX.D"@.len() == 8 && "AMOMAX.D"@[0] == 'A' && "AMOMAX.D"@[1] == 'M' && "AMOMAX.D"@[2] == 'O' && "AMOMAX.D"@[3] == 'M' && "AMOMAX.D"@[4] == 'A' && "AMOMAX.D"@[5] == 'X' && "AMOMAX.D"@[6] == '.' && "AMOMAX.D"@[7] == 'D');
    reveal_strlit("AMOMINU.D");
    assert("AMOMINU.D"@.len() == 9 && "AMOMINU.D"@[0] == 'A' && "AMOMINU.D"@[1] == 'M' && "AMOMINU.D"@[2] == 'O' && "AMOMINU.D"@[3] == 'M' && "AMOMINU.D"@[4] == 'I' && "AMOMINU.D"@[5] == 'N' && "AMOMINU.D"@[6] == 'U' && "AMOMINU.D"@[7] == '.' && "AMOMINU.D"@[8] == 'D');
    reveal_strlit("AMOMAXU.D");
    assert("AMOMAXU.D"@.len() == 9 && "AMOMAXU.D"@[0] == 'A' && "AMOMAXU.D"@[1] == 'M' && "AMOMAXU.D"@[2] == 'O' && "AMOMAXU.D"@[3] == 'M' && "AMOMAXU.D"@[4] == 'A' && "AMOMAXU.D"@[5] == 'X' && "AMOMAXU.D"@[6] == 'U' && "AMOMAXU.D"@[7] == '.' && "AMOMAXU.D"@[8] == 'D');
    reveal_strlit("FLW");
    assert("FLW"@.len() == 3 && "FLW"@[0] == 'F' && "FLW"@[1] == 'L' && "FLW"@[2] == 'W');
    reveal_strlit("FSW");
    assert("FSW"@.len() == 3 && "FSW"@[0] == 'F' && "FSW"@[1] == 'S' && "FSW"@[2] == 'W');
    reveal_strlit("FMADD.S");
    assert("FMADD.S"@.len() == 7 && "FMADD.S"@[0] == 'F' && "FMADD.S"@[1] == 'M' && "FMADD.S"@[2] == 'A' && "FMADD.S"@[3] == 'D' && "FMADD.S"@[4] == 'D' && "FMADD.S"@[5] == '.' && "FMADD.S"@[6] == 'S');
    reveal_strlit("FMSUB.S");
    assert("FMSUB.S"@.len() == 7 && "FMSUB.S"@[0] == 'F' && "FMSUB.S"@[1] == 'M' && "FMSUB.S"@[2] == 'S' && "FMSUB.S"@[3] == 'U' && "FMSUB.S"@[4] == 'B' && "FMSUB.S"@[5] == '.' && "FMSUB.S"@[6] == 'S');
    reveal_strlit("FNMSUB.S");
    assert("FNMSUB.S"@.len() == 8 && "FNMSUB.S"@[0] == 'F' && "FNMSUB.S"@[1] == 'N' && "FNMSUB.S"@[2] == 'M' && "FNMSUB.S"@[3] == 'S' && "FNMSUB.S"@[4] == 'U' && "FNMSUB.S"@[5] == 'B' && "FNMSUB.S"@[6] == '.' && "FNMSUB.S"@[7] == 'S');
    reveal_strlit("FNMADD.S");
    assert("FNMADD.S"@.len() == 8 && "FNMADD.S"@[0] == 'F' && "FNMADD.S"@[1] == 'N' && "FNMADD.S"@[2] == 'M' && "FNMADD.S"@[3] == 'A' && "FNMADD.S"@[4] == 'D' && "FNMADD.S"@[5] == 'D' && "FNMADD.S"@[6] == '.' && "FNMADD.S"@[7] == 'S');
    reveal_strlit("FADD.S");
    assert("FADD.S"@.len() == 6 && "FADD.S"@[0] == 'F' && "FADD.S"@[1] == 'A' && "FADD.S"@[2] == 'D' && "FADD.S"@[3] == 'D' && "FADD.S"@[4] == '.' && "FADD.S"@[5] == 'S');
    reveal_strlit("FSUB.S");
    assert("FSUB.S"@.len() == 6 && "FSUB.S"@[0] == 'F' && "FSUB.S"@[1] == 'S' && "FSUB.S"@[2] == 'U' && "FSUB.S"@[3] == 'B' && "FSUB.S"@[4] == '.' && "FSUB.S"@[5] == 'S');
    reveal_strlit("FMUL.S");
    assert("FMUL.S"@.len() == 6 && "FMUL.S"@[0] == 'F' && "FMUL.S"@[1] == 'M' && "FMUL.S"@[2] == 'U' && "FMUL.S"@[3] == 'L' && "FMUL.S"@[4] == '.' && "FMUL.S"@[5] == 'S');
    reveal_strlit("FDIV.S");
    assert("FDIV.S"@.len() == 6 && "FDIV.S"@[0] == 'F' && "FDIV.S"@[1] == 'D' && "FDIV.S"@[2] == 'I' && "FDIV.S"@[3] == 'V' && "FDIV.S"@[4] == '.' && "FDIV.S"@[5] == 'S');
    reveal_strlit("FSQRT.S");
    assert("FSQRT.S"@.len() == 7 && "FSQRT.S"@[0] == 'F' && "FSQRT.S"@[1] == 'S' && "FSQRT.S"@[2] == 'Q' && "FSQRT.S"@[3] == 'R' && "FSQRT.S"@[4] == 'T' && "FSQRT.S"@[5] == '.' && "FSQRT.S"@[6] == 'S');
    reveal_strlit("FSGNJ.S");
    assert("FSGNJ.S"@.len() == 7 && "FSGNJ.S"@[0] == 'F' && "FSGNJ.S"@[1] == 'S' && "FSGNJ.S"@[2] == 'G' && "FSGNJ.S"@[3] == 'N' && "FSGNJ.S"@[4] == 'J' && "FSGNJ.S"@[5] == '.' && "FSGNJ.S"@[6] == 'S');
    reveal_strlit("FSGNJN.S");
    assert("FSGNJN.S"@.len() == 8 && "FSGNJN.S"@[0] == 'F' && "FSGNJN.S"@[1] == 'S' && "FSGNJN.S"@[2] == 'G' && "FSGNJN.S"@[3] == 'N' && "FSGNJN.S"@[4] == 'J' && "FSGNJN.S"@[5] == 'N' && "FSGNJN.S"@[6] == '.' && "FSGNJN.S"@[7] == 'S');
    reveal_strlit("FSGNJX.S");
    assert("FSGNJX.S"@.len() == 8 && "FSGNJX.S"@[0] == 'F' && "FSGNJX.S"@[1] == 'S' && "FSGNJX.S"@[2] == 'G' && "FSGNJX.S"@[3] == 'N' && "FSGNJX.S"@[4] == 'J' && "FSGNJX.S"@[5] == 'X' && "FSGNJX.S"@[6] == '.' && "FSGNJX.S"@[7] == 'S');
    reveal_strlit("FMIN.S");
    assert("FMIN.S"@.len() == 6 && "FMIN.S"@[0] == 'F' && "FMIN.S"@[1] == 'M' && "FMIN.S"@[2] == 'I' && "FMIN.S"@[3] == 'N' && "FMIN.S"@[4] == '.' && "FMIN.S"@[5] == 'S');
    reveal_strlit("FMAX.S");
    assert("FMAX.S"@.len() == 6 && "FMAX.S"@[0] == 'F' && "FMAX.S"@[1] == 'M' && "FMAX.S"@[2] == 'A' && "FMAX.S"@[3] == 'X' && "FMAX.S"@[4] == '.' && "FMAX.S"@[5] == 'S');
    reveal_strlit("FCVT.W.S");
    assert("FCVT.W.S"@.len() == 8 && "FCVT.W.S"@[0] == 'F' && "FCVT.W.S"@[1] == 'C' && "FCVT.W.S"@[2] == 'V' && "FCVT.W.S"@[3] == 'T' && "FCVT.W.S"@[4] == '.' && "FCVT.W.S"@[5] == 'W' && "FCVT.W.S"@[6] == '.' && "FCVT.W.S"@[7] == 'S');
    reveal_strlit("FCVT.WU.S");
    assert("FCVT.WU.S"@.len() == 9 && "FCVT.WU.S"@[0] == 'F' && "FCVT.WU.S"@[1] == 'C' && "FCVT.WU.S"@[2] == 'V' && "FCVT.WU.S"@[3] == 'T' && "FCVT.WU.S"@[4] == '.' && "FCVT.WU.S"@[5] == 'W' && "FCVT.WU.S"@[6] == 'U' && "FCVT.WU.S"@[7] == '.' && "FCVT.WU.S"@[8] == 'S');
    reveal_strlit("FMV.X.S");
    assert("FMV.X.S"@.len() == 7 && "FMV.X.S"@[0] == 'F' && "FMV.X.S"@[1] == 'M' && "FMV.X.S"@[2] == 'V' && "FMV.X.S"@[3] == '.' && "FMV.X.S"@[4] == 'X' && "FMV.X.S"@[5] == '.' && "FMV.X.S"@[6] == 'S');
    reveal_strlit("FEQ.S");
    assert("FEQ.S"@.len() == 5 && "FEQ.S"@[0] == 'F' && "FEQ.S"@[1] == 'E' && "FEQ.S"@[2] == 'Q' && "FEQ.S"@[3] == '.' && "FEQ.S"@[4] == 'S');
    reveal_strlit("FLT.S");
    assert("FLT.S"@.len() == 5 && "FLT.S"@[0] == 'F' && "FLT.S"@[1] == 'L' && "FLT.S"@[2] == 'T' && "FLT.S"@[3] == '.' && "FLT.S"@[4] == 'S');
    reveal_strlit("FLE.S");
    assert("FLE.S"@.len() == 5 && "FLE.S"@[0] == 'F' && "FLE.S"@[1] == 'L' && "FLE.S"@[2] == 'E' && "FLE.S"@[3] == '.' && "FLE.S"@[4] == 'S');
    reveal_strlit("FCLASS.S");
    assert("FCLASS.S"@.len() == 8 && "FCLASS.S"@[0] == 'F' && "FCLASS.S"@[1] == 'C' && "FCLASS.S"@[2] == 'L' && "FCLASS.S"@[3] == 'A' && "FCLASS.S"@[4] == 'S' && "FCLASS.S"@[5] == 'S' && "FCLASS.S"@[6] == '.' && "FCLASS.S"@[7] == 'S');
    reveal_strlit("FCVT.S.W");
    assert("FCVT.S.W"@.len() == 8 && "FCVT.S.W"@[0] == 'F' && "FCVT.S.W"@[1] == 'C' && "FCVT.S.W"@[2] == 'V' && "FCVT.S.W"@[3] == 'T' && "FCVT.S.W"@[4] == '.' && "FCVT.S.W"@[5] == 'S' && "FCVT.S.W"@[6] == '.' && "FCVT.S.W"@[7] == 'W');
    reveal_strlit("FCVT.S.WU");
    assert("FCVT.S.WU"@.len() == 9 && "FCVT.S.WU"@[0] == 'F' && "FCVT.S.WU"@[1] == 'C' && "FCVT.S.WU"@[2] == 'V' && "FCVT.S.WU"@[3] == 'T' && "FCVT.S.WU"@[4] == '.' && "FCVT.S.WU"@[5] == 'S' && "FCVT.S.WU"@[6] == '.' && "FCVT.S.WU"@[7] == 'W' && "FCVT.S.WU"@[8] == 'U');
    reveal_strlit("FMV.W.X");
    assert("FMV.W.X"@.len() == 7 && "FMV.W.X"@[0] == 'F' && "FMV.W.X"@[1] == 'M' && "FMV.W.X"@[2] == 'V' && "FMV.W.X"@[3] == '.' && "FMV.W.X"@[4] == 'W' && "FMV.W.X"@[5] == '.' && "FMV.W.X"@[6] == 'X');
    reveal_strlit("FCVT.L.S");
    assert("FCVT.L.S"@.len() == 8 && "FCVT.L.S"@[0] == 'F' && "FCVT.L.S"@[1] == 'C' && "FCVT.L.S"@[2] == 'V' && "FCVT.L.S"@[3] == 'T' && "FCVT.L.S"@[4] == '.' && "FCVT.L.S"@[5] == 'L' && "FCVT.L.S"@[6] == '.' && "FCVT.L.S"@[7] == 'S');
    reveal_strlit("FCVT.LU.S");
    assert("FCVT.LU.S"@.len() == 9 && "FCVT.LU.S"@[0] == 'F' && "FCVT.LU.S"@[1] == 'C' && "FCVT.LU.S"@[2] == 'V' && "FCVT.LU.S"@[3] == 'T' && "FCVT.LU.S"@[4] == '.' && "FCVT.LU.S"@[5] == 'L' && "FCVT.LU.S"@[6] == 'U' && "FCVT.LU.S"@[7] == '.' && "FCVT.LU.S"@[8] == 'S');
    reveal_strlit("FCVT.S.L");
    assert("FCVT.S.L"@.len() == 8 && "FCVT.S.L"@[0] == 'F' && "FCVT.S.L"@[1] == 'C' && "FCVT.S.L"@[2] == 'V' && "FCVT.S.L"@[3] == 'T' && "FCVT.S.L"@[4] == '.' && "FCVT.S.L"@[5] == 'S' && "FCVT.S.L"@[6] == '.' && "FCVT.S.L"@[7] == 'L');
    reveal_strlit("FCVT.S.LU");
    assert("FCVT.S.LU"@.len() == 9 && "FCVT.S.LU"@[0] == 'F' && "FCVT.S.LU"@[1] == 'C' && "FCVT.S.LU"@[2] == 'V' && "FCVT.S.LU"@[3] == 'T' && "FCVT.S.LU"@[4] == '.' && "FCVT.S.LU"@[5] == 'S' && "FCVT.S.LU"@[6] == '.' && "FCVT.S.LU"@[7] == 'L' && "FCVT.S.LU"@[8] == 'U');
    reveal_strlit("FLD");
    assert("FLD"@.len() == 3 && "FLD"@[0] == 'F' && "FLD"@[1] == 'L' && "FLD"@[2] == 'D');
    reveal_strlit("FSD");
    assert("FSD"@.len() == 3 && "FSD"@[0] == 'F' && "FSD"@[1] == 'S' && "FSD"@[2] == 'D');
    reveal_strlit("FMADD.D");
    assert("FMADD.D"@.len() == 7 && "FMADD.D"@[0] == 'F' && "FMADD.D"@[1] == 'M' && "FMADD.D"@[2] == 'A' && "FMADD.D"@[3] == 'D' && "FMADD.D"@[4] == 'D' && "FMADD.D"@[5] == '.' && "FMADD.D"@[6] == 'D');
    reveal_strlit("FMSUB.D");
    assert("FMSUB.D"@.len() == 7 && "FMSUB.D"@[0] == 'F' && "FMSUB.D"@[1] == 'M' && "FMSUB.D"@[2] == 'S' && "FMSUB.D"@[3] == 'U' && "FMSUB.D"@[4] == 'B' && "FMSUB.D"@[5] == '.' && "FMSUB.D"@[6] == 'D');
    reveal_strlit("FNMSUB.D");
    assert("FNMSUB.D"@.len() == 8 && "FNMSUB.D"@[0] == 'F' && "FNMSUB.D"@[1] == 'N' && "FNMSUB.D"@[2] == 'M' && "FNMSUB.D"@[3] == 'S' && "FNMSUB.D"@[4] == 'U' && "FNMSUB.D"@[5] == 'B' && "FNMSUB.D"@[6] == '.' && "FNMSUB.D"@[7] == 'D');
    reveal_strlit("FNMADD.D");
    assert("FNMADD.D"@.len() == 8 && "FNMADD.D"@[0] == 'F' && "FNMADD.D"@[1] == 'N' && "FNMADD.D"@[2] == 'M' && "FNMADD.D"@[3] == 'A' && "FNMADD.D"@[4] == 'D' && "FNMADD.D"@[5] == 'D' && "FNMADD.D"@[6] == '.' && "FNMADD.D"@[7] == 'D');
    reveal_strlit("FADD.D");
    assert("FADD.D"@.len() == 6 && "FADD.D"@[0] == 'F' && "FADD.D"@[1] == 'A' && "FADD.D"@[2] == 'D' && "FADD.D"@[3] == 'D' && "FADD.D"@[4] == '.' && "FADD.D"@[5] == 'D');
    reveal_strlit("FSUB.D");
    assert("FSUB.D"@.len() == 6 && "FSUB.D"@[0] == 'F' && "FSUB.D"@[1] == 'S' && "FSUB.D"@[2] == 'U' && "FSUB.D"@[3] == 'B' && "FSUB.D"@[4] == '.' && "FSUB.D"@[5] == 'D');
    reveal_strlit("FMUL.D");
    assert("FMUL.D"@.len() == 6 && "FMUL.D"@[0] == 'F' && "FMUL.D"@[1] == 'M' && "FMUL.D"@[2] == 'U' && "FMUL.D"@[3] == 'L' && "FMUL.D"@[4] == '.' && "FMUL.D"@[5] == 'D');
    reveal_strlit("FDIV.D");
    assert("FDIV.D"@.len() == 6 && "FDIV.D"@[0] == 'F' && "FDIV.D"@[1] == 'D' && "FDIV.D"@[2] == 'I' && "FDIV.D"@[3] == 'V' && "FDIV.D"@[4] == '.' && "FDIV.D"@[5] == 'D');
    reveal_strlit("FSQRT.D");
    assert("FSQRT.D"@.len() == 7 && "FSQRT.D"@[0] == 'F' && "FSQRT.D"@[1] == 'S' && "FSQRT.D"@[2] == 'Q' && "FSQRT.D"@[3] == 'R' && "FSQRT.D"@[4] == 'T' && "FSQRT.D"@[5] == '.' && "FSQRT.D"@[6] == 'D');
    reveal_strlit("FSGNJ.D");
    assert("FSGNJ.D"@.len() == 7 && "FSGNJ.D"@[0] == 'F' && "FSGNJ.D"@[1] == 'S' && "FSGNJ.D"@[2] == 'G' && "FSGNJ.D"@[3] == 'N' && "FSGNJ.D"@[4] == 'J' && "FSGNJ.D"@[5] == '.' && "FSGNJ.D"@[6] == 'D');
    reveal_strlit("FSGNJN.D");
    assert("FSGNJN.D"@.len() == 8 && "FSGNJN.D"@[0] == 'F' && "FSGNJN.D"@[1] == 'S' && "FSGNJN.D"@[2] == 'G' && "FSGNJN.D"@[3] == 'N' && "FSGNJN.D"@[4] == 'J' && "FSGNJN.D"@[5] == 'N' && "FSGNJN.D"@[6] == '.' && "FSGNJN.D"@[7] == 'D');
    reveal_strlit("FSGNJX.D");
    assert("FSGNJX.D"@.len() == 8 && "FSGNJX.D"@[0] == 'F' && "FSGNJX.D"@[1] == 'S' && "FSGNJX.D"@[2] == 'G' && "FSGNJX.D"@[3] == 'N' && "FSGNJX.D"@[4] == 'J' && "FSGNJX.D"@[5] == 'X' && "FSGNJX.D"@[6] == '.' && "FSGNJX.D"@[7] == 'D');
    reveal_strlit("FMIN.D");
    assert("FMIN.D"@.len() == 6 && "FMIN.D"@[0] == 'F' && "FMIN.D"@[1] == 'M' && "FMIN.D"@[2] == 'I' && "FMIN.D"@[3] == 'N' && "FMIN.D"@[4] == '.' && "FMIN.D"@[5] == 'D');
    reveal_strlit("FMAX.D");
    assert("FMAX.D"@.len() == 6 && "FMAX.D"@[0] == 'F' && "FMAX.D"@[1] == 'M' && "FMAX.D"@[2] == 'A' && "FMAX.D"@[3] == 'X' && "FMAX.D"@[4] == '.' && "FMAX.D"@[5] == 'D');
    reveal_strlit("FCVT.S.D");
    assert("FCVT.S.D"@.len() == 8 && "FCVT.S.D"@[0] == 'F' && "FCVT.S.D"@[1] == 'C' && "FCVT.S.D"@[2] == 'V' && "FCVT.S.D"@[3] == 'T' && "FCVT.S.D"@[4] == '.' && "FCVT.S.D"@[5] == 'S' && "FCVT.S.D"@[6] == '.' && "FCVT.S.D"@[7] == 'D');
    reveal_strlit("FCVT.D.S");
    assert("FCVT.D.S"@.len() == 8 && "FCVT.D.S"@[0] == 'F' && "FCVT.D.S"@[1] == 'C' && "FCVT.D.S"@[2] == 'V' && "FCVT.D.S"@[3] == 'T' && "FCVT.D.S"@[4] == '.' && "FCVT.D.S"@[5] == 'D' && "FCVT.D.S"@[6] == '.' && "FCVT.D.S"@[7] == 'S');
    reveal_strlit("FEQ.D");
    assert("FEQ.D"@.len() == 5 && "FEQ.D"@[0] == 'F' && "FEQ.D"@[1] == 'E' && "FEQ.D"@[2] == 'Q' && "FEQ.D"@[3] == '.' && "FEQ.D"@[4] == 'D');
    reveal_strlit("FLT.D");
    assert("FLT.D"@.len() == 5 && "FLT.D"@[0] == 'F' && "FLT.D"@[1] == 'L' && "FLT.D"@[2] == 'T' && "FLT.D"@[3] == '.' && "FLT.D"@[4] == 'D');
    reveal_strlit("FLE.D");
    assert("FLE.D"@.len() == 5 && "FLE.D"@[0] == 'F' && "FLE.D"@[1] == 'L' && "FLE.D"@[2] == 'E' && "FLE.D"@[3] == '.' && "FLE.D"@[4] == 'D');
    reveal_strlit("FCLASS.D");
    assert("FCLASS.D"@.len() == 8 && "FCLASS.D"@[0] == 'F' && "FCLASS.D"@[1] == 'C' && "FCLASS.D"@[2] == 'L' && "FCLASS.D"@[3] == 'A' && "FCLASS.D"@[4] == 'S' && "FCLASS.D"@[5] == 'S' && "FCLASS.D"@[6] == '.' && "FCLASS.D"@[7] == 'D');
    reveal_strlit("FCVT.W.D");
    assert("FCVT.W.D"@.len() == 8 && "FCVT.W.D"@[0] == 'F' && "FCVT.W.D"@[1] == 'C' && "FCVT.W.D"@[2] == 'V' && "FCVT.W.D"@[3] == 'T' && "FCVT.W.D"@[4] == '.' && "FCVT.W.D"@[5] == 'W' && "FCVT.W.D"@[6] == '.' && "FCVT.W.D"@[7] == 'D');
    reveal_strlit("FCVT.WU.D");
    assert("FCVT.WU.D"@.len() == 9 && "FCVT.WU.D"@[0] == 'F' && "FCVT.WU.D"@[1] == 'C' && "FCVT.WU.D"@[2] == 'V' && "FCVT.WU.D"@[3] == 'T' && "FCVT.WU.D"@[4] == '.' && "FCVT.WU.D"@[5] == 'W' && "FCVT.WU.D"@[6] == 'U' && "FCVT.WU.D"@[7] == '.' && "FCVT.WU.D"@[8] == 'D');
    reveal_strlit("FCVT.D.W");
    assert("FCVT.D.W"@.len() == 8 && "FCVT.D.W"@[0] == 'F' && "FCVT.D.W"@[1] == 'C' && "FCVT.D.W"@[2] == 'V' && "FCVT.D.W"@[3] == 'T' && "FCVT.D.W"@[4] == '.' && "FCVT.D.W"@[5] == 'D' && "FCVT.D.W"@[6] == '.' && "FCVT.D.W"@[7] == 'W');
    reveal_strlit("FCVT.D.WU");
    assert("FCVT.D.WU"@.len() == 9 && "FCVT.D.WU"@[0] == 'F' && "FCVT.D.WU"@[1] == 'C' && "FCVT.D.WU"@[2] == 'V' && "FCVT.D.WU"@[3] == 'T' && "FCVT.D.WU"@[4] == '.' && "FCVT.D.WU"@[5] == 'D' && "FCVT.D.WU"@[6] == '.' && "FCVT.D.WU"@[7] == 'W' && "FCVT.D.WU"@[8] == 'U');
    reveal_strlit("FCVT.L.D");
    assert("FCVT.L.D"@.len() == 8 && "FCVT.L.D"@[0] == 'F' && "FCVT.L.D"@[1] == 'C' && "FCVT.L.D"@[2] == 'V' && "FCVT.L.D"@[3] == 'T' && "FCVT.L.D"@[4] == '.' && "FCVT.L.D"@[5] == 'L' && "FCVT.L.D"@[6] == '.' && "FCVT.L.D"@[7] == 'D');
    reveal_strlit("FCVT.LU.D");
    assert("FCVT.LU.D"@.len() == 9 && "FCVT.LU.D"@[0] == 'F' && "FCVT.LU.D"@[1] == 'C' && "FCVT.LU.D"@[2] == 'V' && "FCVT.LU.D"@[3] == 'T' && "FCVT.LU.D"@[4] == '.' && "FCVT.LU.D"@[5] == 'L' && "FCVT.LU.D"@[6] == 'U' && "FCVT.LU.D"@[7] == '.' && "FCVT.LU.D"@[8] == 'D');
    reveal_strlit("FMV.X.D");
    assert("FMV.X.D"@.len() == 7 && "FMV.X.D"@[0] == 'F' && "FMV.X.D"@[1] == 'M' && "FMV.X.D"@[2] == 'V' && "FMV.X.D"@[3] == '.' && "FMV.X.D"@[4] == 'X' && "FMV.X.D"@[5] == '.' && "FMV.X.D"@[6] == 'D');
    reveal_strlit("FCVT.D.L");
    assert("FCVT.D.L"@.len() == 8 && "FCVT.D.L"@[0] == 'F' && "FCVT.D.L"@[1] == 'C' && "FCVT.D.L"@[2] == 'V' && "FCVT.D.L"@[3] == 'T' && "FCVT.D.L"@[4] == '.' && "FCVT.D.L"@[5] == 'D' && "FCVT.D.L"@[6] == '.' && "FCVT.D.L"@[7] == 'L');
    reveal_strlit("FCVT.D.LU");
    assert("FCVT.D.LU"@.len() == 9 && "FCVT.D.LU"@[0] == 'F' && "FCVT.D.LU"@[1] == 'C' && "FCVT.D.LU"@[2] == 'V' && "FCVT.D.LU"@[3] == 'T' && "FCVT.D.LU"@[4] == '.' && "FCVT.D.LU"@[5] == 'D' && "FCVT.D.LU"@[6] == '.' && "FCVT.D.LU"@[7] == 'L' && "FCVT.D.LU"@[8] == 'U');
    reveal_strlit("FMV.D.X");
    assert("FMV.D.X"@.len() == 7 && "FMV.D.X"@[0] == 'F' && "FMV.D.X"@[1] == 'M' && "FMV.D.X"@[2] == 'V' && "FMV.D.X"@[3] == '.' && "FMV.D.X"@[4] == 'D' && "FMV.D.X"@[5] == '.' && "FMV.D.X"@[6] == 'X');
    reveal_strlit("SRET");
    assert("SRET"@.len() == 4 && "SRET"@[0] == 'S' && "SRET"@[1] == 'R' && "SRET"@[2] == 'E' && "SRET"@[3] == 'T');
    reveal_strlit("MRET");
    assert("MRET"@.len() == 4 && "MRET"@[0] == 'M' && "MRET"@[1] == 'R' && "MRET"@[2] == 'E' && "MRET"@[3] == 'T');
}

} // verus!
