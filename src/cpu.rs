//! The processor: architectural state and the fetch-decode-execute cycle.
use vstd::prelude::*;
use crate::adr::{in_range, splice, Addressable};
use crate::alu::{alu_imm, alu_imm_exec, alu_reg, alu_reg_exec, is_op_imm, is_op_reg, op_imm_exec, op_reg_exec};
use crate::endian::{le16, le32, le64, le16_bytes, le32_bytes, le64_bytes};
use crate::ins::format::{FormatB, FormatI, FormatJ, FormatR, FormatS, FormatU};
use crate::ins::{decode, encodes, lemma_at_most_one_match, spec_op, Op, INSTRUCTION_COUNT};
use crate::mem::{Memory, MemoryManagementUnit};
use crate::reg::{FloatReg, FloatRegisters, IntReg, IntRegisters};
use crate::tra::{Trap, TrapKind};

verus! {

/// How far the program counter advances past a 32-bit instruction.
pub const PC_STEP: u64 = 4;

/// The life cycle of a processor.
#[derive(Debug, Clone, Copy, PartialEq, Eq, Hash, Structural)]
pub enum Status {
    Initializing,
    Running,
    Halted,
}

impl Default for Status {
    fn default() -> (r: Status)
        ensures
            r == Status::Initializing,
    {
        Status::Initializing
    }
}

/// The architectural state as values: program counter, integer registers
/// (slot 0 is `x0`), floating-point register bits, memory and the address
/// reserved by the last load-reserved.
pub struct State {
    pub pc: u64,
    pub x: Seq<i64>,
    pub f: Seq<u64>,
    pub mem: Seq<u8>,
    pub reservation: Option<u64>,
}

/// What one cycle did.
#[derive(Debug, Clone, Copy, PartialEq, Eq, Hash, Structural)]
pub enum Tick {
    /// The instruction with this operation ran to completion.
    Executed(Op),
    /// The instruction raised this trap.
    Trapped(Trap),
    /// A floating-point computation that the host's floating-point unit
    /// performs on the register files: the program counter has advanced
    /// past the instruction word, nothing else has changed.
    Float(Op, u32),
    /// The processor is halted and did nothing.
    Halted,
}

/// The value of register `r`: `x0` reads as zero.
pub open spec fn xv(s: State, r: u8) -> i64 {
    if r == 0 {
        0
    } else {
        s.x[r as int]
    }
}

/// `s` with register `r` set to `v`; a write to `x0` is discarded.
pub open spec fn with_x(s: State, r: u8, v: i64) -> State {
    if r == 0 {
        s
    } else {
        State { x: s.x.update(r as int, v), ..s }
    }
}

pub open spec fn with_f(s: State, r: u8, v: u64) -> State {
    State { f: s.f.update(r as int, v), ..s }
}

pub open spec fn with_pc(s: State, pc: u64) -> State {
    State { pc, ..s }
}

pub open spec fn with_mem(s: State, mem: Seq<u8>) -> State {
    State { mem, ..s }
}

pub open spec fn with_reservation(s: State, reservation: Option<u64>) -> State {
    State { reservation, ..s }
}

/// The trap raised by the instruction at `pc`.
pub open spec fn trap(kind: TrapKind, pc: u64, value: u64) -> Result<(), Trap> {
    Err(Trap { kind, pc, value })
}

/// A single-precision value boxed in a 64-bit register: upper bits all ones.
pub open spec fn nanbox(v: u32) -> u64 {
    0xffff_ffff_0000_0000u64 | (v as u64)
}

/// The single-precision value a register holds: its low half when it is
/// properly boxed, else the canonical NaN.
pub open spec fn unbox(v: u64) -> u32 {
    if v >> 32u64 == 0xffff_ffff {
        v as u32
    } else {
        0x7fc0_0000
    }
}

/// The class mask of an IEEE-754 double given by its bits: bit 0 negative
/// infinity, 1 negative normal, 2 negative subnormal, 3 negative zero, 4
/// positive zero, 5 positive subnormal, 6 positive normal, 7 positive
/// infinity, 8 signaling NaN, 9 quiet NaN.
pub open spec fn class64(b: u64) -> u64 {
    let neg = b >> 63u64 == 1;
    let exp = (b >> 52u64) % 0x800;
    let frac = b % 0x10_0000_0000_0000;
    if exp == 0x7ff {
        if frac == 0 {
            if neg {
                1
            } else {
                0x80
            }
        } else if frac >= 0x8_0000_0000_0000 {
            0x200
        } else {
            0x100
        }
    } else if exp == 0 {
        if frac == 0 {
            if neg {
                0x8
            } else {
                0x10
            }
        } else if neg {
            0x4
        } else {
            0x20
        }
    } else if neg {
        0x2
    } else {
        0x40
    }
}

/// The class mask of an IEEE-754 single given by its bits (bits as for
/// `class64`).
pub open spec fn class32(b: u32) -> u64 {
    let neg = b >> 31u32 == 1;
    let exp = (b >> 23u32) % 0x100;
    let frac = b % 0x80_0000;
    if exp == 0xff {
        if frac == 0 {
            if neg {
                1
            } else {
                0x80
            }
        } else if frac >= 0x40_0000 {
            0x200
        } else {
            0x100
        }
    } else if exp == 0 {
        if frac == 0 {
            if neg {
                0x8
            } else {
                0x10
            }
        } else if neg {
            0x4
        } else {
            0x20
        }
    } else if neg {
        0x2
    } else {
        0x40
    }
}

/// The sign bit of a double.
pub const SIGN64: u64 = 0x8000_0000_0000_0000;

/// The sign bit of a single.
pub const SIGN32: u32 = 0x8000_0000;

pub open spec fn is_branch(op: Op) -> bool {
    match op {
        Op::Beq | Op::Bne | Op::Blt | Op::Bge | Op::Bltu | Op::Bgeu => true,
        _ => false,
    }
}

/// Whether a branch with operation `op` is taken for operands `a` and `b`.
pub open spec fn branch_taken(op: Op, a: i64, b: i64) -> bool {
    match op {
        Op::Beq => a == b,
        Op::Bne => a != b,
        Op::Blt => a < b,
        Op::Bge => a >= b,
        Op::Bltu => (a as u64) < (b as u64),
        Op::Bgeu => (a as u64) >= (b as u64),
        _ => false,
    }
}

pub open spec fn is_load(op: Op) -> bool {
    match op {
        Op::Lb | Op::Lh | Op::Lw | Op::Ld | Op::Lbu | Op::Lhu | Op::Lwu => true,
        _ => false,
    }
}

pub open spec fn load_width(op: Op) -> nat {
    match op {
        Op::Lb | Op::Lbu => 1,
        Op::Lh | Op::Lhu => 2,
        Op::Lw | Op::Lwu => 4,
        _ => 8,
    }
}

/// The value a load writes to `rd`, given the little-endian bytes read:
/// sign-extended for the signed forms, zero-extended for the others.
pub open spec fn load_value(op: Op, b: Seq<u8>) -> i64 {
    match op {
        Op::Lb => (b[0] as i8) as i64,
        Op::Lbu => b[0] as i64,
        Op::Lh => (le16(b) as i16) as i64,
        Op::Lhu => le16(b) as i64,
        Op::Lw => (le32(b) as i32) as i64,
        Op::Lwu => le32(b) as i64,
        _ => le64(b) as i64,
    }
}

pub open spec fn is_store(op: Op) -> bool {
    match op {
        Op::Sb | Op::Sh | Op::Sw | Op::Sd => true,
        _ => false,
    }
}

/// The little-endian bytes a store writes for the value `v` of `rs2`.
pub open spec fn store_bytes(op: Op, v: i64) -> Seq<u8> {
    match op {
        Op::Sb => seq![v as u8],
        Op::Sh => le16_bytes(v as u16),
        Op::Sw => le32_bytes(v as u32),
        _ => le64_bytes(v as u64),
    }
}

pub open spec fn is_amo(op: Op) -> bool {
    match op {
        Op::AmoswapW | Op::AmoaddW | Op::AmoxorW | Op::AmoandW | Op::AmoorW | Op::AmominW
        | Op::AmomaxW | Op::AmominuW | Op::AmomaxuW | Op::AmoswapD | Op::AmoaddD | Op::AmoxorD
        | Op::AmoandD | Op::AmoorD | Op::AmominD | Op::AmomaxD | Op::AmominuD | Op::AmomaxuD => true,
        _ => false,
    }
}

/// Whether an atomic operation works on 32-bit words (else on 64-bit).
pub open spec fn is_word_atomic(op: Op) -> bool {
    match op {
        Op::LrW | Op::ScW | Op::AmoswapW | Op::AmoaddW | Op::AmoxorW | Op::AmoandW | Op::AmoorW
        | Op::AmominW | Op::AmomaxW | Op::AmominuW | Op::AmomaxuW => true,
        _ => false,
    }
}

/// The value an atomic memory operation stores, given the value `t` loaded
/// (sign-extended for word forms) and the value `b` of `rs2`.
pub open spec fn amo_value(op: Op, t: i64, b: i64) -> i64 {
    match op {
        Op::AmoswapW => (b as i32) as i64,
        Op::AmoaddW => ((t as i32).wrapping_add(b as i32)) as i64,
        Op::AmoxorW => ((t ^ b) as i32) as i64,
        Op::AmoandW => ((t & b) as i32) as i64,
        Op::AmoorW => ((t | b) as i32) as i64,
        Op::AmominW => if (t as i32) < (b as i32) {
            t
        } else {
            (b as i32) as i64
        },
        Op::AmomaxW => if (t as i32) > (b as i32) {
            t
        } else {
            (b as i32) as i64
        },
        Op::AmominuW => if (t as u32) < (b as u32) {
            t
        } else {
            (b as i32) as i64
        },
        Op::AmomaxuW => if (t as u32) > (b as u32) {
            t
        } else {
            (b as i32) as i64
        },
        Op::AmoswapD => b,
        Op::AmoaddD => t.wrapping_add(b),
        Op::AmoxorD => t ^ b,
        Op::AmoandD => t & b,
        Op::AmoorD => t | b,
        Op::AmominD => if t < b {
            t
        } else {
            b
        },
        Op::AmomaxD => if t > b {
            t
        } else {
            b
        },
        Op::AmominuD => if (t as u64) < (b as u64) {
            t
        } else {
            b
        },
        _ => if (t as u64) > (b as u64) {
            t
        } else {
            b
        },
    }
}

/// The value an atomic operation of width 4 or 8 reads from `b`.
pub open spec fn atomic_load(word: bool, b: Seq<u8>) -> i64 {
    if word {
        (le32(b) as i32) as i64
    } else {
        le64(b) as i64
    }
}

/// The bytes an atomic operation of width 4 or 8 stores for `v`.
pub open spec fn atomic_bytes(word: bool, v: i64) -> Seq<u8> {
    if word {
        le32_bytes(v as u32)
    } else {
        le64_bytes(v as u64)
    }
}

/// Whether `op` is computed by the host's floating-point unit rather than
/// by `execute`: arithmetic, square root, fused multiply-add, minimum and
/// maximum, comparison and conversion.
pub open spec fn is_float_unit(op: Op) -> bool {
    match op {
        Op::FmaddS | Op::FmsubS | Op::FnmsubS | Op::FnmaddS | Op::FaddS | Op::FsubS | Op::FmulS
        | Op::FdivS | Op::FsqrtS | Op::FminS | Op::FmaxS | Op::FcvtWS | Op::FcvtWuS | Op::FeqS
        | Op::FltS | Op::FleS | Op::FcvtSW | Op::FcvtSWu | Op::FcvtLS | Op::FcvtLuS | Op::FcvtSL
        | Op::FcvtSLu | Op::FmaddD | Op::FmsubD | Op::FnmsubD | Op::FnmaddD | Op::FaddD | Op::FsubD
        | Op::FmulD | Op::FdivD | Op::FsqrtD | Op::FminD | Op::FmaxD | Op::FcvtSD | Op::FcvtDS
        | Op::FeqD | Op::FltD | Op::FleD | Op::FcvtWD | Op::FcvtWuD | Op::FcvtDW | Op::FcvtDWu
        | Op::FcvtLD | Op::FcvtLuD | Op::FcvtDL | Op::FcvtDLu => true,
        _ => false,
    }
}

/// The effect of the instruction `w` with operation `op` at address `ipc`,
/// on a state whose program counter has already advanced past it: the new
/// state, and the trap if it raised one (the state is then as before the
/// instruction, but for the program counter).
pub open spec fn step(s: State, op: Op, w: u32, ipc: u64) -> (State, Result<(), Trap>) {
    if is_op_imm(op) {
        let f = FormatI::spec_parse(w);
        (with_x(s, f.rd, alu_imm(op, xv(s, f.rs1), f.imm)), Ok(()))
    } else if is_op_reg(op) {
        let f = FormatR::spec_parse(w);
        (with_x(s, f.rd, alu_reg(op, xv(s, f.rs1), xv(s, f.rs2))), Ok(()))
    } else if is_branch(op) {
        let f = FormatB::spec_parse(w);
        if branch_taken(op, xv(s, f.rs1), xv(s, f.rs2)) {
            (with_pc(s, ipc.wrapping_add(f.imm)), Ok(()))
        } else {
            (s, Ok(()))
        }
    } else if is_load(op) {
        let f = FormatI::spec_parse(w);
        let addr = (xv(s, f.rs1) as u64).wrapping_add(f.imm as u64);
        let n = load_width(op);
        if in_range(addr, n, s.mem.len()) {
            (with_x(s, f.rd, load_value(op, s.mem.subrange(addr as int, addr + n))), Ok(()))
        } else {
            (s, trap(TrapKind::LoadAccessFault, ipc, addr))
        }
    } else if is_store(op) {
        let f = FormatS::spec_parse(w);
        let addr = (xv(s, f.rs1) as u64).wrapping_add(f.imm as u64);
        let b = store_bytes(op, xv(s, f.rs2));
        if in_range(addr, b.len(), s.mem.len()) {
            (with_mem(s, splice(s.mem, addr as int, b)), Ok(()))
        } else {
            (s, trap(TrapKind::StoreAccessFault, ipc, addr))
        }
    } else if is_amo(op) {
        let f = FormatR::spec_parse(w);
        let addr = xv(s, f.rs1) as u64;
        let word = is_word_atomic(op);
        let n: nat = if word { 4 } else { 8 };
        if in_range(addr, n, s.mem.len()) {
            let t = atomic_load(word, s.mem.subrange(addr as int, addr + n));
            let v = amo_value(op, t, xv(s, f.rs2));
            (with_x(with_mem(s, splice(s.mem, addr as int, atomic_bytes(word, v))), f.rd, t), Ok(()))
        } else {
            (s, trap(TrapKind::StoreAccessFault, ipc, addr))
        }
    } else {
        match op {
            Op::Lui => {
                let f = FormatU::spec_parse(w);
                (with_x(s, f.rd, f.imm as i64), Ok(()))
            },
            Op::Auipc => {
                let f = FormatU::spec_parse(w);
                (with_x(s, f.rd, ipc.wrapping_add(f.imm) as i64), Ok(()))
            },
            Op::Jal => {
                let f = FormatJ::spec_parse(w);
                (with_pc(with_x(s, f.rd, ipc.wrapping_add(4) as i64), ipc.wrapping_add(f.imm)), Ok(()))
            },
            Op::Jalr => {
                let f = FormatI::spec_parse(w);
                let target = (xv(s, f.rs1) as u64).wrapping_add(f.imm as u64) & 0xffff_ffff_ffff_fffe;
                (with_pc(with_x(s, f.rd, ipc.wrapping_add(4) as i64), target), Ok(()))
            },
            Op::Ecall => (s, trap(TrapKind::EnvironmentCallFromM, ipc, 0)),
            Op::Ebreak => (s, trap(TrapKind::Breakpoint, ipc, ipc)),
            Op::LrW | Op::LrD => {
                let f = FormatR::spec_parse(w);
                let addr = xv(s, f.rs1) as u64;
                let word = is_word_atomic(op);
                let n: nat = if word { 4 } else { 8 };
                if in_range(addr, n, s.mem.len()) {
                    let t = atomic_load(word, s.mem.subrange(addr as int, addr + n));
                    (with_reservation(with_x(s, f.rd, t), Some(addr)), Ok(()))
                } else {
                    (s, trap(TrapKind::LoadAccessFault, ipc, addr))
                }
            },
            Op::ScW | Op::ScD => {
                let f = FormatR::spec_parse(w);
                let addr = xv(s, f.rs1) as u64;
                let word = is_word_atomic(op);
                let n: nat = if word { 4 } else { 8 };
                if s.reservation == Some(addr) {
                    if in_range(addr, n, s.mem.len()) {
                        let b = atomic_bytes(word, xv(s, f.rs2));
                        (with_reservation(with_x(with_mem(s, splice(s.mem, addr as int, b)), f.rd, 0), None), Ok(()))
                    } else {
                        (s, trap(TrapKind::StoreAccessFault, ipc, addr))
                    }
                } else {
                    (with_reservation(with_x(s, f.rd, 1), None), Ok(()))
                }
            },
            Op::Flw | Op::Fld => {
                let f = FormatI::spec_parse(w);
                let addr = (xv(s, f.rs1) as u64).wrapping_add(f.imm as u64);
                let n: nat = if op == Op::Flw { 4 } else { 8 };
                if in_range(addr, n, s.mem.len()) {
                    let b = s.mem.subrange(addr as int, addr + n);
                    (with_f(s, f.rd, if op == Op::Flw { nanbox(le32(b)) } else { le64(b) }), Ok(()))
                } else {
                    (s, trap(TrapKind::LoadAccessFault, ipc, addr))
                }
            },
            Op::Fsw | Op::Fsd => {
                let f = FormatS::spec_parse(w);
                let addr = (xv(s, f.rs1) as u64).wrapping_add(f.imm as u64);
                let v = s.f[f.rs2 as int];
                let b = if op == Op::Fsw { le32_bytes(v as u32) } else { le64_bytes(v) };
                if in_range(addr, b.len(), s.mem.len()) {
                    (with_mem(s, splice(s.mem, addr as int, b)), Ok(()))
                } else {
                    (s, trap(TrapKind::StoreAccessFault, ipc, addr))
                }
            },
            Op::FmvXS => {
                let f = FormatR::spec_parse(w);
                (with_x(s, f.rd, ((s.f[f.rs1 as int] as u32) as i32) as i64), Ok(()))
            },
            Op::FmvWX => {
                let f = FormatR::spec_parse(w);
                (with_f(s, f.rd, nanbox(xv(s, f.rs1) as u32)), Ok(()))
            },
            Op::FmvXD => {
                let f = FormatR::spec_parse(w);
                (with_x(s, f.rd, s.f[f.rs1 as int] as i64), Ok(()))
            },
            Op::FmvDX => {
                let f = FormatR::spec_parse(w);
                (with_f(s, f.rd, xv(s, f.rs1) as u64), Ok(()))
            },
            Op::FsgnjS | Op::FsgnjnS | Op::FsgnjxS => {
                let f = FormatR::spec_parse(w);
                let a = unbox(s.f[f.rs1 as int]);
                let b = unbox(s.f[f.rs2 as int]);
                let sign = if op == Op::FsgnjS {
                    b & SIGN32
                } else if op == Op::FsgnjnS {
                    !b & SIGN32
                } else {
                    (a ^ b) & SIGN32
                };
                (with_f(s, f.rd, nanbox((a & !SIGN32) | sign)), Ok(()))
            },
            Op::FsgnjD | Op::FsgnjnD | Op::FsgnjxD => {
                let f = FormatR::spec_parse(w);
                let a = s.f[f.rs1 as int];
                let b = s.f[f.rs2 as int];
                let sign = if op == Op::FsgnjD {
                    b & SIGN64
                } else if op == Op::FsgnjnD {
                    !b & SIGN64
                } else {
                    (a ^ b) & SIGN64
                };
                (with_f(s, f.rd, (a & !SIGN64) | sign), Ok(()))
            },
            Op::FclassS => {
                let f = FormatR::spec_parse(w);
                (with_x(s, f.rd, class32(unbox(s.f[f.rs1 as int])) as i64), Ok(()))
            },
            Op::FclassD => {
                let f = FormatR::spec_parse(w);
                (with_x(s, f.rd, class64(s.f[f.rs1 as int]) as i64), Ok(()))
            },
            _ => (s, Ok(())),
        }
    }
}

/// The operation of the table entry that `w` encodes, if any.
pub open spec fn decoded(w: u32) -> Option<Op> {
    if exists|i: u8| i < INSTRUCTION_COUNT && encodes(i, w) {
        Some(spec_op(choose|i: u8| i < INSTRUCTION_COUNT && encodes(i, w)))
    } else {
        None
    }
}

/// One cycle from state `s`: fetch the little-endian word at the program
/// counter (a fetch outside memory steps past it and traps), advance the
/// program counter, decode (a word that encodes no instruction traps),
/// and execute; `x0` is forced back to zero afterwards.
pub open spec fn tick_spec(s: State) -> (State, Tick) {
    let ipc = s.pc;
    let next = with_pc(s, ipc.wrapping_add(PC_STEP));
    if !in_range(ipc, 4, s.mem.len()) {
        (next, Tick::Trapped(Trap { kind: TrapKind::InstructionAccessFault, pc: ipc, value: ipc }))
    } else {
        let w = le32(s.mem.subrange(ipc as int, ipc + 4));
        match decoded(w) {
            None => (next, Tick::Trapped(Trap { kind: TrapKind::IllegalInstruction, pc: ipc, value: w as u64 })),
            Some(op) => if is_float_unit(op) {
                (next, Tick::Float(op, w))
            } else {
                let (s2, r) = step(next, op, w, ipc);
                (
                    State { x: s2.x.update(0, 0), ..s2 },
                    match r {
                        Ok(()) => Tick::Executed(op),
                        Err(t) => Tick::Trapped(t),
                    },
                )
            },
        }
    }
}

/// Register `x0` reads as zero and ignores writes in every state, and a
/// cycle from a state whose `x0` slot is zero leaves it zero.
pub proof fn lemma_x0_hardwired(s: State, v: i64)
    ensures
        xv(s, 0) == 0,
        with_x(s, 0, v) == s,
        s.x.len() == 32 && s.x[0] == 0 ==> tick_spec(s).0.x[0] == 0,
{
    if s.x.len() == 32 && s.x[0] == 0 {
        let next = with_pc(s, s.pc.wrapping_add(PC_STEP));
        let w = le32(s.mem.subrange(s.pc as int, s.pc + 4));
        if let Some(op) = decoded(w) {
            lemma_step_keeps_len(next, op, w, s.pc);
        }
    }
}

proof fn lemma_step_keeps_len(s: State, op: Op, w: u32, ipc: u64)
    requires
        s.x.len() == 32,
    ensures
        step(s, op, w, ipc).0.x.len() == 32,
{
    crate::ins::format::lemma_reg_bounds(w);
}

/// The processor: program counter, register files and memory, the
/// reservation set by load-reserved and the last trap raised.
#[derive(Debug)]
pub struct Cpu {
    pub status: Status,
    pub pc: u64,
    pub xregs: IntRegisters,
    pub fregs: FloatRegisters,
    pub mmu: MemoryManagementUnit,
    pub reservation: Option<u64>,
    pub last_trap: Option<Trap>,
}


fn resolve_xreg(reg: u8) -> (r: IntReg)
    requires
        reg < 32,
    ensures
        r.spec_index() == reg,
{
    match IntReg::from_index(reg) {
        Some(r) => r,
        None => IntReg::x0,
    }
}

fn resolve_freg(reg: u8) -> (r: FloatReg)
    requires
        reg < 32,
    ensures
        r.spec_index() == reg,
{
    match FloatReg::from_index(reg) {
        Some(r) => r,
        None => FloatReg::F0,
    }
}

fn is_branch_exec(op: Op) -> (r: bool)
    ensures
        r == is_branch(op),
{
    match op {
        Op::Beq | Op::Bne | Op::Blt | Op::Bge | Op::Bltu | Op::Bgeu => true,
        _ => false,
    }
}

fn is_load_exec(op: Op) -> (r: bool)
    ensures
        r == is_load(op),
{
    match op {
        Op::Lb | Op::Lh | Op::Lw | Op::Ld | Op::Lbu | Op::Lhu | Op::Lwu => true,
        _ => false,
    }
}

fn is_store_exec(op: Op) -> (r: bool)
    ensures
        r == is_store(op),
{
    match op {
        Op::Sb | Op::Sh | Op::Sw | Op::Sd => true,
        _ => false,
    }
}

fn is_amo_exec(op: Op) -> (r: bool)
    ensures
        r == is_amo(op),
{
    match op {
        Op::AmoswapW | Op::AmoaddW | Op::AmoxorW | Op::AmoandW | Op::AmoorW | Op::AmominW
        | Op::AmomaxW | Op::AmominuW | Op::AmomaxuW | Op::AmoswapD | Op::AmoaddD | Op::AmoxorD
        | Op::AmoandD | Op::AmoorD | Op::AmominD | Op::AmomaxD | Op::AmominuD | Op::AmomaxuD => true,
        _ => false,
    }
}

fn is_word_atomic_exec(op: Op) -> (r: bool)
    ensures
        r == is_word_atomic(op),
{
    match op {
        Op::LrW | Op::ScW | Op::AmoswapW | Op::AmoaddW | Op::AmoxorW | Op::AmoandW | Op::AmoorW
        | Op::AmominW | Op::AmomaxW | Op::AmominuW | Op::AmomaxuW => true,
        _ => false,
    }
}

/// Whether `op` is left to the host's floating-point unit.
pub fn is_float_unit_exec(op: Op) -> (r: bool)
    ensures
        r == is_float_unit(op),
{
    match op {
        Op::FmaddS | Op::FmsubS | Op::FnmsubS | Op::FnmaddS | Op::FaddS | Op::FsubS | Op::FmulS
        | Op::FdivS | Op::FsqrtS | Op::FminS | Op::FmaxS | Op::FcvtWS | Op::FcvtWuS | Op::FeqS
        | Op::FltS | Op::FleS | Op::FcvtSW | Op::FcvtSWu | Op::FcvtLS | Op::FcvtLuS | Op::FcvtSL
        | Op::FcvtSLu | Op::FmaddD | Op::FmsubD | Op::FnmsubD | Op::FnmaddD | Op::FaddD | Op::FsubD
        | Op::FmulD | Op::FdivD | Op::FsqrtD | Op::FminD | Op::FmaxD | Op::FcvtSD | Op::FcvtDS
        | Op::FeqD | Op::FltD | Op::FleD | Op::FcvtWD | Op::FcvtWuD | Op::FcvtDW | Op::FcvtDWu
        | Op::FcvtLD | Op::FcvtLuD | Op::FcvtDL | Op::FcvtDLu => true,
        _ => false,
    }
}

fn amo_value_exec(op: Op, t: i64, b: i64) -> (r: i64)
    ensures
        r == amo_value(op, t, b),
{
    match op {
        Op::AmoswapW => (b as i32) as i64,
        Op::AmoaddW => ((t as i32).wrapping_add(b as i32)) as i64,
        Op::AmoxorW => ((t ^ b) as i32) as i64,
        Op::AmoandW => ((t & b) as i32) as i64,
        Op::AmoorW => ((t | b) as i32) as i64,
        Op::AmominW => if (t as i32) < (b as i32) {
            t
        } else {
            (b as i32) as i64
        },
        Op::AmomaxW => if (t as i32) > (b as i32) {
            t
        } else {
            (b as i32) as i64
        },
        Op::AmominuW => if (t as u32) < (b as u32) {
            t
        } else {
            (b as i32) as i64
        },
        Op::AmomaxuW => if (t as u32) > (b as u32) {
            t
        } else {
            (b as i32) as i64
        },
        Op::AmoswapD => b,
        Op::AmoaddD => t.wrapping_add(b),
        Op::AmoxorD => t ^ b,
        Op::AmoandD => t & b,
        Op::AmoorD => t | b,
        Op::AmominD => if t < b {
            t
        } else {
            b
        },
        Op::AmomaxD => if t > b {
            t
        } else {
            b
        },
        Op::AmominuD => if (t as u64) < (b as u64) {
            t
        } else {
            b
        },
        _ => if (t as u64) > (b as u64) {
            t
        } else {
            b
        },
    }
}

fn unbox_exec(v: u64) -> (r: u32)
    ensures
        r == unbox(v),
{
    if v >> 32u64 == 0xffff_ffff {
        v as u32
    } else {
        0x7fc0_0000
    }
}

fn class64_exec(b: u64) -> (r: u64)
    ensures
        r == class64(b),
{
    let neg = b >> 63u64 == 1;
    let exp = (b >> 52u64) % 0x800;
    let frac = b % 0x10_0000_0000_0000;
    if exp == 0x7ff {
        if frac == 0 {
            if neg {
                1
            } else {
                0x80
            }
        } else if frac >= 0x8_0000_0000_0000 {
            0x200
        } else {
            0x100
        }
    } else if exp == 0 {
        if frac == 0 {
            if neg {
                0x8
            } else {
                0x10
            }
        } else if neg {
            0x4
        } else {
            0x20
        }
    } else if neg {
        0x2
    } else {
        0x40
    }
}

fn class32_exec(b: u32) -> (r: u64)
    ensures
        r == class32(b),
{
    let neg = b >> 31u32 == 1;
    let exp = (b >> 23u32) % 0x100;
    let frac = b % 0x80_0000;
    if exp == 0xff {
        if frac == 0 {
            if neg {
                1
            } else {
                0x80
            }
        } else if frac >= 0x40_0000 {
            0x200
        } else {
            0x100
        }
    } else if exp == 0 {
        if frac == 0 {
            if neg {
                0x8
            } else {
                0x10
            }
        } else if neg {
            0x4
        } else {
            0x20
        }
    } else if neg {
        0x2
    } else {
        0x40
    }
}

impl Cpu {
    /// The architectural state as values.
    pub open spec fn view(&self) -> State {
        State {
            pc: self.pc,
            x: self.xregs.view(),
            f: self.fregs.view(),
            mem: self.mmu.memory.0@,
            reservation: self.reservation,
        }
    }

    /// Both register files hold 32 registers and the `x0` slot holds zero.
    pub open spec fn wf(&self) -> bool {
        &&& self.xregs.wf()
        &&& self@.x.len() == 32
        &&& self@.f.len() == 32
    }

    /// A processor that is initializing, with all registers zero, the
    /// program counter at zero and `memory` as its memory.
    pub fn new(memory: Memory) -> (r: Cpu)
        ensures
            r.wf(),
            r@.pc == 0,
            r@.x == Seq::new(32, |i: int| 0i64),
            r@.f == Seq::new(32, |i: int| 0u64),
            r@.mem == memory.0@,
            r@.reservation is None,
            r.last_trap is None,
            r.status == Status::Initializing,
    {
        Cpu {
            status: Status::Initializing,
            pc: 0,
            xregs: IntRegisters::new(),
            fregs: FloatRegisters::new(),
            mmu: MemoryManagementUnit { memory },
            reservation: None,
            last_trap: None,
        }
    }

    pub fn status(&self) -> (r: Status)
        ensures
            r == self.status,
    {
        self.status
    }

    /// Sets the program counter to `entry` and starts running.
    pub fn start(&mut self, entry: u64)
        ensures
            final(self)@ == with_pc(old(self)@, entry),
            final(self).wf() == old(self).wf(),
            final(self).last_trap == old(self).last_trap,
            final(self).status == Status::Running,
    {
        self.pc = entry;
        self.status = Status::Running;
    }

    /// Stops the processor: later cycles do nothing.
    pub fn halt(&mut self)
        ensures
            final(self)@ == old(self)@,
            final(self).wf() == old(self).wf(),
            final(self).last_trap == old(self).last_trap,
            final(self).status == Status::Halted,
    {
        self.status = Status::Halted;
    }

    fn x(&self, r: u8) -> (v: i64)
        requires
            r < 32,
        ensures
            v == xv(self@, r),
    {
        self.xregs.get(resolve_xreg(r))
    }

    fn set_x(&mut self, r: u8, v: i64)
        requires
            r < 32,
            old(self).wf(),
        ensures
            final(self)@ == with_x(old(self)@, r, v),
            final(self).wf(),
            final(self).status == old(self).status,
            final(self).last_trap == old(self).last_trap,
    {
        self.xregs.set(resolve_xreg(r), v);
    }

    fn fr(&self, r: u8) -> (v: u64)
        requires
            r < 32,
        ensures
            v == self@.f[r as int],
    {
        self.fregs.get(resolve_freg(r))
    }

    fn set_f(&mut self, r: u8, v: u64)
        requires
            r < 32,
        ensures
            final(self)@ == with_f(old(self)@, r, v),
            old(self).wf() ==> final(self).wf(),
            final(self).status == old(self).status,
            final(self).last_trap == old(self).last_trap,
    {
        self.fregs.set(resolve_freg(r), v);
    }

    fn exec_op_imm(&mut self, op: Op, word: u32, ipc: u64) -> (r: Result<(), Trap>)
        requires
            old(self).wf(),
            is_op_imm(op),
            ensures
            (final(self)@, r) == step(old(self)@, op, word, ipc),
            final(self).wf(),
            final(self).status == old(self).status,
            final(self).last_trap == old(self).last_trap,
    {
        let f = FormatI::parse(word);
        let a = self.x(f.rs1);
        self.set_x(f.rd, alu_imm_exec(op, a, f.imm));
        Ok(())
    }

    fn exec_op_reg(&mut self, op: Op, word: u32, ipc: u64) -> (r: Result<(), Trap>)
        requires
            old(self).wf(),
            is_op_reg(op),
            ensures
            (final(self)@, r) == step(old(self)@, op, word, ipc),
            final(self).wf(),
            final(self).status == old(self).status,
            final(self).last_trap == old(self).last_trap,
    {
        let f = FormatR::parse(word);
        let a = self.x(f.rs1);
        let b = self.x(f.rs2);
        self.set_x(f.rd, alu_reg_exec(op, a, b));
        Ok(())
    }

    fn exec_branch(&mut self, op: Op, word: u32, ipc: u64) -> (r: Result<(), Trap>)
        requires
            old(self).wf(),
            is_branch(op),
            ensures
            (final(self)@, r) == step(old(self)@, op, word, ipc),
            final(self).wf(),
            final(self).status == old(self).status,
            final(self).last_trap == old(self).last_trap,
    {
        let f = FormatB::parse(word);
        let a = self.x(f.rs1);
        let b = self.x(f.rs2);
        let taken = match op {
            Op::Beq => a == b,
            Op::Bne => a != b,
            Op::Blt => a < b,
            Op::Bge => a >= b,
            Op::Bltu => (a as u64) < (b as u64),
            _ => (a as u64) >= (b as u64),
        };
        if taken {
            self.pc = ipc.wrapping_add(f.imm);
        }
        Ok(())
    }

    fn exec_load(&mut self, op: Op, word: u32, ipc: u64) -> (r: Result<(), Trap>)
        requires
            old(self).wf(),
            is_load(op),
            ensures
            (final(self)@, r) == step(old(self)@, op, word, ipc),
            final(self).wf(),
            final(self).status == old(self).status,
            final(self).last_trap == old(self).last_trap,
    {
        let f = FormatI::parse(word);
        let addr = (self.x(f.rs1) as u64).wrapping_add(f.imm as u64);
        let v: Result<i64, Trap> = match op {
            Op::Lb => match self.mmu.read_u8(addr) {
                Ok(b) => Ok((b as i8) as i64),
                Err(t) => Err(t),
            },
            Op::Lbu => match self.mmu.read_u8(addr) {
                Ok(b) => Ok(b as i64),
                Err(t) => Err(t),
            },
            Op::Lh => match self.mmu.read_u16_le(addr) {
                Ok(b) => Ok((b as i16) as i64),
                Err(t) => Err(t),
            },
            Op::Lhu => match self.mmu.read_u16_le(addr) {
                Ok(b) => Ok(b as i64),
                Err(t) => Err(t),
            },
            Op::Lw => match self.mmu.read_u32_le(addr) {
                Ok(b) => Ok((b as i32) as i64),
                Err(t) => Err(t),
            },
            Op::Lwu => match self.mmu.read_u32_le(addr) {
                Ok(b) => Ok(b as i64),
                Err(t) => Err(t),
            },
            _ => match self.mmu.read_u64_le(addr) {
                Ok(b) => Ok(b as i64),
                Err(t) => Err(t),
            },
        };
        match v {
            Ok(v) => {
                self.set_x(f.rd, v);
                Ok(())
            },
            Err(t) => Err(t.at(ipc)),
        }
    }

    fn exec_store(&mut self, op: Op, word: u32, ipc: u64) -> (r: Result<(), Trap>)
        requires
            old(self).wf(),
            is_store(op),
            ensures
            (final(self)@, r) == step(old(self)@, op, word, ipc),
            final(self).wf(),
            final(self).status == old(self).status,
            final(self).last_trap == old(self).last_trap,
    {
        let f = FormatS::parse(word);
        let addr = (self.x(f.rs1) as u64).wrapping_add(f.imm as u64);
        let v = self.x(f.rs2);
        let r = match op {
            Op::Sb => self.mmu.write_u8(addr, v as u8),
            Op::Sh => self.mmu.write_u16_le(addr, v as u16),
            Op::Sw => self.mmu.write_u32_le(addr, v as u32),
            _ => self.mmu.write_u64_le(addr, v as u64),
        };
        match r {
            Ok(()) => Ok(()),
            Err(t) => Err(t.at(ipc)),
        }
    }

    fn exec_amo(&mut self, op: Op, word: u32, ipc: u64) -> (r: Result<(), Trap>)
        requires
            old(self).wf(),
            is_amo(op),
            ensures
            (final(self)@, r) == step(old(self)@, op, word, ipc),
            final(self).wf(),
            final(self).status == old(self).status,
            final(self).last_trap == old(self).last_trap,
    {
        let f = FormatR::parse(word);
        let addr = self.x(f.rs1) as u64;
        let b = self.x(f.rs2);
        let word_sized = is_word_atomic_exec(op);
        let t: i64 = if word_sized {
            match self.mmu.read_u32_le(addr) {
                Ok(v) => (v as i32) as i64,
                Err(_) => {
                    return Err(Trap::new(TrapKind::StoreAccessFault, ipc, addr));
                },
            }
        } else {
            match self.mmu.read_u64_le(addr) {
                Ok(v) => v as i64,
                Err(_) => {
                    return Err(Trap::new(TrapKind::StoreAccessFault, ipc, addr));
                },
            }
        };
        let v = amo_value_exec(op, t, b);
        let w = if word_sized {
            self.mmu.write_u32_le(addr, v as u32)
        } else {
            self.mmu.write_u64_le(addr, v as u64)
        };
        match w {
            Ok(()) => {},
            Err(t) => {
                return Err(t.at(ipc));
            },
        }
        self.set_x(f.rd, t);
        Ok(())
    }

    fn exec_other(&mut self, op: Op, word: u32, ipc: u64) -> (r: Result<(), Trap>)
        requires
            old(self).wf(),
            !is_op_imm(op),
            !is_op_reg(op),
            !is_branch(op),
            !is_load(op),
            !is_store(op),
            !is_amo(op),
        ensures
            (final(self)@, r) == step(old(self)@, op, word, ipc),
            final(self).wf(),
            final(self).status == old(self).status,
            final(self).last_trap == old(self).last_trap,
    {
        match op {
            Op::Lui => {
                let f = FormatU::parse(word);
                self.set_x(f.rd, f.imm as i64);
                Ok(())
            },
            Op::Auipc => {
                let f = FormatU::parse(word);
                self.set_x(f.rd, ipc.wrapping_add(f.imm) as i64);
                Ok(())
            },
            Op::Jal => {
                let f = FormatJ::parse(word);
                self.set_x(f.rd, ipc.wrapping_add(4) as i64);
                self.pc = ipc.wrapping_add(f.imm);
                Ok(())
            },
            Op::Jalr => {
                let f = FormatI::parse(word);
                let target = (self.x(f.rs1) as u64).wrapping_add(f.imm as u64) & 0xffff_ffff_ffff_fffe;
                self.set_x(f.rd, ipc.wrapping_add(4) as i64);
                self.pc = target;
                Ok(())
            },
            Op::Ecall => Err(Trap::new(TrapKind::EnvironmentCallFromM, ipc, 0)),
            Op::Ebreak => Err(Trap::new(TrapKind::Breakpoint, ipc, ipc)),
            Op::LrW | Op::LrD => {
                let f = FormatR::parse(word);
                let addr = self.x(f.rs1) as u64;
                let t: i64 = if is_word_atomic_exec(op) {
                    match self.mmu.read_u32_le(addr) {
                        Ok(v) => (v as i32) as i64,
                        Err(t) => {
                            return Err(t.at(ipc));
                        },
                    }
                } else {
                    match self.mmu.read_u64_le(addr) {
                        Ok(v) => v as i64,
                        Err(t) => {
                            return Err(t.at(ipc));
                        },
                    }
                };
                self.set_x(f.rd, t);
                self.reservation = Some(addr);
                Ok(())
            },
            Op::ScW | Op::ScD => {
                let f = FormatR::parse(word);
                let addr = self.x(f.rs1) as u64;
                if self.reservation == Some(addr) {
                    let v = self.x(f.rs2);
                    let w = if is_word_atomic_exec(op) {
                        self.mmu.write_u32_le(addr, v as u32)
                    } else {
                        self.mmu.write_u64_le(addr, v as u64)
                    };
                    match w {
                        Ok(()) => {},
                        Err(t) => {
                            return Err(t.at(ipc));
                        },
                    }
                    self.set_x(f.rd, 0);
                } else {
                    self.set_x(f.rd, 1);
                }
                self.reservation = None;
                Ok(())
            },
            Op::Flw | Op::Fld => {
                let f = FormatI::parse(word);
                let addr = (self.x(f.rs1) as u64).wrapping_add(f.imm as u64);
                let v: u64 = if op == Op::Flw {
                    match self.mmu.read_u32_le(addr) {
                        Ok(v) => 0xffff_ffff_0000_0000u64 | (v as u64),
                        Err(t) => {
                            return Err(t.at(ipc));
                        },
                    }
                } else {
                    match self.mmu.read_u64_le(addr) {
                        Ok(v) => v,
                        Err(t) => {
                            return Err(t.at(ipc));
                        },
                    }
                };
                self.set_f(f.rd, v);
                Ok(())
            },
            Op::Fsw | Op::Fsd => {
                let f = FormatS::parse(word);
                let addr = (self.x(f.rs1) as u64).wrapping_add(f.imm as u64);
                let v = self.fr(f.rs2);
                let w = if op == Op::Fsw {
                    self.mmu.write_u32_le(addr, v as u32)
                } else {
                    self.mmu.write_u64_le(addr, v)
                };
                match w {
                    Ok(()) => Ok(()),
                    Err(t) => Err(t.at(ipc)),
                }
            },
            Op::FmvXS => {
                let f = FormatR::parse(word);
                let v = self.fr(f.rs1);
                self.set_x(f.rd, ((v as u32) as i32) as i64);
                Ok(())
            },
            Op::FmvWX => {
                let f = FormatR::parse(word);
                let v = self.x(f.rs1);
                self.set_f(f.rd, 0xffff_ffff_0000_0000u64 | ((v as u32) as u64));
                Ok(())
            },
            Op::FmvXD => {
                let f = FormatR::parse(word);
                let v = self.fr(f.rs1);
                self.set_x(f.rd, v as i64);
                Ok(())
            },
            Op::FmvDX => {
                let f = FormatR::parse(word);
                let v = self.x(f.rs1);
                self.set_f(f.rd, v as u64);
                Ok(())
            },
            Op::FsgnjS | Op::FsgnjnS | Op::FsgnjxS => {
                let f = FormatR::parse(word);
                let a = unbox_exec(self.fr(f.rs1));
                let b = unbox_exec(self.fr(f.rs2));
                let sign = if op == Op::FsgnjS {
                    b & SIGN32
                } else if op == Op::FsgnjnS {
                    !b & SIGN32
                } else {
                    (a ^ b) & SIGN32
                };
                self.set_f(f.rd, 0xffff_ffff_0000_0000u64 | (((a & !SIGN32) | sign) as u64));
                Ok(())
            },
            Op::FsgnjD | Op::FsgnjnD | Op::FsgnjxD => {
                let f = FormatR::parse(word);
                let a = self.fr(f.rs1);
                let b = self.fr(f.rs2);
                let sign = if op == Op::FsgnjD {
                    b & SIGN64
                } else if op == Op::FsgnjnD {
                    !b & SIGN64
                } else {
                    (a ^ b) & SIGN64
                };
                self.set_f(f.rd, (a & !SIGN64) | sign);
                Ok(())
            },
            Op::FclassS => {
                let f = FormatR::parse(word);
                let v = unbox_exec(self.fr(f.rs1));
                self.set_x(f.rd, class32_exec(v) as i64);
                Ok(())
            },
            Op::FclassD => {
                let f = FormatR::parse(word);
                let v = self.fr(f.rs1);
                self.set_x(f.rd, class64_exec(v) as i64);
                Ok(())
            },
            _ => Ok(()),
        }
    }

    /// Performs the instruction `word`, whose operation is `op`, located at
    /// `ipc`; the program counter has already advanced past it. Operations
    /// left to the host's floating-point unit change nothing here.
    pub fn execute(&mut self, op: Op, word: u32, ipc: u64) -> (r: Result<(), Trap>)
        requires
            old(self).wf(),
        ensures
            (final(self)@, r) == step(old(self)@, op, word, ipc),
            final(self).wf(),
            final(self).status == old(self).status,
            final(self).last_trap == old(self).last_trap,
    {
        if op_imm_exec(op) {
            self.exec_op_imm(op, word, ipc)
        } else if op_reg_exec(op) {
            self.exec_op_reg(op, word, ipc)
        } else if is_branch_exec(op) {
            self.exec_branch(op, word, ipc)
        } else if is_load_exec(op) {
            self.exec_load(op, word, ipc)
        } else if is_store_exec(op) {
            self.exec_store(op, word, ipc)
        } else if is_amo_exec(op) {
            self.exec_amo(op, word, ipc)
        } else {
            self.exec_other(op, word, ipc)
        }
    }

    fn step_pc(&mut self, step: u64)
        ensures
            final(self)@ == with_pc(old(self)@, old(self).pc.wrapping_add(step)),
            final(self).wf() == old(self).wf(),
            final(self).status == old(self).status,
            final(self).last_trap == old(self).last_trap,
    {
        self.pc = self.pc.wrapping_add(step);
    }

    fn handle_trap(&mut self, trap: Trap)
        ensures
            final(self)@ == old(self)@,
            final(self).wf() == old(self).wf(),
            final(self).status == old(self).status,
            final(self).last_trap == Some(trap),
    {
        self.last_trap = Some(trap);
    }

    /// Reads the instruction word at the program counter; when that fails
    /// the program counter steps past it and the fetch traps.
    fn fetch(&mut self) -> (r: Result<u32, Trap>)
        ensures
            match r {
                Ok(w) => in_range(old(self).pc, 4, old(self)@.mem.len()) && w == le32(
                    old(self)@.mem.subrange(old(self).pc as int, old(self).pc + 4),
                ) && final(self)@ == old(self)@,
                Err(t) => !in_range(old(self).pc, 4, old(self)@.mem.len()) && t == Trap {
                    kind: TrapKind::InstructionAccessFault,
                    pc: old(self).pc,
                    value: old(self).pc,
                } && final(self)@ == with_pc(old(self)@, old(self).pc.wrapping_add(PC_STEP)),
            },
            final(self).wf() == old(self).wf(),
            final(self).status == old(self).status,
            final(self).last_trap == old(self).last_trap,
    {
        let pc = self.pc;
        match self.mmu.read_u32_le(pc) {
            Ok(word) => Ok(word),
            Err(_) => {
                self.step_pc(PC_STEP);
                Err(Trap::new(TrapKind::InstructionAccessFault, pc, pc))
            },
        }
    }

    /// Runs one fetch-decode-execute cycle. A trap is recorded as the last
    /// trap; an operation of the floating-point unit is handed back to the
    /// caller with the program counter past it.
    pub fn tick(&mut self) -> (r: Tick)
        requires
            old(self).wf(),
        ensures
            final(self).wf(),
            final(self).status == old(self).status,
            old(self).status == Status::Halted ==> r == Tick::Halted && final(self)@ == old(self)@,
            old(self).status != Status::Halted ==> (final(self)@, r) == tick_spec(old(self)@),
            r matches Tick::Trapped(t) ==> final(self).last_trap == Some(t),
            !(r is Trapped) ==> final(self).last_trap == old(self).last_trap,
    {
        if self.status == Status::Halted {
            return Tick::Halted;
        }
        let inst_addr = self.pc;
        let word = match self.fetch() {
            Ok(word) => word,
            Err(trap) => {
                self.handle_trap(trap);
                return Tick::Trapped(trap);
            },
        };
        self.step_pc(PC_STEP);
        let ins = match decode(word) {
            Some(ins) => ins,
            None => {
                let trap = Trap::new(TrapKind::IllegalInstruction, inst_addr, word as u64);
                self.handle_trap(trap);
                return Tick::Trapped(trap);
            },
        };
        proof {
            let i = choose|i: u8| i < INSTRUCTION_COUNT && encodes(i, word) && ins.is_entry(i);
            let j = choose|j: u8| j < INSTRUCTION_COUNT && encodes(j, word);
            lemma_at_most_one_match(word);
            assert(i == j);
        }
        let op = ins.op;
        if is_float_unit_exec(op) {
            return Tick::Float(op, word);
        }
        let r = self.execute(op, word, inst_addr);
        self.xregs.clear_zero();
        match r {
            Ok(()) => {
                self.mmu.tick();
                Tick::Executed(op)
            },
            Err(trap) => {
                self.handle_trap(trap);
                Tick::Trapped(trap)
            },
        }
    }
}

impl Default for Cpu {
    fn default() -> (r: Cpu)
        ensures
            r.wf(),
            r@.pc == 0,
            r@.x == Seq::new(32, |i: int| 0i64),
            r@.f == Seq::new(32, |i: int| 0u64),
            r@.mem.len() == 0,
            r@.reservation is None,
            r.last_trap is None,
            r.status == Status::Initializing,
    {
        Cpu::new(Memory::default())
    }
}

} // verus!
