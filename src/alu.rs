//! Integer arithmetic of the base and multiply/divide instruction sets, as
//! functions from operand values to the result written to `rd`.
use vstd::prelude::*;
use crate::ins::Op;

verus! {

/// `a` as a 32-bit result sign-extended to 64 bits.
pub open spec fn sext32(a: i64) -> i64 {
    (a as i32) as i64
}

/// The magnitude of `a`.
pub open spec fn magnitude(a: i64) -> u64 {
    if a < 0 {
        (0 - a) as u64
    } else {
        a as u64
    }
}

/// Signed division rounded toward zero; division by zero gives all ones and
/// the overflowing `MIN / -1` gives `MIN`.
pub open spec fn div_spec(a: i64, b: i64) -> i64 {
    if b == 0 {
        -1i64
    } else if a == i64::MIN && b == -1 {
        a
    } else {
        let q = (magnitude(a) / magnitude(b)) as int;
        (if (a < 0) != (b < 0) {
            0 - q
        } else {
            q
        }) as i64
    }
}

/// The remainder of signed division rounded toward zero: it takes the sign
/// of `a`; by zero it is `a`, and for `MIN / -1` it is zero.
pub open spec fn rem_spec(a: i64, b: i64) -> i64 {
    if b == 0 {
        a
    } else if a == i64::MIN && b == -1 {
        0i64
    } else {
        let r = (magnitude(a) % magnitude(b)) as int;
        (if a < 0 {
            0 - r
        } else {
            r
        }) as i64
    }
}

/// Unsigned division; division by zero gives all ones.
pub open spec fn divu_spec(a: u64, b: u64) -> u64 {
    if b == 0 {
        0xffff_ffff_ffff_ffff
    } else {
        a / b
    }
}

/// Unsigned remainder; by zero it is `a`.
pub open spec fn remu_spec(a: u64, b: u64) -> u64 {
    if b == 0 {
        a
    } else {
        a % b
    }
}

/// The upper 64 bits of the 128-bit product of `a` and `b`.
pub open spec fn mulh_spec(a: int, b: int) -> i64 {
    (((a * b) as i128) >> 64u32) as i64
}

/// The upper 64 bits of the 128-bit unsigned product of `a` and `b`.
pub open spec fn mulhu_spec(a: u64, b: u64) -> i64 {
    ((((a as u128) * (b as u128)) as u128) >> 64u32) as i64
}

fn magnitude_exec(a: i64) -> (r: u64)
    ensures
        r == magnitude(a),
{
    if a < 0 {
        (0 - a as i128) as u64
    } else {
        a as u64
    }
}

fn div_exec(a: i64, b: i64) -> (r: i64)
    ensures
        r == div_spec(a, b),
{
    if b == 0 {
        -1
    } else if a == i64::MIN && b == -1 {
        a
    } else {
        let q = (magnitude_exec(a) / magnitude_exec(b)) as i128;
        (if (a < 0) != (b < 0) {
            0 - q
        } else {
            q
        }) as i64
    }
}

fn rem_exec(a: i64, b: i64) -> (r: i64)
    ensures
        r == rem_spec(a, b),
{
    if b == 0 {
        a
    } else if a == i64::MIN && b == -1 {
        0
    } else {
        let r = (magnitude_exec(a) % magnitude_exec(b)) as i128;
        (if a < 0 {
            0 - r
        } else {
            r
        }) as i64
    }
}

fn divu_exec(a: u64, b: u64) -> (r: u64)
    ensures
        r == divu_spec(a, b),
{
    if b == 0 {
        0xffff_ffff_ffff_ffff
    } else {
        a / b
    }
}

fn remu_exec(a: u64, b: u64) -> (r: u64)
    ensures
        r == remu_spec(a, b),
{
    if b == 0 {
        a
    } else {
        a % b
    }
}

fn mulh_exec(a: i128, b: i128) -> (r: i64)
    requires
        -0x8000_0000_0000_0000 <= a < 0x8000_0000_0000_0000,
        -0x8000_0000_0000_0000 <= b < 0x1_0000_0000_0000_0000,
    ensures
        r == mulh_spec(a as int, b as int),
{
    assert(-0x8000_0000_0000_0000_0000_0000_0000_0000 <= a * b
        < 0x8000_0000_0000_0000_0000_0000_0000_0000) by (nonlinear_arith)
        requires
            -0x8000_0000_0000_0000 <= a < 0x8000_0000_0000_0000,
            -0x8000_0000_0000_0000 <= b < 0x1_0000_0000_0000_0000,
    ;
    ((a * b) >> 64u32) as i64
}

fn mulhu_exec(a: u64, b: u64) -> (r: i64)
    ensures
        r == mulhu_spec(a, b),
{
    assert((a as u128) * (b as u128) <= 0xffff_ffff_ffff_ffff_ffff_ffff_ffff_ffff) by (nonlinear_arith)
        requires
            a <= 0xffff_ffff_ffff_ffff,
            b <= 0xffff_ffff_ffff_ffff,
    ;
    (((a as u128) * (b as u128)) >> 64u32) as i64
}

/// Whether `op` computes `rd` from `rs1` and the I-format immediate.
pub open spec fn is_op_imm(op: Op) -> bool {
    match op {
        Op::Addi | Op::Slti | Op::Sltiu | Op::Xori | Op::Ori | Op::Andi | Op::Slli | Op::Srli
        | Op::Srai | Op::Addiw | Op::Slliw | Op::Srliw | Op::Sraiw => true,
        _ => false,
    }
}

/// Whether `op` computes `rd` from `rs1` and `rs2`.
pub open spec fn is_op_reg(op: Op) -> bool {
    match op {
        Op::Add | Op::Sub | Op::Sll | Op::Slt | Op::Sltu | Op::Xor | Op::Srl | Op::Sra | Op::Or
        | Op::And | Op::Addw | Op::Subw | Op::Sllw | Op::Srlw | Op::Sraw | Op::Mul | Op::Mulh
        | Op::Mulhsu | Op::Mulhu | Op::Div | Op::Divu | Op::Rem | Op::Remu | Op::Mulw | Op::Divw
        | Op::Divuw | Op::Remw | Op::Remuw => true,
        _ => false,
    }
}

pub fn op_imm_exec(op: Op) -> (r: bool)
    ensures
        r == is_op_imm(op),
{
    match op {
        Op::Addi | Op::Slti | Op::Sltiu | Op::Xori | Op::Ori | Op::Andi | Op::Slli | Op::Srli
        | Op::Srai | Op::Addiw | Op::Slliw | Op::Srliw | Op::Sraiw => true,
        _ => false,
    }
}

pub fn op_reg_exec(op: Op) -> (r: bool)
    ensures
        r == is_op_reg(op),
{
    match op {
        Op::Add | Op::Sub | Op::Sll | Op::Slt | Op::Sltu | Op::Xor | Op::Srl | Op::Sra | Op::Or
        | Op::And | Op::Addw | Op::Subw | Op::Sllw | Op::Srlw | Op::Sraw | Op::Mul | Op::Mulh
        | Op::Mulhsu | Op::Mulhu | Op::Div | Op::Divu | Op::Rem | Op::Remu | Op::Mulw | Op::Divw
        | Op::Divuw | Op::Remw | Op::Remuw => true,
        _ => false,
    }
}

/// The value a register-immediate operation writes to `rd`, given the value
/// `a` of `rs1` and the sign-extended immediate `imm`. Shifts take their
/// amount from the low six (word forms: five) bits of the immediate.
pub open spec fn alu_imm(op: Op, a: i64, imm: i64) -> i64 {
    let sh = (imm as u64) % 64;
    let shw = (imm as u32) % 32;
    match op {
        Op::Addi => a.wrapping_add(imm),
        Op::Slti => if a < imm {
            1
        } else {
            0
        },
        Op::Sltiu => if (a as u64) < (imm as u64) {
            1
        } else {
            0
        },
        Op::Xori => a ^ imm,
        Op::Ori => a | imm,
        Op::Andi => a & imm,
        Op::Slli => ((a as u64) << sh) as i64,
        Op::Srli => ((a as u64) >> sh) as i64,
        Op::Srai => a >> sh,
        Op::Addiw => ((a as i32).wrapping_add(imm as i32)) as i64,
        Op::Slliw => (((a as u32) << shw) as i32) as i64,
        Op::Srliw => (((a as u32) >> shw) as i32) as i64,
        Op::Sraiw => ((a as i32) >> shw) as i64,
        _ => 0,
    }
}

/// The value a register-register operation writes to `rd`, given the values
/// `a` of `rs1` and `b` of `rs2`. Shifts take their amount from the low six
/// (word forms: five) bits of `b`; word forms work on the low 32 bits and
/// sign-extend the 32-bit result.
pub open spec fn alu_reg(op: Op, a: i64, b: i64) -> i64 {
    let sh = (b as u64) % 64;
    let shw = (b as u32) % 32;
    match op {
        Op::Add => a.wrapping_add(b),
        Op::Sub => a.wrapping_sub(b),
        Op::Sll => ((a as u64) << sh) as i64,
        Op::Slt => if a < b {
            1
        } else {
            0
        },
        Op::Sltu => if (a as u64) < (b as u64) {
            1
        } else {
            0
        },
        Op::Xor => a ^ b,
        Op::Srl => ((a as u64) >> sh) as i64,
        Op::Sra => a >> sh,
        Op::Or => a | b,
        Op::And => a & b,
        Op::Addw => ((a as i32).wrapping_add(b as i32)) as i64,
        Op::Subw => ((a as i32).wrapping_sub(b as i32)) as i64,
        Op::Sllw => (((a as u32) << shw) as i32) as i64,
        Op::Srlw => (((a as u32) >> shw) as i32) as i64,
        Op::Sraw => ((a as i32) >> shw) as i64,
        Op::Mul => a.wrapping_mul(b),
        Op::Mulh => mulh_spec(a as int, b as int),
        Op::Mulhsu => mulh_spec(a as int, (b as u64) as int),
        Op::Mulhu => mulhu_spec(a as u64, b as u64),
        Op::Div => div_spec(a, b),
        Op::Divu => divu_spec(a as u64, b as u64) as i64,
        Op::Rem => rem_spec(a, b),
        Op::Remu => remu_spec(a as u64, b as u64) as i64,
        Op::Mulw => ((a as i32).wrapping_mul(b as i32)) as i64,
        Op::Divw => sext32(div_spec(sext32(a), sext32(b))),
        Op::Divuw => ((divu_spec((a as u32) as u64, (b as u32) as u64) as u32) as i32) as i64,
        Op::Remw => sext32(rem_spec(sext32(a), sext32(b))),
        Op::Remuw => ((remu_spec((a as u32) as u64, (b as u32) as u64) as u32) as i32) as i64,
        _ => 0,
    }
}

/// Computes `alu_imm`.
pub fn alu_imm_exec(op: Op, a: i64, imm: i64) -> (r: i64)
    ensures
        r == alu_imm(op, a, imm),
{
    let sh = (imm as u64) % 64;
    let shw = (imm as u32) % 32;
    match op {
        Op::Addi => a.wrapping_add(imm),
        Op::Slti => if a < imm {
            1
        } else {
            0
        },
        Op::Sltiu => if (a as u64) < (imm as u64) {
            1
        } else {
            0
        },
        Op::Xori => a ^ imm,
        Op::Ori => a | imm,
        Op::Andi => a & imm,
        Op::Slli => ((a as u64) << sh) as i64,
        Op::Srli => ((a as u64) >> sh) as i64,
        Op::Srai => a >> sh,
        Op::Addiw => ((a as i32).wrapping_add(imm as i32)) as i64,
        Op::Slliw => (((a as u32) << shw) as i32) as i64,
        Op::Srliw => (((a as u32) >> shw) as i32) as i64,
        Op::Sraiw => ((a as i32) >> shw) as i64,
        _ => 0,
    }
}

/// Computes `alu_reg`.
pub fn alu_reg_exec(op: Op, a: i64, b: i64) -> (r: i64)
    ensures
        r == alu_reg(op, a, b),
{
    let sh = (b as u64) % 64;
    let shw = (b as u32) % 32;
    match op {
        Op::Add => a.wrapping_add(b),
        Op::Sub => a.wrapping_sub(b),
        Op::Sll => ((a as u64) << sh) as i64,
        Op::Slt => if a < b {
            1
        } else {
            0
        },
        Op::Sltu => if (a as u64) < (b as u64) {
            1
        } else {
            0
        },
        Op::Xor => a ^ b,
        Op::Srl => ((a as u64) >> sh) as i64,
        Op::Sra => a >> sh,
        Op::Or => a | b,
        Op::And => a & b,
        Op::Addw => ((a as i32).wrapping_add(b as i32)) as i64,
        Op::Subw => ((a as i32).wrapping_sub(b as i32)) as i64,
        Op::Sllw => (((a as u32) << shw) as i32) as i64,
        Op::Srlw => (((a as u32) >> shw) as i32) as i64,
        Op::Sraw => ((a as i32) >> shw) as i64,
        Op::Mul => a.wrapping_mul(b),
        Op::Mulh => mulh_exec(a as i128, b as i128),
        Op::Mulhsu => mulh_exec(a as i128, (b as u64) as i128),
        Op::Mulhu => mulhu_exec(a as u64, b as u64),
        Op::Div => div_exec(a, b),
        Op::Divu => divu_exec(a as u64, b as u64) as i64,
        Op::Rem => rem_exec(a, b),
        Op::Remu => remu_exec(a as u64, b as u64) as i64,
        Op::Mulw => ((a as i32).wrapping_mul(b as i32)) as i64,
        Op::Divw => div_exec((a as i32) as i64, (b as i32) as i64) as i32 as i64,
        Op::Divuw => ((divu_exec((a as u32) as u64, (b as u32) as u64) as u32) as i32) as i64,
        Op::Remw => rem_exec((a as i32) as i64, (b as i32) as i64) as i32 as i64,
        Op::Remuw => ((remu_exec((a as u32) as u64, (b as u32) as u64) as u32) as i32) as i64,
        _ => 0,
    }
}

} // verus!
