//! The integer and floating-point register files.
use vstd::prelude::*;

verus! {

/// The integer registers by number.
#[allow(non_camel_case_types)]
#[derive(Debug, Clone, Copy, PartialEq, Eq, Hash, Structural)]
pub enum IntReg {
    /// `Zero`: Always zero.
    x0,
    /// `ra`: Return address.
    x1,
    /// `sp`: Stack pointer.
    x2,
    /// `gp`: Global pointer.
    x3,
    /// `tp`: Thread pointer.
    x4,
    /// `t0`: Temporary / alternate return address.
    x5,
    /// `t1`: Temporary.
    x6,
    /// `t2`: Temporary.
    x7,
    /// `s0`: Saved register / frame pointer.
    x8,
    /// `s1`: Saved register.
    x9,
    /// `a0`: Function argument / return value.
    x10,
    /// `a1`: Function argument.
    x11,
    /// `a2`: Function argument.
    x12,
    /// `a3`: Function argument.
    x13,
    /// `a4`: Function argument.
    x14,
    /// `a5`: Function argument.
    x15,
    /// `a6`: Function argument.
    x16,
    /// `a7`: Function argument.
    x17,
    /// `s2`: Saved register.
    x18,
    /// `s3`: Saved register.
    x19,
    /// `s4`: Saved register.
    x20,
    /// `s5`: Saved register.
    x21,
    /// `s6`: Saved register.
    x22,
    /// `s7`: Saved register.
    x23,
    /// `s8`: Saved register.
    x24,
    /// `s9`: Saved register.
    x25,
    /// `s10`: Saved register.
    x26,
    /// `s11`: Saved register.
    x27,
    /// `t3`: Temporary.
    x28,
    /// `t4`: Temporary.
    x29,
    /// `t5`: Temporary.
    x30,
    /// `t6`: Temporary.
    x31,
}

impl IntReg {
    pub open spec fn spec_index(self) -> nat {
        match self {
            IntReg::x0 => 0,
            IntReg::x1 => 1,
            IntReg::x2 => 2,
            IntReg::x3 => 3,
            IntReg::x4 => 4,
            IntReg::x5 => 5,
            IntReg::x6 => 6,
            IntReg::x7 => 7,
            IntReg::x8 => 8,
            IntReg::x9 => 9,
            IntReg::x10 => 10,
            IntReg::x11 => 11,
            IntReg::x12 => 12,
            IntReg::x13 => 13,
            IntReg::x14 => 14,
            IntReg::x15 => 15,
            IntReg::x16 => 16,
            IntReg::x17 => 17,
            IntReg::x18 => 18,
            IntReg::x19 => 19,
            IntReg::x20 => 20,
            IntReg::x21 => 21,
            IntReg::x22 => 22,
            IntReg::x23 => 23,
            IntReg::x24 => 24,
            IntReg::x25 => 25,
            IntReg::x26 => 26,
            IntReg::x27 => 27,
            IntReg::x28 => 28,
            IntReg::x29 => 29,
            IntReg::x30 => 30,
            IntReg::x31 => 31,
        }
    }

    /// The register number.
    pub fn index(self) -> (r: usize)
        ensures
            r == self.spec_index(),
            r < 32,
    {
        match self {
            IntReg::x0 => 0,
            IntReg::x1 => 1,
            IntReg::x2 => 2,
            IntReg::x3 => 3,
            IntReg::x4 => 4,
            IntReg::x5 => 5,
            IntReg::x6 => 6,
            IntReg::x7 => 7,
            IntReg::x8 => 8,
            IntReg::x9 => 9,
            IntReg::x10 => 10,
            IntReg::x11 => 11,
            IntReg::x12 => 12,
            IntReg::x13 => 13,
            IntReg::x14 => 14,
            IntReg::x15 => 15,
            IntReg::x16 => 16,
            IntReg::x17 => 17,
            IntReg::x18 => 18,
            IntReg::x19 => 19,
            IntReg::x20 => 20,
            IntReg::x21 => 21,
            IntReg::x22 => 22,
            IntReg::x23 => 23,
            IntReg::x24 => 24,
            IntReg::x25 => 25,
            IntReg::x26 => 26,
            IntReg::x27 => 27,
            IntReg::x28 => 28,
            IntReg::x29 => 29,
            IntReg::x30 => 30,
            IntReg::x31 => 31,
        }
    }

    /// The register with number `value`, if there is one.
    pub fn from_index(value: u8) -> (r: Option<IntReg>)
        ensures
            value < 32 <==> r is Some,
            r matches Some(g) ==> g.spec_index() == value,
    {
        match value {
            0 => Some(IntReg::x0),
            1 => Some(IntReg::x1),
            2 => Some(IntReg::x2),
            3 => Some(IntReg::x3),
            4 => Some(IntReg::x4),
            5 => Some(IntReg::x5),
            6 => Some(IntReg::x6),
            7 => Some(IntReg::x7),
            8 => Some(IntReg::x8),
            9 => Some(IntReg::x9),
            10 => Some(IntReg::x10),
            11 => Some(IntReg::x11),
            12 => Some(IntReg::x12),
            13 => Some(IntReg::x13),
            14 => Some(IntReg::x14),
            15 => Some(IntReg::x15),
            16 => Some(IntReg::x16),
            17 => Some(IntReg::x17),
            18 => Some(IntReg::x18),
            19 => Some(IntReg::x19),
            20 => Some(IntReg::x20),
            21 => Some(IntReg::x21),
            22 => Some(IntReg::x22),
            23 => Some(IntReg::x23),
            24 => Some(IntReg::x24),
            25 => Some(IntReg::x25),
            26 => Some(IntReg::x26),
            27 => Some(IntReg::x27),
            28 => Some(IntReg::x28),
            29 => Some(IntReg::x29),
            30 => Some(IntReg::x30),
            31 => Some(IntReg::x31),
            _ => None,
        }
    }

    /// The register's ABI name.
    pub open spec fn spec_name(self) -> Seq<char> {
        match self {
            IntReg::x0 => "Zero"@,
            IntReg::x1 => "ra"@,
            IntReg::x2 => "sp"@,
            IntReg::x3 => "gp"@,
            IntReg::x4 => "tp"@,
            IntReg::x5 => "t0"@,
            IntReg::x6 => "t1"@,
            IntReg::x7 => "t2"@,
            IntReg::x8 => "s0"@,
            IntReg::x9 => "s1"@,
            IntReg::x10 => "a0"@,
            IntReg::x11 => "a1"@,
            IntReg::x12 => "a2"@,
            IntReg::x13 => "a3"@,
            IntReg::x14 => "a4"@,
            IntReg::x15 => "a5"@,
            IntReg::x16 => "a6"@,
            IntReg::x17 => "a7"@,
            IntReg::x18 => "s2"@,
            IntReg::x19 => "s3"@,
            IntReg::x20 => "s4"@,
            IntReg::x21 => "s5"@,
            IntReg::x22 => "s6"@,
            IntReg::x23 => "s7"@,
            IntReg::x24 => "s8"@,
            IntReg::x25 => "s9"@,
            IntReg::x26 => "s10"@,
            IntReg::x27 => "s11"@,
            IntReg::x28 => "t3"@,
            IntReg::x29 => "t4"@,
            IntReg::x30 => "t5"@,
            IntReg::x31 => "t6"@,
        }
    }

    pub fn name(self) -> (r: &'static str)
        ensures
            r@ == self.spec_name(),
    {
        match self {
            IntReg::x0 => "Zero",
            IntReg::x1 => "ra",
            IntReg::x2 => "sp",
            IntReg::x3 => "gp",
            IntReg::x4 => "tp",
            IntReg::x5 => "t0",
            IntReg::x6 => "t1",
            IntReg::x7 => "t2",
            IntReg::x8 => "s0",
            IntReg::x9 => "s1",
            IntReg::x10 => "a0",
            IntReg::x11 => "a1",
            IntReg::x12 => "a2",
            IntReg::x13 => "a3",
            IntReg::x14 => "a4",
            IntReg::x15 => "a5",
            IntReg::x16 => "a6",
            IntReg::x17 => "a7",
            IntReg::x18 => "s2",
            IntReg::x19 => "s3",
            IntReg::x20 => "s4",
            IntReg::x21 => "s5",
            IntReg::x22 => "s6",
            IntReg::x23 => "s7",
            IntReg::x24 => "s8",
            IntReg::x25 => "s9",
            IntReg::x26 => "s10",
            IntReg::x27 => "s11",
            IntReg::x28 => "t3",
            IntReg::x29 => "t4",
            IntReg::x30 => "t5",
            IntReg::x31 => "t6",
        }
    }

    /// What the calling convention uses the register for.
    pub open spec fn spec_description(self) -> Seq<char> {
        match self {
            IntReg::x0 => "Always zero"@,
            IntReg::x1 => "Return address"@,
            IntReg::x2 => "Stack pointer"@,
            IntReg::x3 => "Global pointer"@,
            IntReg::x4 => "Thread pointer"@,
            IntReg::x5 => "Temporary / alternate return address"@,
            IntReg::x6 => "Temporary"@,
            IntReg::x7 => "Temporary"@,
            IntReg::x8 => "Saved register / frame pointer"@,
            IntReg::x9 => "Saved register"@,
            IntReg::x10 => "Function argument / return value"@,
            IntReg::x11 => "Function argument"@,
            IntReg::x12 => "Function argument"@,
            IntReg::x13 => "Function argument"@,
            IntReg::x14 => "Function argument"@,
            IntReg::x15 => "Function argument"@,
            IntReg::x16 => "Function argument"@,
            IntReg::x17 => "Function argument"@,
            IntReg::x18 => "Saved register"@,
            IntReg::x19 => "Saved register"@,
            IntReg::x20 => "Saved register"@,
            IntReg::x21 => "Saved register"@,
            IntReg::x22 => "Saved register"@,
            IntReg::x23 => "Saved register"@,
            IntReg::x24 => "Saved register"@,
            IntReg::x25 => "Saved register"@,
            IntReg::x26 => "Saved register"@,
            IntReg::x27 => "Saved register"@,
            IntReg::x28 => "Temporary"@,
            IntReg::x29 => "Temporary"@,
            IntReg::x30 => "Temporary"@,
            IntReg::x31 => "Temporary"@,
        }
    }

    pub fn description(self) -> (r: &'static str)
        ensures
            r@ == self.spec_description(),
    {
        match self {
            IntReg::x0 => "Always zero",
            IntReg::x1 => "Return address",
            IntReg::x2 => "Stack pointer",
            IntReg::x3 => "Global pointer",
            IntReg::x4 => "Thread pointer",
            IntReg::x5 => "Temporary / alternate return address",
            IntReg::x6 => "Temporary",
            IntReg::x7 => "Temporary",
            IntReg::x8 => "Saved register / frame pointer",
            IntReg::x9 => "Saved register",
            IntReg::x10 => "Function argument / return value",
            IntReg::x11 => "Function argument",
            IntReg::x12 => "Function argument",
            IntReg::x13 => "Function argument",
            IntReg::x14 => "Function argument",
            IntReg::x15 => "Function argument",
            IntReg::x16 => "Function argument",
            IntReg::x17 => "Function argument",
            IntReg::x18 => "Saved register",
            IntReg::x19 => "Saved register",
            IntReg::x20 => "Saved register",
            IntReg::x21 => "Saved register",
            IntReg::x22 => "Saved register",
            IntReg::x23 => "Saved register",
            IntReg::x24 => "Saved register",
            IntReg::x25 => "Saved register",
            IntReg::x26 => "Saved register",
            IntReg::x27 => "Saved register",
            IntReg::x28 => "Temporary",
            IntReg::x29 => "Temporary",
            IntReg::x30 => "Temporary",
            IntReg::x31 => "Temporary",
        }
    }
}

/// The 32 integer registers. Register `x0` is hard-wired to zero: it reads
/// as zero and writes to it are discarded.
#[derive(Debug, Clone, Copy, PartialEq, Eq, Hash)]
pub struct IntRegisters([i64; 32]);

impl IntRegisters {
    /// The register values, with the `x0` slot zero.
    pub closed spec fn view(&self) -> Seq<i64> {
        self.0@
    }

    /// Slot `x0` holds zero.
    pub open spec fn wf(&self) -> bool {
        self.view().len() == 32 && self.view()[0] == 0
    }

    /// All registers zero.
    pub fn new() -> (r: IntRegisters)
        ensures
            r.view().len() == 32,
            r.view() == Seq::new(32, |i: int| 0i64),
            r.wf(),
    {
        let r = IntRegisters([0i64; 32]);
        assert(r.0@ =~= Seq::new(32, |i: int| 0i64));
        r
    }

    /// The value of register `index`; `x0` always reads as zero.
    pub fn get(&self, index: IntReg) -> (r: i64)
        ensures
            self.view().len() == 32,
            r == (if index.spec_index() == 0 {
                0
            } else {
                self.view()[index.spec_index() as int]
            }),
    {
        let index: usize = index.index();
        if index == 0 {
            0
        } else {
            self.0[index]
        }
    }

    /// Sets register `index` to `value`; a write to `x0` is discarded.
    pub fn set(&mut self, index: IntReg, value: i64)
        ensures
            index.spec_index() != 0 ==> final(self).view()[index.spec_index() as int] == value,
            final(self).view().len() == 32,
            final(self).view() == (if index.spec_index() == 0 {
                old(self).view()
            } else {
                old(self).view().update(index.spec_index() as int, value)
            }),
            old(self).wf() ==> final(self).wf(),
    {
        let index: usize = index.index();
        if index != 0 {
            self.0[index] = value;
        }
    }

    /// Forces the `x0` slot back to zero.
    pub fn clear_zero(&mut self)
        ensures
            final(self).view().len() == 32,
            final(self).view() == old(self).view().update(0, 0),
            final(self).wf(),
    {
        self.0[0] = 0;
    }
}

impl Default for IntRegisters {
    fn default() -> (r: IntRegisters)
        ensures
            r.view() == Seq::new(32, |i: int| 0i64),
            r.wf(),
    {
        IntRegisters::new()
    }
}

/// The floating-point registers by number.
#[allow(non_camel_case_types)]
#[derive(Debug, Clone, Copy, PartialEq, Eq, Hash, Structural)]
pub enum FloatReg {
    /// `ft0`: Floating-point temporaries.
    F0,
    /// `ft1`: Floating-point temporaries.
    F1,
    /// `ft2`: Floating-point temporaries.
    F2,
    /// `ft3`: Floating-point temporaries.
    F3,
    /// `ft4`: Floating-point temporaries.
    F4,
    /// `ft5`: Floating-point temporaries.
    F5,
    /// `ft6`: Floating-point temporaries.
    F6,
    /// `ft7`: Floating-point temporaries.
    F7,
    /// `fs0`: Floating-point saved registers.
    F8,
    /// `fs1`: Floating-point saved registers.
    F9,
    /// `fa0`: Floating-point arguments/return values.
    F10,
    /// `fa1`: Floating-point arguments/return values.
    F11,
    /// `fa2`: Floating-point arguments/return values.
    F12,
    /// `fa3`: Floating-point arguments/return values.
    F13,
    /// `fa4`: Floating-point arguments/return values.
    F14,
    /// `fa5`: Floating-point arguments/return values.
    F15,
    /// `fa6`: Floating-point arguments/return values.
    F16,
    /// `fa7`: Floating-point arguments/return values.
    F17,
    /// `fs2`: Floating-point saved registers.
    F18,
    /// `fs3`: Floating-point saved registers.
    F19,
    /// `fs4`: Floating-point saved registers.
    F20,
    /// `fs5`: Floating-point saved registers.
    F21,
    /// `fs6`: Floating-point saved registers.
    F22,
    /// `fs7`: Floating-point saved registers.
    F23,
    /// `fs8`: Floating-point saved registers.
    F24,
    /// `fs9`: Floating-point saved registers.
    F25,
    /// `fs10`: Floating-point saved registers.
    F26,
    /// `fs11`: Floating-point saved registers.
    F27,
    /// `ft8`: Floating-point temporaries.
    F28,
    /// `ft9`: Floating-point temporaries.
    F29,
    /// `ft10`: Floating-point temporaries.
    F30,
    /// `ft11`: Floating-point temporaries.
    F31,
}

impl FloatReg {
    pub open spec fn spec_index(self) -> nat {
        match self {
            FloatReg::F0 => 0,
            FloatReg::F1 => 1,
            FloatReg::F2 => 2,
            FloatReg::F3 => 3,
            FloatReg::F4 => 4,
            FloatReg::F5 => 5,
            FloatReg::F6 => 6,
            FloatReg::F7 => 7,
            FloatReg::F8 => 8,
            FloatReg::F9 => 9,
            FloatReg::F10 => 10,
            FloatReg::F11 => 11,
            FloatReg::F12 => 12,
            FloatReg::F13 => 13,
            FloatReg::F14 => 14,
            FloatReg::F15 => 15,
            FloatReg::F16 => 16,
            FloatReg::F17 => 17,
            FloatReg::F18 => 18,
            FloatReg::F19 => 19,
            FloatReg::F20 => 20,
            FloatReg::F21 => 21,
            FloatReg::F22 => 22,
            FloatReg::F23 => 23,
            FloatReg::F24 => 24,
            FloatReg::F25 => 25,
            FloatReg::F26 => 26,
            FloatReg::F27 => 27,
            FloatReg::F28 => 28,
            FloatReg::F29 => 29,
            FloatReg::F30 => 30,
            FloatReg::F31 => 31,
        }
    }

    /// The register number.
    pub fn index(self) -> (r: usize)
        ensures
            r == self.spec_index(),
            r < 32,
    {
        match self {
            FloatReg::F0 => 0,
            FloatReg::F1 => 1,
            FloatReg::F2 => 2,
            FloatReg::F3 => 3,
            FloatReg::F4 => 4,
            FloatReg::F5 => 5,
            FloatReg::F6 => 6,
            FloatReg::F7 => 7,
            FloatReg::F8 => 8,
            FloatReg::F9 => 9,
            FloatReg::F10 => 10,
            FloatReg::F11 => 11,
            FloatReg::F12 => 12,
            FloatReg::F13 => 13,
            FloatReg::F14 => 14,
            FloatReg::F15 => 15,
            FloatReg::F16 => 16,
            FloatReg::F17 => 17,
            FloatReg::F18 => 18,
            FloatReg::F19 => 19,
            FloatReg::F20 => 20,
            FloatReg::F21 => 21,
            FloatReg::F22 => 22,
            FloatReg::F23 => 23,
            FloatReg::F24 => 24,
            FloatReg::F25 => 25,
            FloatReg::F26 => 26,
            FloatReg::F27 => 27,
            FloatReg::F28 => 28,
            FloatReg::F29 => 29,
            FloatReg::F30 => 30,
            FloatReg::F31 => 31,
        }
    }

    /// The register with number `value`, if there is one.
    pub fn from_index(value: u8) -> (r: Option<FloatReg>)
        ensures
            value < 32 <==> r is Some,
            r matches Some(g) ==> g.spec_index() == value,
    {
        match value {
            0 => Some(FloatReg::F0),
            1 => Some(FloatReg::F1),
            2 => Some(FloatReg::F2),
            3 => Some(FloatReg::F3),
            4 => Some(FloatReg::F4),
            5 => Some(FloatReg::F5),
            6 => Some(FloatReg::F6),
            7 => Some(FloatReg::F7),
            8 => Some(FloatReg::F8),
            9 => Some(FloatReg::F9),
            10 => Some(FloatReg::F10),
            11 => Some(FloatReg::F11),
            12 => Some(FloatReg::F12),
            13 => Some(FloatReg::F13),
            14 => Some(FloatReg::F14),
            15 => Some(FloatReg::F15),
            16 => Some(FloatReg::F16),
            17 => Some(FloatReg::F17),
            18 => Some(FloatReg::F18),
            19 => Some(FloatReg::F19),
            20 => Some(FloatReg::F20),
            21 => Some(FloatReg::F21),
            22 => Some(FloatReg::F22),
            23 => Some(FloatReg::F23),
            24 => Some(FloatReg::F24),
            25 => Some(FloatReg::F25),
            26 => Some(FloatReg::F26),
            27 => Some(FloatReg::F27),
            28 => Some(FloatReg::F28),
            29 => Some(FloatReg::F29),
            30 => Some(FloatReg::F30),
            31 => Some(FloatReg::F31),
            _ => None,
        }
    }

    /// The register's ABI name.
    pub open spec fn spec_name(self) -> Seq<char> {
        match self {
            FloatReg::F0 => "ft0"@,
            FloatReg::F1 => "ft1"@,
            FloatReg::F2 => "ft2"@,
            FloatReg::F3 => "ft3"@,
            FloatReg::F4 => "ft4"@,
            FloatReg::F5 => "ft5"@,
            FloatReg::F6 => "ft6"@,
            FloatReg::F7 => "ft7"@,
            FloatReg::F8 => "fs0"@,
            FloatReg::F9 => "fs1"@,
            FloatReg::F10 => "fa0"@,
            FloatReg::F11 => "fa1"@,
            FloatReg::F12 => "fa2"@,
            FloatReg::F13 => "fa3"@,
            FloatReg::F14 => "fa4"@,
            FloatReg::F15 => "fa5"@,
            FloatReg::F16 => "fa6"@,
            FloatReg::F17 => "fa7"@,
            FloatReg::F18 => "fs2"@,
            FloatReg::F19 => "fs3"@,
            FloatReg::F20 => "fs4"@,
            FloatReg::F21 => "fs5"@,
            FloatReg::F22 => "fs6"@,
            FloatReg::F23 => "fs7"@,
            FloatReg::F24 => "fs8"@,
            FloatReg::F25 => "fs9"@,
            FloatReg::F26 => "fs10"@,
            FloatReg::F27 => "fs11"@,
            FloatReg::F28 => "ft8"@,
            FloatReg::F29 => "ft9"@,
            FloatReg::F30 => "ft10"@,
            FloatReg::F31 => "ft11"@,
        }
    }

    pub fn name(self) -> (r: &'static str)
        ensures
            r@ == self.spec_name(),
    {
        match self {
            FloatReg::F0 => "ft0",
            FloatReg::F1 => "ft1",
            FloatReg::F2 => "ft2",
            FloatReg::F3 => "ft3",
            FloatReg::F4 => "ft4",
            FloatReg::F5 => "ft5",
            FloatReg::F6 => "ft6",
            FloatReg::F7 => "ft7",
            FloatReg::F8 => "fs0",
            FloatReg::F9 => "fs1",
            FloatReg::F10 => "fa0",
            FloatReg::F11 => "fa1",
            FloatReg::F12 => "fa2",
            FloatReg::F13 => "fa3",
            FloatReg::F14 => "fa4",
            FloatReg::F15 => "fa5",
            FloatReg::F16 => "fa6",
            FloatReg::F17 => "fa7",
            FloatReg::F18 => "fs2",
            FloatReg::F19 => "fs3",
            FloatReg::F20 => "fs4",
            FloatReg::F21 => "fs5",
            FloatReg::F22 => "fs6",
            FloatReg::F23 => "fs7",
            FloatReg::F24 => "fs8",
            FloatReg::F25 => "fs9",
            FloatReg::F26 => "fs10",
            FloatReg::F27 => "fs11",
            FloatReg::F28 => "ft8",
            FloatReg::F29 => "ft9",
            FloatReg::F30 => "ft10",
            FloatReg::F31 => "ft11",
        }
    }

    /// What the calling convention uses the register for.
    pub open spec fn spec_description(self) -> Seq<char> {
        match self {
            FloatReg::F0 => "Floating-point temporaries"@,
            FloatReg::F1 => "Floating-point temporaries"@,
            FloatReg::F2 => "Floating-point temporaries"@,
            FloatReg::F3 => "Floating-point temporaries"@,
            FloatReg::F4 => "Floating-point temporaries"@,
            FloatReg::F5 => "Floating-point temporaries"@,
            FloatReg::F6 => "Floating-point temporaries"@,
            FloatReg::F7 => "Floating-point temporaries"@,
            FloatReg::F8 => "Floating-point saved registers"@,
            FloatReg::F9 => "Floating-point saved registers"@,
            FloatReg::F10 => "Floating-point arguments/return values"@,
            FloatReg::F11 => "Floating-point arguments/return values"@,
            FloatReg::F12 => "Floating-point arguments/return values"@,
            FloatReg::F13 => "Floating-point arguments/return values"@,
            FloatReg::F14 => "Floating-point arguments/return values"@,
            FloatReg::F15 => "Floating-point arguments/return values"@,
            FloatReg::F16 => "Floating-point arguments/return values"@,
            FloatReg::F17 => "Floating-point arguments/return values"@,
            FloatReg::F18 => "Floating-point saved registers"@,
            FloatReg::F19 => "Floating-point saved registers"@,
            FloatReg::F20 => "Floating-point saved registers"@,
            FloatReg::F21 => "Floating-point saved registers"@,
            FloatReg::F22 => "Floating-point saved registers"@,
            FloatReg::F23 => "Floating-point saved registers"@,
            FloatReg::F24 => "Floating-point saved registers"@,
            FloatReg::F25 => "Floating-point saved registers"@,
            FloatReg::F26 => "Floating-point saved registers"@,
            FloatReg::F27 => "Floating-point saved registers"@,
            FloatReg::F28 => "Floating-point temporaries"@,
            FloatReg::F29 => "Floating-point temporaries"@,
            FloatReg::F30 => "Floating-point temporaries"@,
            FloatReg::F31 => "Floating-point temporaries"@,
        }
    }

    pub fn description(self) -> (r: &'static str)
        ensures
            r@ == self.spec_description(),
    {
        match self {
            FloatReg::F0 => "Floating-point temporaries",
            FloatReg::F1 => "Floating-point temporaries",
            FloatReg::F2 => "Floating-point temporaries",
            FloatReg::F3 => "Floating-point temporaries",
            FloatReg::F4 => "Floating-point temporaries",
            FloatReg::F5 => "Floating-point temporaries",
            FloatReg::F6 => "Floating-point temporaries",
            FloatReg::F7 => "Floating-point temporaries",
            FloatReg::F8 => "Floating-point saved registers",
            FloatReg::F9 => "Floating-point saved registers",
            FloatReg::F10 => "Floating-point arguments/return values",
            FloatReg::F11 => "Floating-point arguments/return values",
            FloatReg::F12 => "Floating-point arguments/return values",
            FloatReg::F13 => "Floating-point arguments/return values",
            FloatReg::F14 => "Floating-point arguments/return values",
            FloatReg::F15 => "Floating-point arguments/return values",
            FloatReg::F16 => "Floating-point arguments/return values",
            FloatReg::F17 => "Floating-point arguments/return values",
            FloatReg::F18 => "Floating-point saved registers",
            FloatReg::F19 => "Floating-point saved registers",
            FloatReg::F20 => "Floating-point saved registers",
            FloatReg::F21 => "Floating-point saved registers",
            FloatReg::F22 => "Floating-point saved registers",
            FloatReg::F23 => "Floating-point saved registers",
            FloatReg::F24 => "Floating-point saved registers",
            FloatReg::F25 => "Floating-point saved registers",
            FloatReg::F26 => "Floating-point saved registers",
            FloatReg::F27 => "Floating-point saved registers",
            FloatReg::F28 => "Floating-point temporaries",
            FloatReg::F29 => "Floating-point temporaries",
            FloatReg::F30 => "Floating-point temporaries",
            FloatReg::F31 => "Floating-point temporaries",
        }
    }
}

/// The 32 floating-point registers, each holding the raw bits of an
/// IEEE-754 double (single-precision values are NaN-boxed: their upper 32
/// bits are all ones).
#[derive(Debug, Clone, Copy, PartialEq, Eq, Hash)]
pub struct FloatRegisters([u64; 32]);

impl FloatRegisters {
    pub closed spec fn view(&self) -> Seq<u64> {
        self.0@
    }

    /// All registers hold the bits of positive zero.
    pub fn new() -> (r: FloatRegisters)
        ensures
            r.view().len() == 32,
            r.view() == Seq::new(32, |i: int| 0u64),
    {
        let r = FloatRegisters([0u64; 32]);
        assert(r.0@ =~= Seq::new(32, |i: int| 0u64));
        r
    }

    /// The bits held by register `index`.
    pub fn get(&self, index: FloatReg) -> (r: u64)
        ensures
            self.view().len() == 32,
            r == self.view()[index.spec_index() as int],
    {
        let index: usize = index.index();
        self.0[index]
    }

    /// Sets register `index` to the bits `value`.
    pub fn set(&mut self, index: FloatReg, value: u64)
        ensures
            final(self).view()[index.spec_index() as int] == value,
            final(self).view().len() == 32,
            final(self).view() == old(self).view().update(index.spec_index() as int, value),
    {
        let index: usize = index.index();
        self.0[index] = value;
    }
}

impl Default for FloatRegisters {
    fn default() -> (r: FloatRegisters)
        ensures
            r.view() == Seq::new(32, |i: int| 0u64),
    {
        FloatRegisters::new()
    }
}

} // verus!
