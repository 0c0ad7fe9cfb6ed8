use rv64gc::adr::Addressable;
use rv64gc::cpu::{Cpu, Status, Tick};
use rv64gc::ins::Op;
use rv64gc::mem::{Memory, MemoryError, MemoryManagementUnit};
use rv64gc::reg::{FloatReg, IntReg, IntRegisters};
use rv64gc::tra::{Trap, TrapKind};

const BASE: u64 = 0x8000_0000;

fn reg(i: u8) -> IntReg {
    IntReg::from_index(i).unwrap()
}

/// A processor with `size` bytes of memory, `words` stored from `at`, and
/// the program counter at `at`.
fn cpu_with(size: usize, at: u64, words: &[u32]) -> Cpu {
    let mut mem = Memory(vec![0u8; size]);
    for (k, w) in words.iter().enumerate() {
        mem.write_u32_le(at + 4 * k as u64, *w).unwrap();
    }
    let mut cpu = Cpu::new(mem);
    cpu.start(at);
    cpu
}

fn run(words: &[u32], setup: impl Fn(&mut Cpu)) -> Cpu {
    let mut cpu = cpu_with(0x2000, 0x100, words);
    setup(&mut cpu);
    for _ in 0..words.len() {
        cpu.tick();
    }
    cpu
}

#[test]
fn lui_then_addi() {
    let mut cpu = cpu_with(BASE as usize + 0x100, BASE, &[0x1234_50b7, 0x6780_8093]);
    cpu.tick();
    cpu.tick();
    assert_eq!(cpu.xregs.get(IntReg::x1), 0x1234_5678);
    assert_eq!(cpu.pc, BASE + 8);
}

#[test]
fn jal_forward() {
    let mut cpu = cpu_with(BASE as usize + 0x100, BASE, &[0x0080_00ef]);
    assert_eq!(cpu.tick(), Tick::Executed(Op::Jal));
    assert_eq!(cpu.xregs.get(IntReg::x1), 0x8000_0004);
    assert_eq!(cpu.pc, 0x8000_0008);
}

#[test]
fn beq_taken_backward() {
    let mut cpu = cpu_with(BASE as usize + 0x100, BASE, &[0x0070_0293, 0x0070_0313, 0xfe62_8ee3]);
    cpu.tick();
    cpu.tick();
    cpu.tick();
    assert_eq!(cpu.pc, 0x8000_0004);
}

#[test]
fn lb_sign_extension() {
    let cpu = run(&[0x0001_0083], |cpu| {
        cpu.mmu.write_u8(0x1000, 0xff).unwrap();
        cpu.xregs.set(IntReg::x2, 0x1000);
    });
    assert_eq!(cpu.xregs.get(IntReg::x1) as u64, 0xffff_ffff_ffff_ffff);
}

#[test]
fn srai_preserves_sign() {
    let cpu = run(&[0x4040_d113], |cpu| cpu.xregs.set(IntReg::x1, 0xffff_ffff_ffff_fff0u64 as i64));
    assert_eq!(cpu.xregs.get(IntReg::x2) as u64, 0xffff_ffff_ffff_ffff);
}

#[test]
fn x0_reads_zero_and_ignores_writes() {
    let mut regs = IntRegisters::default();
    regs.set(IntReg::x0, 42);
    assert_eq!(regs.get(IntReg::x0), 0);
    regs.set(IntReg::x5, 42);
    assert_eq!(regs.get(IntReg::x5), 42);
    // addi x0, x0, 5
    let cpu = run(&[0x0050_0013], |_| {});
    assert_eq!(cpu.xregs.get(IntReg::x0), 0);
}

#[test]
fn register_names() {
    assert_eq!(IntReg::x2.name(), "sp");
    assert_eq!(IntReg::x0.description(), "Always zero");
    assert_eq!(IntReg::from_index(32), None);
    assert_eq!(reg(31).index(), 31);
    assert_eq!(FloatReg::F10.name(), "fa0");
}

#[test]
fn multiply_and_divide() {
    let cases: [(u32, i64, i64, i64); 9] = [
        (0x0220_81b3, 6, -7, -42),                 // mul
        (0x0220_c1b3, -7, 2, -3),                  // div
        (0x0220_e1b3, -7, 2, -1),                  // rem
        (0x0220_c1b3, 5, 0, -1),                   // div by zero
        (0x0220_e1b3, 5, 0, 5),                    // rem by zero
        (0x0220_c1b3, i64::MIN, -1, i64::MIN),     // div overflow
        (0x0220_e1b3, i64::MIN, -1, 0),            // rem overflow
        (0x0220_d1b3, -1, 2, i64::MAX),            // divu
        (0x0220_b1b3, -1, -1, -2),                 // mulhu
    ];
    for (w, a, b, expect) in cases {
        let cpu = run(&[w], |cpu| {
            cpu.xregs.set(IntReg::x1, a);
            cpu.xregs.set(IntReg::x2, b);
        });
        assert_eq!(cpu.xregs.get(IntReg::x3), expect, "word {:#010x}", w);
    }
    let cpu = run(&[0x0220_91b3], |cpu| {
        cpu.xregs.set(IntReg::x1, -2);
        cpu.xregs.set(IntReg::x2, 3);
    });
    assert_eq!(cpu.xregs.get(IntReg::x3), -1); // mulh
}

#[test]
fn shifts_and_words() {
    // sll uses the low six bits of rs2
    let cpu = run(&[0x0020_91b3], |cpu| {
        cpu.xregs.set(IntReg::x1, 1);
        cpu.xregs.set(IntReg::x2, 40);
    });
    assert_eq!(cpu.xregs.get(IntReg::x3), 1 << 40);
    // sra
    let cpu = run(&[0x4020_d1b3], |cpu| {
        cpu.xregs.set(IntReg::x1, -256);
        cpu.xregs.set(IntReg::x2, 4);
    });
    assert_eq!(cpu.xregs.get(IntReg::x3), -16);
    // addw wraps at 32 bits and sign-extends
    let cpu = run(&[0x0020_81bb], |cpu| {
        cpu.xregs.set(IntReg::x1, 0x7fff_ffff);
        cpu.xregs.set(IntReg::x2, 1);
    });
    assert_eq!(cpu.xregs.get(IntReg::x3), -0x8000_0000);
}

#[test]
fn store_then_load() {
    // sd x2, 8(x1); ld x3, 8(x1); lwu x4.. (lwu x3, 8(x1) in third word)
    let cpu = run(&[0x0020_b423, 0x0080_b183], |cpu| {
        cpu.xregs.set(IntReg::x1, 0x1000);
        cpu.xregs.set(IntReg::x2, -2);
    });
    assert_eq!(cpu.xregs.get(IntReg::x3), -2);
    let mut cpu = cpu;
    assert_eq!(cpu.mmu.read_u64_le(0x1008).unwrap(), 0xffff_ffff_ffff_fffe);
    let cpu2 = run(&[0x0020_a423, 0x0080_e183], |cpu| {
        cpu.xregs.set(IntReg::x1, 0x1000);
        cpu.xregs.set(IntReg::x2, -2);
    });
    assert_eq!(cpu2.xregs.get(IntReg::x3), 0xffff_fffe);
}

#[test]
fn jalr_and_auipc() {
    let cpu = run(&[0x0002_80e7], |cpu| cpu.xregs.set(IntReg::x5, 0x1235));
    assert_eq!(cpu.pc, 0x1234);
    assert_eq!(cpu.xregs.get(IntReg::x1), 0x104);
    let cpu = run(&[0x0000_1197], |_| {});
    assert_eq!(cpu.xregs.get(IntReg::x3), 0x1100);
}

#[test]
fn traps() {
    let mut cpu = cpu_with(0x200, 0x100, &[0x0000_0073]);
    let t = cpu.tick();
    assert_eq!(t, Tick::Trapped(Trap { kind: TrapKind::EnvironmentCallFromM, pc: 0x100, value: 0 }));
    assert_eq!(cpu.last_trap, Some(Trap { kind: TrapKind::EnvironmentCallFromM, pc: 0x100, value: 0 }));
    assert_eq!(cpu.pc, 0x104);
    // an all-zero word is illegal
    let t = cpu.tick();
    assert_eq!(t, Tick::Trapped(Trap { kind: TrapKind::IllegalInstruction, pc: 0x104, value: 0 }));
    // fetching past the end of memory
    cpu.pc = 0x1fe;
    let t = cpu.tick();
    assert_eq!(t, Tick::Trapped(Trap { kind: TrapKind::InstructionAccessFault, pc: 0x1fe, value: 0x1fe }));
    assert_eq!(cpu.pc, 0x202);
    // a load past the end of memory: ld x3, 8(x1) with x1 = 0x1ff0
    let cpu = run(&[0x0080_b183], |cpu| cpu.xregs.set(IntReg::x1, 0x1ff9));
    assert_eq!(cpu.last_trap.unwrap().kind, TrapKind::LoadAccessFault);
    assert_eq!(cpu.last_trap.unwrap().value, 0x2001);
    assert_eq!(cpu.xregs.get(IntReg::x3), 0);
}

#[test]
fn reservation_and_atomics() {
    // lr.w x3, (x1); sc.w x4, x2, (x1)
    let cpu = run(&[0x1000_a1af, 0x1820_a22f], |cpu| {
        cpu.xregs.set(IntReg::x1, 0x1000);
        cpu.xregs.set(IntReg::x2, 77);
        cpu.mmu.write_u32_le(0x1000, 0xffff_fff0).unwrap();
    });
    assert_eq!(cpu.xregs.get(IntReg::x3), -16);
    assert_eq!(cpu.xregs.get(IntReg::x4), 0);
    let mut cpu = cpu;
    assert_eq!(cpu.mmu.read_u32_le(0x1000).unwrap(), 77);
    // sc.w without a reservation fails and leaves memory alone
    let mut cpu = run(&[0x1820_a22f], |cpu| cpu.xregs.set(IntReg::x1, 0x1000));
    assert_eq!(cpu.xregs.get(IntReg::x4), 1);
    assert_eq!(cpu.mmu.read_u32_le(0x1000).unwrap(), 0);
    // amoadd.d x3, x2, (x1)
    let mut cpu = run(&[0x0020_b1af], |cpu| {
        cpu.xregs.set(IntReg::x1, 0x1000);
        cpu.xregs.set(IntReg::x2, 5);
        cpu.mmu.write_u64_le(0x1000, 10).unwrap();
    });
    assert_eq!(cpu.xregs.get(IntReg::x3), 10);
    assert_eq!(cpu.mmu.read_u64_le(0x1000).unwrap(), 15);
}

#[test]
fn float_moves_signs_and_classes() {
    // fmv.d.x f1, x2; fsgnjn.d f2, f1, f1; fmv.x.d x4, f2; fclass.d x3, f1
    let cpu = run(&[0xf201_00d3, 0x2210_9153, 0xe201_0253, 0xe200_91d3], |cpu| {
        cpu.xregs.set(IntReg::x2, 1.5f64.to_bits() as i64);
    });
    assert_eq!(f64::from_bits(cpu.fregs.get(FloatReg::F1)), 1.5);
    assert_eq!(f64::from_bits(cpu.xregs.get(IntReg::x4) as u64), -1.5);
    assert_eq!(cpu.xregs.get(IntReg::x3), 0x40);
}

#[test]
fn float_arithmetic_is_handed_back() {
    let mut cpu = cpu_with(0x200, 0x100, &[0x0231_00d3]);
    assert_eq!(cpu.tick(), Tick::Float(Op::FaddD, 0x0231_00d3));
    assert_eq!(cpu.pc, 0x104);
}

#[test]
fn halted_cpu_does_nothing() {
    let mut cpu = cpu_with(0x200, 0x100, &[0x0050_0093]);
    cpu.halt();
    assert_eq!(cpu.status(), Status::Halted);
    assert_eq!(cpu.tick(), Tick::Halted);
    assert_eq!(cpu.pc, 0x100);
    assert_eq!(Cpu::default().status(), Status::Initializing);
}

#[test]
fn memory_reads_and_writes() {
    let mut m = Memory(vec![0u8; 16]);
    m.write_u32_be(0, 0x0102_0304).unwrap();
    assert_eq!(m.0[..4], [1, 2, 3, 4]);
    assert_eq!(m.read_u32_le(0).unwrap(), 0x0403_0201);
    assert_eq!(m.read_u16_be(1).unwrap(), 0x0203);
    m.write_u128_le(0, 0x0f0e_0d0c_0b0a_0908_0706_0504_0302_0100).unwrap();
    assert_eq!(m.read_u8(15).unwrap(), 0x0f);
    assert_eq!(m.read_u128_be(0).unwrap(), 0x0001_0203_0405_0607_0809_0a0b_0c0d_0e0f);
    assert_eq!(m.read_u64_le(9), Err(MemoryError::OutOfRange));
    assert_eq!(m.write_u8(16, 1), Err(MemoryError::OutOfRange));
    assert_eq!(m.len(), 16);
    let mut mmu = MemoryManagementUnit { memory: m };
    mmu.tick();
    assert_eq!(mmu.read_u8(20).unwrap_err().kind, TrapKind::LoadAccessFault);
    assert_eq!(mmu.write_u8(20, 0).unwrap_err().kind, TrapKind::StoreAccessFault);
}

#[test]
fn breakpoint_and_store_fault() {
    let mut cpu = cpu_with(0x200, 0x100, &[0x0010_0073]);
    assert_eq!(cpu.tick(), Tick::Trapped(Trap { kind: TrapKind::Breakpoint, pc: 0x100, value: 0x100 }));
    // sd x2, 8(x1) past the end of memory
    let cpu = run(&[0x0020_b423], |cpu| cpu.xregs.set(IntReg::x1, 0x1ffc));
    assert_eq!(cpu.last_trap, Some(Trap { kind: TrapKind::StoreAccessFault, pc: 0x100, value: 0x2004 }));
}

#[test]
fn csr_and_fence_are_placeholders() {
    // csrrs x5, mhartid, x0; fence
    let mut cpu = cpu_with(0x200, 0x100, &[0xf140_22f3, 0x0ff0_000f]);
    assert_eq!(cpu.tick(), Tick::Executed(Op::Csrrs));
    assert_eq!(cpu.tick(), Tick::Executed(Op::Fence));
    assert_eq!(cpu.xregs.get(IntReg::x5), 0);
    assert_eq!(cpu.pc, 0x108);
}

#[test]
fn float_loads_box_singles_and_classify() {
    // flw f1, 0(x1); fclass.s x3, f1; fmv.x.w x4, f1
    let cpu = run(&[0x0000_a087, 0xe000_91d3, 0xe000_8253], |cpu| {
        cpu.xregs.set(IntReg::x1, 0x1000);
        cpu.mmu.write_u32_le(0x1000, (-0.0f32).to_bits()).unwrap();
    });
    assert_eq!(cpu.fregs.get(FloatReg::F1), 0xffff_ffff_8000_0000);
    assert_eq!(cpu.xregs.get(IntReg::x3), 0x8);
    assert_eq!(cpu.xregs.get(IntReg::x4), 0xffff_ffff_8000_0000u64 as i64);
    // fclass.d of a quiet NaN and of negative infinity
    let cpu = run(&[0xf201_00d3, 0xe200_91d3], |cpu| cpu.xregs.set(IntReg::x2, f64::NAN.to_bits() as i64));
    assert_eq!(cpu.xregs.get(IntReg::x3), 0x200);
    let cpu = run(&[0xf201_00d3, 0xe200_91d3], |cpu| cpu.xregs.set(IntReg::x2, f64::NEG_INFINITY.to_bits() as i64));
    assert_eq!(cpu.xregs.get(IntReg::x3), 0x1);
}

#[test]
fn amo_min_and_max_words() {
    // amomin.w x3, x2, (x1)
    let mut cpu = run(&[0x8020_a1af], |cpu| {
        cpu.xregs.set(IntReg::x1, 0x1000);
        cpu.xregs.set(IntReg::x2, -5);
        cpu.mmu.write_u32_le(0x1000, 3).unwrap();
    });
    assert_eq!(cpu.xregs.get(IntReg::x3), 3);
    assert_eq!(cpu.mmu.read_u32_le(0x1000).unwrap(), (-5i32) as u32);
    // amomaxu.w x3, x2, (x1)
    let mut cpu = run(&[0xe020_a1af], |cpu| {
        cpu.xregs.set(IntReg::x1, 0x1000);
        cpu.xregs.set(IntReg::x2, -5);
        cpu.mmu.write_u32_le(0x1000, 3).unwrap();
    });
    assert_eq!(cpu.mmu.read_u32_le(0x1000).unwrap(), (-5i32) as u32);
}
