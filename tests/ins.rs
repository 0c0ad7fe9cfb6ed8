use std::collections::HashMap;

use rv64gc::ins::format::{FormatB, FormatI, FormatJ, FormatR, FormatR4, FormatS, FormatU};
use rv64gc::ins::{instruction, Op, INSTRUCTION_COUNT};

#[test]
fn decode() {
    let word = 0b0000000_1010_1010_000_1010_0110011;

    let ins = rv64gc::ins::decode(word).unwrap();
    println!("{}", ins.name);
    assert_eq!(ins.name, "ADD");
}

#[test]
fn unique_instruction_names() {
    let mut names: HashMap<&'static str, usize> = HashMap::new();

    for i in 0..INSTRUCTION_COUNT {
        *names.entry(instruction(i).name).or_default() += 1;
    }

    let mut duplicates = false;
    for (name, count) in names.into_iter().filter(|(_, v)| v > &1) {
        println!("Duplicate for name `{name}`: {count}");
        duplicates = true;
    }

    assert!(!duplicates, "Found duplicate names");
}

#[test]
fn valid_masks() {
    for i in 0..INSTRUCTION_COUNT {
        let instr = instruction(i);
        assert_eq!(
            instr.reqd & instr.mask,
            instr.reqd,
            "Invalid mask and required bits for instruction {}",
            instr.name
        );
        assert_eq!(
            instr.reqd | instr.mask,
            instr.mask,
            "Invalid mask and required bits for instruction {}",
            instr.name
        );
    }
}

#[test]
fn sampled_words_match_at_most_once() {
    let mut w: u32 = 0x1234_5678;
    for _ in 0..20000 {
        w = w.wrapping_mul(1_664_525).wrapping_add(1_013_904_223);
        let n = (0..INSTRUCTION_COUNT).filter(|&i| {
            let d = instruction(i);
            w & d.mask == d.reqd
        }).count();
        assert!(n <= 1, "word {:#010x} matches {} entries", w, n);
    }
}

#[test]
fn decode_known_words() {
    assert_eq!(rv64gc::ins::decode(0x123450b7).unwrap().op, Op::Lui);
    assert_eq!(rv64gc::ins::decode(0x67808093).unwrap().op, Op::Addi);
    assert_eq!(rv64gc::ins::decode(0x0080_00ef).unwrap().op, Op::Jal);
    assert_eq!(rv64gc::ins::decode(0xfe62_8ee3).unwrap().op, Op::Beq);
    assert_eq!(rv64gc::ins::decode(0x4040_d113).unwrap().op, Op::Srai);
    assert_eq!(rv64gc::ins::decode(0x0080_e183).unwrap().op, Op::Lwu);
    assert_eq!(rv64gc::ins::decode(0x0080_b183).unwrap().op, Op::Ld);
    assert_eq!(rv64gc::ins::decode(0x0000_0073).unwrap().op, Op::Ecall);
    assert_eq!(rv64gc::ins::decode(0x0231_00d3).unwrap().op, Op::FaddD);
    assert_eq!(rv64gc::ins::decode(0x0000_1063).unwrap().name, "BNE");
    assert!(rv64gc::ins::decode(0xffff_ffff).is_none());
    assert!(rv64gc::ins::decode(0).is_none());
}

#[test]
fn immediates_of_each_format() {
    assert_eq!(FormatI::parse(0xfff0_0093).imm, -1);
    assert_eq!(FormatI::parse(0x7ff0_0093).imm, 2047);
    assert_eq!(FormatI::parse(0x8000_0093).imm, -2048);
    let s = FormatS::parse(0x0020_b423);
    assert_eq!((s.rs1, s.rs2, s.imm), (1, 2, 8));
    assert_eq!(FormatS::parse(0xfe20_afa3).imm, -1);
    let b = FormatB::parse(0xfe62_8ee3);
    assert_eq!((b.rs1, b.rs2, b.imm as i64), (5, 6, -4));
    let u = FormatU::parse(0x1234_50b7);
    assert_eq!((u.rd, u.imm), (1, 0x1234_5000));
    assert_eq!(FormatU::parse(0xfffff0b7).imm, 0xffff_ffff_ffff_f000);
    let j = FormatJ::parse(0x0080_00ef);
    assert_eq!((j.rd, j.imm), (1, 8));
    assert_eq!(FormatJ::parse(0xfffff0ef).imm as i64, -2);
    let r = FormatR::parse(0x0220_81b3);
    assert_eq!((r.rd, r.rs1, r.rs2), (3, 1, 2));
    let r4 = FormatR4::parse(0x1820_a22f);
    assert_eq!((r4.rd, r4.rs1, r4.rs2, r4.rs3), (4, 1, 2, 3));
}

#[test]
fn immediate_alignment_and_sign() {
    for w in [0u32, 0xffff_ffff, 0x8000_0000, 0x7fff_ffff, 0xdead_beef, 0x1234_5678] {
        assert_eq!(FormatB::parse(w).imm & 1, 0);
        assert_eq!(FormatJ::parse(w).imm & 1, 0);
        assert_eq!(FormatU::parse(w).imm & 0xfff, 0);
        let neg = w >> 31 == 1;
        let top = |v: u64, bits: u32| v >> bits;
        let all = |bits: u32| if neg { u64::MAX >> bits } else { 0 };
        assert_eq!(top(FormatI::parse(w).imm as u64, 11), all(11));
        assert_eq!(top(FormatS::parse(w).imm as u64, 11), all(11));
        assert_eq!(top(FormatB::parse(w).imm, 12), all(12));
        assert_eq!(top(FormatU::parse(w).imm, 31), all(31));
        assert_eq!(top(FormatJ::parse(w).imm, 20), all(20));
    }
}

#[test]
fn reparsing_encoded_fields() {
    let i = FormatI { rd: 5, rs1: 7, imm: -300 };
    assert_eq!(FormatI::parse(i.encode(0x13)), i);
    let s = FormatS { rs1: 1, rs2: 31, imm: 2047 };
    assert_eq!(FormatS::parse(s.encode(0x23)), s);
    let b = FormatB { rs1: 3, rs2: 4, imm: (-4096i64) as u64 };
    assert_eq!(FormatB::parse(b.encode(0x63)), b);
    let u = FormatU { rd: 9, imm: 0xffff_ffff_8000_0000 };
    assert_eq!(FormatU::parse(u.encode(0x37)), u);
    let j = FormatJ { rd: 1, imm: 0xf_fffe };
    assert_eq!(FormatJ::parse(j.encode(0x6f)), j);
    let r = FormatR { rd: 31, rs1: 0, rs2: 17 };
    assert_eq!(FormatR::parse(r.encode(0x33)), r);
    let r4 = FormatR4 { rd: 1, rs1: 2, rs2: 3, rs3: 31 };
    assert_eq!(FormatR4::parse(r4.encode(0x43)), r4);
    assert_eq!(FormatI { rd: 1, rs1: 1, imm: 0x678 }.encode(0x13), 0x6780_8093);
}
