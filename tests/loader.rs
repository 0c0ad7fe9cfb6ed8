use rv64gc::adr::Addressable;
use rv64gc::elf::Elf;
use rv64gc::loader::{load_segments32, load_segments64, LoadError};
use rv64gc::mem::Memory;
use rv64gc::program_header::elf32::ProgramHeader as ProgramHeader32;
use rv64gc::program_header::elf64::ProgramHeader as ProgramHeader64;
use rv64gc::symtab::elf32::{Symbol as Symbol32, Symtab as Symtab32};
use rv64gc::symtab::elf64::{Symtab as Symtab64, SYMBOL_SIZE};

fn ph64(p_type: u32, p_offset: u64, p_paddr: u64, p_filesz: u64, p_memsz: u64) -> ProgramHeader64 {
    ProgramHeader64 {
        p_type,
        p_flags: 0,
        p_offset,
        p_vaddr: p_paddr,
        p_paddr,
        p_filesz,
        p_memsz,
        p_align: 0,
    }
}

#[test]
fn loads_segments_and_zeroes_bss() {
    let file: Vec<u8> = (0u8..32).collect();
    let mut mem = Memory(vec![0xaa; 64]);
    let phs = vec![ph64(1, 4, 8, 4, 8), ph64(2, 0, 0, 32, 32), ph64(1, 30, 60, 2, 2)];
    assert_eq!(load_segments64(&mut mem, &file, &phs), Ok(()));
    assert_eq!(mem.0[..8], [0xaa; 8]);
    assert_eq!(mem.0[8..16], [4, 5, 6, 7, 0, 0, 0, 0]);
    assert_eq!(mem.0[16], 0xaa);
    assert_eq!(mem.0[60..62], [30, 31]);
}

#[test]
fn load_errors() {
    let file = vec![1u8; 8];
    let mut mem = Memory(vec![0; 16]);
    assert_eq!(load_segments64(&mut mem, &file, &vec![ph64(1, 4, 0, 8, 8)]), Err(LoadError::Truncated));
    assert_eq!(load_segments64(&mut mem, &file, &vec![ph64(1, 0, 12, 4, 8)]), Err(LoadError::OutOfRange));
    assert_eq!(load_segments64(&mut mem, &file, &vec![ph64(1, 0, 0, 8, 4)]), Err(LoadError::InvalidSegment));
    assert_eq!(mem.0, vec![0; 16]);
    let ph = ProgramHeader32 {
        p_type: 1,
        p_offset: 0,
        p_vaddr: 2,
        p_paddr: 2,
        p_filesz: 2,
        p_memsz: 3,
        p_flags: 0,
        p_align: 0,
    };
    let mut mem = Memory(vec![9; 6]);
    assert_eq!(load_segments32(&mut mem, &file, &vec![ph]), Ok(()));
    assert_eq!(mem.0, vec![9, 9, 1, 1, 0, 9]);
}

#[test]
fn parse_then_load_then_read() {
    // a 64-bit image whose one PT_LOAD segment holds the word 0x12345678
    let mut b = vec![0u8; 64];
    b[0..4].copy_from_slice(&[0x7f, b'E', b'L', b'F']);
    b[4] = 2;
    b[5] = 1;
    b[32..40].copy_from_slice(&64u64.to_le_bytes());
    b[54..56].copy_from_slice(&56u16.to_le_bytes());
    b[56..58].copy_from_slice(&1u16.to_le_bytes());
    b.extend_from_slice(&1u32.to_le_bytes());
    b.extend_from_slice(&5u32.to_le_bytes());
    for v in [120u64, 0x10, 0x10, 4, 4, 0] {
        b.extend_from_slice(&v.to_le_bytes());
    }
    b.extend_from_slice(&0x1234_5678u32.to_le_bytes());
    let elf = Elf::from_bytes(&b).unwrap();
    let Elf::Elf64 { bytes, pheaders, .. } = elf else { panic!("expected a 64-bit image") };
    let mut mem = Memory(vec![0; 32]);
    load_segments64(&mut mem, bytes, &pheaders).unwrap();
    assert_eq!(mem.read_u32_le(0x10).unwrap(), 0x1234_5678);
}

#[test]
fn symbols_32() {
    let mut data = Vec::new();
    for (name, value, size, info, other, shndx) in [(1u32, 0x100u32, 4u32, 0x12u8, 0u8, 3u16), (7, 0x200, 8, 0x11, 1, 4)] {
        data.extend_from_slice(&name.to_le_bytes());
        data.extend_from_slice(&value.to_le_bytes());
        data.extend_from_slice(&size.to_le_bytes());
        data.push(info);
        data.push(other);
        data.extend_from_slice(&shndx.to_le_bytes());
    }
    data.extend_from_slice(&[0u8; 5]);
    let t = Symtab32::new(1, &data);
    assert_eq!(t.len(), 2);
    let s = t.get_symbol(1).unwrap();
    assert_eq!(s, Symbol32 { st_name: 7, st_value: 0x200, st_size: 8, st_info: 0x11, st_other: 1, st_shndx: 4 });
    assert_eq!(t.get_symbol(2), None);
    assert_eq!(Symtab32::new(0, &data).get_symbol(0), None);
}

#[test]
fn symbols_64_layout() {
    let mut data = Vec::new();
    data.extend_from_slice(&9u32.to_be_bytes());
    data.push(0x12);
    data.push(2);
    data.extend_from_slice(&5u16.to_be_bytes());
    data.extend_from_slice(&0x4000u64.to_be_bytes());
    data.extend_from_slice(&16u64.to_be_bytes());
    assert_eq!(data.len(), SYMBOL_SIZE);
    let t = Symtab64::new(2, &data);
    let s = t.get_symbol(0).unwrap();
    assert_eq!((s.st_name, s.st_info, s.st_other, s.st_shndx), (9, 0x12, 2, 5));
    assert_eq!((s.st_value, s.st_size), (0x4000, 16));
    assert_eq!(t.get_symbol(usize::MAX), None);
}

#[test]
fn boot_runs_from_the_entry_point() {
    let mut b = vec![0u8; 64];
    b[0..4].copy_from_slice(&[0x7f, b'E', b'L', b'F']);
    b[4] = 2;
    b[5] = 1;
    b[24..32].copy_from_slice(&0x10u64.to_le_bytes());
    b[32..40].copy_from_slice(&64u64.to_le_bytes());
    b[54..56].copy_from_slice(&56u16.to_le_bytes());
    b[56..58].copy_from_slice(&1u16.to_le_bytes());
    b.extend_from_slice(&1u32.to_le_bytes());
    b.extend_from_slice(&5u32.to_le_bytes());
    for v in [120u64, 0x10, 0x10, 4, 8, 0] {
        b.extend_from_slice(&v.to_le_bytes());
    }
    // addi x1, x0, 5
    b.extend_from_slice(&0x0050_0093u32.to_le_bytes());
    let mut cpu = rv64gc::loader::boot(Memory(vec![0; 64]), &b).unwrap();
    assert_eq!(cpu.pc, 0x10);
    assert_eq!(cpu.status(), rv64gc::cpu::Status::Running);
    cpu.tick();
    assert_eq!(cpu.xregs.get(rv64gc::reg::IntReg::x1), 5);
    let err = rv64gc::loader::boot(Memory(vec![0; 8]), &b).err().unwrap();
    assert_eq!(err, rv64gc::loader::BootError::Load(LoadError::OutOfRange));
    let err = rv64gc::loader::boot(Memory(vec![0; 8]), &b[..10]).err().unwrap();
    assert_eq!(err, rv64gc::loader::BootError::Parse(rv64gc::error::ErrorKind::InsufficantSize));
}
