use rv64gc::elf::Elf;
use rv64gc::error::ErrorKind;
use rv64gc::header::elf32::Header as Header32;
use rv64gc::header::elf64::Header;
use rv64gc::header::{ei_class_as_str, e_type_as_str, Ident, E_MACHINE_AMD8664, E_TYPE_ET_DYN};
use rv64gc::program_header::elf32::ProgramHeader as ProgramHeader32;
use rv64gc::program_header::elf64::ProgramHeader as ProgramHeader64;
use rv64gc::program_header::{p_type_as_str, P_TYPE_PT_LOAD};
use rv64gc::section_header::elf64::SectionHeader as SectionHeader64;
use rv64gc::strtab::Strtab;

const PUNKTF: [u8; 64] = [
    0x7f, 0x45, 0x4c, 0x46, 0x02, 0x01, 0x01, 0x00, 0x00, 0x00, 0x00, 0x00, 0x00, 0x00, 0x00, 0x00,
    0x03, 0x00, 0x3e, 0x00, 0x01, 0x00, 0x00, 0x00, 0x80, 0x98, 0x07, 0x00, 0x00, 0x00, 0x00, 0x00,
    0x40, 0x00, 0x00, 0x00, 0x00, 0x00, 0x00, 0x00, 0x38, 0xb8, 0x3d, 0x00, 0x00, 0x00, 0x00, 0x00,
    0x00, 0x00, 0x00, 0x00, 0x40, 0x00, 0x38, 0x00, 0x0c, 0x00, 0x40, 0x00, 0x2b, 0x00, 0x29, 0x00,
];

#[test]
fn punktf_header() {
    println!("Should: {}", 64);
    println!("Is    : {}", PUNKTF.len());

    let header = Header::from_bytes(&PUNKTF).unwrap();
    println!("{:?}", header);
}

#[test]
fn elf_ingest_header_fields() {
    let h = Header::from_bytes(&PUNKTF).unwrap();
    assert_eq!(h.e_ident.ei_class(), 2);
    assert_eq!(h.e_ident.ei_data(), 1);
    assert_eq!(h.e_type, E_TYPE_ET_DYN);
    assert_eq!(h.e_machine, E_MACHINE_AMD8664);
    assert_eq!(h.e_entry, 0x0007_9880);
    assert_eq!(h.e_phoff, 64);
    assert_eq!(h.e_shoff, 0x3d_b838);
    assert_eq!(h.e_phnum, 12);
    assert_eq!(h.e_shnum, 43);
    assert_eq!(h.e_shstrndx, 41);
    assert_eq!(h.e_ehsize, 64);
    assert_eq!(h.e_phentsize, 56);
    assert_eq!(h.e_shentsize, 64);
}

#[test]
fn header_round_trip_is_byte_identical() {
    let h = Header::from_bytes(&PUNKTF).unwrap();
    assert_eq!(h.to_bytes(), PUNKTF.to_vec());
}

#[test]
fn header_round_trip_big_endian_32() {
    let mut b = vec![0u8; 52];
    b[0..4].copy_from_slice(&[0x7f, b'E', b'L', b'F']);
    b[4] = 1;
    b[5] = 2;
    b[16] = 0x00;
    b[17] = 0x02;
    b[18] = 0x00;
    b[19] = 0xf3;
    b[24..28].copy_from_slice(&[0x80, 0x00, 0x00, 0x04]);
    let h = Header32::from_bytes(&b).unwrap();
    assert_eq!(h.e_type, 2);
    assert_eq!(h.e_machine, 0xf3);
    assert_eq!(h.e_entry, 0x8000_0004);
    assert_eq!(h.to_bytes(), b);
}

#[test]
fn header_errors() {
    assert_eq!(Header::from_bytes(&PUNKTF[..63]).unwrap_err().kind, ErrorKind::InsufficantSize);
    let mut bad = PUNKTF;
    bad[1] = b'X';
    assert_eq!(Header::from_bytes(&bad).unwrap_err().kind, ErrorKind::InvalidMagic);
    let mut bad = PUNKTF;
    bad[5] = 3;
    assert_eq!(Header::from_bytes(&bad).unwrap_err().kind, ErrorKind::UnknownEndianess);
}

#[test]
fn error_messages() {
    assert_eq!(ErrorKind::InvalidMagic.message(), "Found invalid magic constant at the start of the header");
    let e = rv64gc::error::Error::new(ErrorKind::InsufficantSize);
    assert_eq!(e.to_string(), "Not enough bytes found to parse");
    let e = e.with_message(String::from("short"));
    assert_eq!(e.message, Some(String::from("short")));
}

#[test]
fn ident_accessors() {
    let id = Ident(PUNKTF[..16].try_into().unwrap());
    assert_eq!(id.ei_mag(), &[0x7f, 0x45, 0x4c, 0x46]);
    assert_eq!(id.ei_class(), 2);
    assert_eq!(id.ei_data(), 1);
    assert_eq!(id.ei_version(), 1);
    assert_eq!(id.ei_osabi(), 0);
    assert_eq!(id.ei_abiversion(), 0);
    assert_eq!(id.ei_pad(), &[0u8; 7]);
}

#[test]
fn constant_names() {
    assert_eq!(ei_class_as_str(2), "64-bit");
    assert_eq!(ei_class_as_str(9), "UNKNOWN");
    assert_eq!(e_type_as_str(3), "ET_DYN");
    assert_eq!(e_type_as_str(0xfe00), "ET_LOOS");
    assert_eq!(p_type_as_str(1), "PT_LOAD");
    assert_eq!(p_type_as_str(0x6000_0001), "RESERVED: Operating system specific");
}

fn le32(v: u32) -> [u8; 4] {
    v.to_le_bytes()
}

#[test]
fn program_header_64_fields_and_errors() {
    let mut b = Vec::new();
    b.extend_from_slice(&le32(1));
    b.extend_from_slice(&le32(5));
    for v in [0x1000u64, 0x8000_0000, 0x8000_0000, 0x20, 0x40, 0x1000] {
        b.extend_from_slice(&v.to_le_bytes());
    }
    let ph = ProgramHeader64::from_bytes(1, &b).unwrap();
    assert_eq!(ph.p_type, P_TYPE_PT_LOAD);
    assert_eq!(ph.p_flags, 5);
    assert_eq!(ph.p_offset, 0x1000);
    assert_eq!(ph.p_vaddr, 0x8000_0000);
    assert_eq!(ph.p_filesz, 0x20);
    assert_eq!(ph.p_memsz, 0x40);
    assert_eq!(ph.p_align, 0x1000);
    assert_eq!(ProgramHeader64::from_bytes(0, &b).unwrap_err().kind, ErrorKind::UnknownEndianess);
    assert_eq!(ProgramHeader64::from_bytes(1, &b[..55]).unwrap_err().kind, ErrorKind::InsufficantSize);
}

#[test]
fn program_header_32_big_endian_and_extract() {
    let mut b = Vec::new();
    for v in [1u32, 4, 0x100, 0x100, 3, 3, 7, 4] {
        b.extend_from_slice(&v.to_be_bytes());
    }
    let ph = ProgramHeader32::from_bytes(2, &b).unwrap();
    assert_eq!(ph.p_type, 1);
    assert_eq!(ph.p_offset, 4);
    assert_eq!(ph.p_filesz, 3);
    assert_eq!(ph.p_flags, 7);
    let data = [9u8, 8, 7, 6, 5, 4, 3];
    assert_eq!(ph.extract_data(&data), &[5, 4, 3]);
}

#[test]
fn section_header_64_parse() {
    let mut b = Vec::new();
    b.extend_from_slice(&le32(11));
    b.extend_from_slice(&le32(3));
    for v in [0u64, 0, 0x200, 0x30] {
        b.extend_from_slice(&v.to_le_bytes());
    }
    b.extend_from_slice(&le32(0));
    b.extend_from_slice(&le32(0));
    for v in [1u64, 0] {
        b.extend_from_slice(&v.to_le_bytes());
    }
    let sh = SectionHeader64::from_bytes(1, &b).unwrap();
    assert_eq!(sh.sh_name, 11);
    assert_eq!(sh.sh_type, 3);
    assert_eq!(sh.sh_offset, 0x200);
    assert_eq!(sh.sh_size, 0x30);
    assert_eq!(sh.sh_addralign, 1);
}

#[test]
fn strtab_records_by_index_and_offset() {
    let data = b"\0.text\0.data\0";
    let t = Strtab::new(Strtab::DEFAULT_DELIM, data);
    assert_eq!(t.get_bytes(0), Some(&b""[..]));
    assert_eq!(t.get_bytes(1), Some(&b".text"[..]));
    assert_eq!(t.get_bytes(2), Some(&b".data"[..]));
    assert_eq!(t.get_bytes(3), Some(&b""[..]));
    assert_eq!(t.get_bytes(4), None);
    assert_eq!(t.get_bytes_off(1), Some(&b".text"[..]));
    assert_eq!(t.get_bytes_off(3), Some(&b"ext"[..]));
    assert_eq!(t.get_bytes_off(13), Some(&b""[..]));
    assert_eq!(t.get_bytes_off(14), None);
}

#[test]
fn strtab_other_delimiter_and_empty() {
    let t = Strtab::new(b',', b"a,b");
    assert_eq!(t.get_bytes(1), Some(&b"b"[..]));
    assert_eq!(t.get_bytes(2), None);
    let e = Strtab::new(0, b"");
    assert_eq!(e.get_bytes(0), Some(&b""[..]));
    assert_eq!(e.get_bytes(1), None);
}

fn tiny_elf64() -> Vec<u8> {
    let mut b = PUNKTF.to_vec();
    // one program header at 64, one section header at 120
    b[32..40].copy_from_slice(&64u64.to_le_bytes());
    b[40..48].copy_from_slice(&120u64.to_le_bytes());
    b[56..58].copy_from_slice(&1u16.to_le_bytes());
    b[60..62].copy_from_slice(&1u16.to_le_bytes());
    b[62..64].copy_from_slice(&0u16.to_le_bytes());
    b.extend_from_slice(&le32(1));
    b.extend_from_slice(&le32(5));
    for v in [0u64, 0x1000, 0x1000, 4, 4, 8] {
        b.extend_from_slice(&v.to_le_bytes());
    }
    b.extend_from_slice(&le32(0));
    b.extend_from_slice(&le32(3));
    for v in [0u64, 0, 0, 0] {
        b.extend_from_slice(&v.to_le_bytes());
    }
    b.extend_from_slice(&le32(0));
    b.extend_from_slice(&le32(0));
    for v in [0u64, 0] {
        b.extend_from_slice(&v.to_le_bytes());
    }
    b
}

#[test]
fn elf_from_bytes_64() {
    let b = tiny_elf64();
    match Elf::from_bytes(&b).unwrap() {
        Elf::Elf64 { header, pheaders, sheaders, .. } => {
            assert_eq!(header.e_phnum, 1);
            assert_eq!(pheaders.len(), 1);
            assert_eq!(pheaders[0].p_vaddr, 0x1000);
            assert_eq!(pheaders[0].p_filesz, 4);
            assert_eq!(sheaders.len(), 1);
            assert_eq!(sheaders[0].sh_type, 3);
        }
        Elf::Elf32 { .. } => panic!("expected a 64-bit image"),
    }
}

#[test]
fn elf_from_bytes_errors() {
    assert_eq!(Elf::from_bytes(&[0x7f, 0x45]).err().unwrap().kind, ErrorKind::InsufficantSize);
    let mut b = tiny_elf64();
    b[4] = 7;
    assert_eq!(Elf::from_bytes(&b).err().unwrap().kind, ErrorKind::InvalidClass);
    let b = tiny_elf64();
    assert_eq!(Elf::from_bytes(&b[..150]).err().unwrap().kind, ErrorKind::InsufficantSize);
    assert_eq!(Elf::from_bytes(&PUNKTF).err().unwrap().kind, ErrorKind::InsufficantSize);
}

#[test]
fn os_abi_and_machine_names() {
    assert_eq!(rv64gc::header::ei_osabi_as_str(3), "Linux");
    assert_eq!(rv64gc::header::e_machine_as_str(0xf3), "RISC-V");
    assert_eq!(rv64gc::header::e_machine_as_str(0x0c), "RESERVED");
    assert_eq!(rv64gc::header::e_machine_as_str(0x7777), "UNKNOWN");
    assert_eq!(rv64gc::section_header::sh_type_as_str(2), "SHT_SYMTAB");
}
