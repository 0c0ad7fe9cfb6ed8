//! Placing the loadable segments of an ELF image into memory.
use vstd::prelude::*;
use crate::adr::splice;
use crate::mem::Memory;
use crate::program_header::elf32::ProgramHeader as ProgramHeader32;
use crate::program_header::elf64::ProgramHeader as ProgramHeader64;
use crate::program_header::P_TYPE_PT_LOAD;
use crate::cpu::{Cpu, Status};
use crate::elf::{elf_error, parsed32, parsed64, Elf};
use crate::error::ErrorKind;
use crate::header::elf32::Header as Header32;
use crate::header::elf64::Header as Header64;
use crate::header::{EI_CLASS, EI_CLASS_32, EI_CLASS_64};
use crate::section_header::elf32::SectionHeader as SectionHeader32;
use crate::section_header::elf64::SectionHeader as SectionHeader64;

verus! {

/// Why a segment could not be loaded.
#[derive(Debug, Clone, Copy, PartialEq, Eq, Hash, Structural)]
pub enum LoadError {
    /// The segment's file bytes run past the end of the image.
    Truncated,
    /// The segment holds more bytes in the file than in memory.
    InvalidSegment,
    /// The segment runs past the end of memory.
    OutOfRange,
}

/// The bytes a segment occupies in memory: its `filesz` file bytes from
/// `offset`, then zeros up to `memsz`.
pub open spec fn segment_image(file: Seq<u8>, offset: int, filesz: int, memsz: int) -> Seq<u8> {
    file.subrange(offset, offset + filesz) + Seq::new((memsz - filesz) as nat, |i: int| 0u8)
}

/// Memory `mem` after loading one program header, or why it cannot be
/// loaded. Headers other than `PT_LOAD` leave memory as it is.
pub open spec fn load_step(
    mem: Seq<u8>,
    file: Seq<u8>,
    p_type: u32,
    offset: int,
    paddr: int,
    filesz: int,
    memsz: int,
) -> Result<Seq<u8>, LoadError> {
    if p_type != P_TYPE_PT_LOAD {
        Ok(mem)
    } else if filesz > memsz {
        Err(LoadError::InvalidSegment)
    } else if offset + filesz > file.len() {
        Err(LoadError::Truncated)
    } else if paddr + memsz > mem.len() {
        Err(LoadError::OutOfRange)
    } else {
        Ok(splice(mem, paddr, segment_image(file, offset, filesz, memsz)))
    }
}

/// Memory after loading the 32-bit program headers `phs` in order.
pub open spec fn load32(mem: Seq<u8>, file: Seq<u8>, phs: Seq<ProgramHeader32>) -> Result<Seq<u8>, LoadError>
    decreases phs.len(),
{
    if phs.len() == 0 {
        Ok(mem)
    } else {
        match load32(mem, file, phs.drop_last()) {
            Ok(m) => {
                let p = phs.last();
                load_step(m, file, p.p_type, p.p_offset as int, p.p_paddr as int, p.p_filesz as int, p.p_memsz as int)
            },
            Err(e) => Err(e),
        }
    }
}

/// Memory after loading the 64-bit program headers `phs` in order.
pub open spec fn load64(mem: Seq<u8>, file: Seq<u8>, phs: Seq<ProgramHeader64>) -> Result<Seq<u8>, LoadError>
    decreases phs.len(),
{
    if phs.len() == 0 {
        Ok(mem)
    } else {
        match load64(mem, file, phs.drop_last()) {
            Ok(m) => {
                let p = phs.last();
                load_step(m, file, p.p_type, p.p_offset as int, p.p_paddr as int, p.p_filesz as int, p.p_memsz as int)
            },
            Err(e) => Err(e),
        }
    }
}

/// Loads one program header into `memory`; on an error memory is left as
/// it was.
fn load_one(
    memory: &mut Memory,
    file: &[u8],
    p_type: u32,
    offset: u64,
    paddr: u64,
    filesz: u64,
    memsz: u64,
) -> (r: Result<(), LoadError>)
    ensures
        match load_step(old(memory).0@, file@, p_type, offset as int, paddr as int, filesz as int, memsz as int) {
            Ok(m) => r is Ok && final(memory).0@ == m,
            Err(e) => r == Err::<(), LoadError>(e) && final(memory).0@ == old(memory).0@,
        },
{
    if p_type != P_TYPE_PT_LOAD {
        return Ok(());
    }
    if filesz > memsz {
        return Err(LoadError::InvalidSegment);
    }
    let flen = file.len();
    if offset as u128 + filesz as u128 > flen as u128 {
        return Err(LoadError::Truncated);
    }
    let size = memory.0.len();
    if paddr as u128 + memsz as u128 > size as u128 {
        return Err(LoadError::OutOfRange);
    }
    let ghost before = memory.0@;
    let ghost image = segment_image(file@, offset as int, filesz as int, memsz as int);
    let start = paddr as usize;
    let n = memsz as usize;
    let fl = filesz as usize;
    let off = offset as usize;
    let mut k: usize = 0;
    while k < n
        invariant
            size == memory.0@.len(),
            before.len() == size,
            flen == file@.len(),
            start == paddr,
            n == memsz,
            fl == filesz,
            off == offset,
            fl <= n,
            off + fl <= flen,
            start + n <= size,
            image == segment_image(file@, offset as int, filesz as int, memsz as int),
            image.len() == n,
            0 <= k <= n,
            forall|j: int| 0 <= j < size && !(start <= j < start + k) ==> memory.0@[j] == before[j],
            forall|j: int| start <= j < start + k ==> memory.0@[j] == image[j - start],
        decreases n - k,
    {
        let b = if k < fl {
            file[off + k]
        } else {
            0u8
        };
        memory.0.set(start + k, b);
        k += 1;
    }
    assert(memory.0@ =~= splice(before, paddr as int, image));
    Ok(())
}

/// Copies the loadable segments of a 32-bit image into `memory`: for each
/// `PT_LOAD` program header in order, `p_filesz` bytes from `p_offset` of
/// `file` go to `p_paddr`, and the rest of the segment up to `p_memsz` is
/// zeroed. It stops at the first segment that cannot be loaded.
pub fn load_segments32(memory: &mut Memory, file: &[u8], pheaders: &Vec<ProgramHeader32>) -> (r: Result<(), LoadError>)
    ensures
        match load32(old(memory).0@, file@, pheaders@) {
            Ok(m) => r is Ok && final(memory).0@ == m,
            Err(e) => r == Err::<(), LoadError>(e),
        },
{
    let ghost start = memory.0@;
    let mut i: usize = 0;
    while i < pheaders.len()
        invariant
            0 <= i <= pheaders@.len(),
            start == old(memory).0@,
            load32(start, file@, pheaders@.subrange(0, i as int)) == Ok::<Seq<u8>, LoadError>(memory.0@),
        decreases pheaders@.len() - i,
    {
        let p = pheaders[i];
        let r = load_one(memory, file, p.p_type, p.p_offset as u64, p.p_paddr as u64, p.p_filesz as u64, p.p_memsz as u64);
        assert(pheaders@.subrange(0, i + 1).drop_last() =~= pheaders@.subrange(0, i as int));
        match r {
            Ok(()) => {},
            Err(e) => {
                proof {
                    assert(pheaders@.subrange(0, i + 1).last() == p);
                    assert(load32(start, file@, pheaders@.subrange(0, i + 1)) == Err::<Seq<u8>, LoadError>(e));
                    lemma_load32_stops(start, file@, pheaders@, (i + 1) as nat);
                    assert(load32(start, file@, pheaders@) == Err::<Seq<u8>, LoadError>(e));
                }
                return Err(e);
            },
        }
        i += 1;
    }
    assert(pheaders@.subrange(0, i as int) =~= pheaders@);
    Ok(())
}

proof fn lemma_load32_stops(mem: Seq<u8>, file: Seq<u8>, phs: Seq<ProgramHeader32>, n: nat)
    requires
        n <= phs.len(),
        load32(mem, file, phs.subrange(0, n as int)) is Err,
    ensures
        load32(mem, file, phs) == load32(mem, file, phs.subrange(0, n as int)),
    decreases phs.len() - n,
{
    if n < phs.len() {
        assert(phs.subrange(0, n + 1 as int).drop_last() =~= phs.subrange(0, n as int));
        lemma_load32_stops(mem, file, phs, (n + 1) as nat);
    } else {
        assert(phs.subrange(0, n as int) =~= phs);
    }
}

/// Copies the loadable segments of a 64-bit image into `memory`, as
/// `load_segments32` does.
pub fn load_segments64(memory: &mut Memory, file: &[u8], pheaders: &Vec<ProgramHeader64>) -> (r: Result<(), LoadError>)
    ensures
        match load64(old(memory).0@, file@, pheaders@) {
            Ok(m) => r is Ok && final(memory).0@ == m,
            Err(e) => r == Err::<(), LoadError>(e),
        },
{
    let ghost start = memory.0@;
    let mut i: usize = 0;
    while i < pheaders.len()
        invariant
            0 <= i <= pheaders@.len(),
            start == old(memory).0@,
            load64(start, file@, pheaders@.subrange(0, i as int)) == Ok::<Seq<u8>, LoadError>(memory.0@),
        decreases pheaders@.len() - i,
    {
        let p = pheaders[i];
        let r = load_one(memory, file, p.p_type, p.p_offset, p.p_paddr, p.p_filesz, p.p_memsz);
        assert(pheaders@.subrange(0, i + 1).drop_last() =~= pheaders@.subrange(0, i as int));
        match r {
            Ok(()) => {},
            Err(e) => {
                proof {
                    assert(pheaders@.subrange(0, i + 1).last() == p);
                    assert(load64(start, file@, pheaders@.subrange(0, i + 1)) == Err::<Seq<u8>, LoadError>(e));
                    lemma_load64_stops(start, file@, pheaders@, (i + 1) as nat);
                    assert(load64(start, file@, pheaders@) == Err::<Seq<u8>, LoadError>(e));
                }
                return Err(e);
            },
        }
        i += 1;
    }
    assert(pheaders@.subrange(0, i as int) =~= pheaders@);
    Ok(())
}

proof fn lemma_load64_stops(mem: Seq<u8>, file: Seq<u8>, phs: Seq<ProgramHeader64>, n: nat)
    requires
        n <= phs.len(),
        load64(mem, file, phs.subrange(0, n as int)) is Err,
    ensures
        load64(mem, file, phs) == load64(mem, file, phs.subrange(0, n as int)),
    decreases phs.len() - n,
{
    if n < phs.len() {
        assert(phs.subrange(0, n + 1 as int).drop_last() =~= phs.subrange(0, n as int));
        lemma_load64_stops(mem, file, phs, (n + 1) as nat);
    } else {
        assert(phs.subrange(0, n as int) =~= phs);
    }
}

/// Why an image could not be booted.
#[derive(Debug, Clone, Copy, PartialEq, Eq, Hash, Structural)]
pub enum BootError {
    /// The image is not a well-formed ELF file.
    Parse(ErrorKind),
    /// One of its loadable segments does not fit.
    Load(LoadError),
}

/// What loading the 32-bit image `b` into memory `mem` gives.
pub open spec fn boot32(mem: Seq<u8>, b: Seq<u8>, h: Header32, r: Result<Seq<u8>, LoadError>) -> bool {
    exists|ph: Seq<ProgramHeader32>, sh: Seq<SectionHeader32>|
        parsed32(b, h, ph, sh) && load32(mem, b, ph) == r
}

/// What loading the 64-bit image `b` into memory `mem` gives.
pub open spec fn boot64(mem: Seq<u8>, b: Seq<u8>, h: Header64, r: Result<Seq<u8>, LoadError>) -> bool {
    exists|ph: Seq<ProgramHeader64>, sh: Seq<SectionHeader64>|
        parsed64(b, h, ph, sh) && load64(mem, b, ph) == r
}

/// Parses the image in `bytes`, copies its loadable segments into `memory`
/// and returns a running processor whose program counter is the image's
/// entry point, its registers zero.
pub fn boot(memory: Memory, bytes: &[u8]) -> (r: Result<Cpu, BootError>)
    ensures
        match r {
            Ok(cpu) => {
                &&& elf_error(bytes@) is None
                &&& cpu.wf()
                &&& cpu.status == Status::Running
                &&& cpu.last_trap is None
                &&& cpu@.reservation is None
                &&& cpu@.x == Seq::new(32, |i: int| 0i64)
                &&& cpu@.f == Seq::new(32, |i: int| 0u64)
                &&& bytes@[EI_CLASS as int] == EI_CLASS_32 ==> exists|h: Header32|
                    boot32(memory.0@, bytes@, h, Ok(cpu@.mem)) && cpu@.pc == h.e_entry
                &&& bytes@[EI_CLASS as int] == EI_CLASS_64 ==> exists|h: Header64|
                    boot64(memory.0@, bytes@, h, Ok(cpu@.mem)) && cpu@.pc == h.e_entry
            },
            Err(BootError::Parse(k)) => elf_error(bytes@) == Some(k),
            Err(BootError::Load(e)) => {
                &&& elf_error(bytes@) is None
                &&& bytes@[EI_CLASS as int] == EI_CLASS_32 ==> exists|h: Header32|
                    boot32(memory.0@, bytes@, h, Err(e))
                &&& bytes@[EI_CLASS as int] == EI_CLASS_64 ==> exists|h: Header64|
                    boot64(memory.0@, bytes@, h, Err(e))
            },
        },
{
    let ghost m0 = memory.0@;
    let elf = match Elf::from_bytes(bytes) {
        Ok(elf) => elf,
        Err(e) => {
            return Err(BootError::Parse(e.kind));
        },
    };
    let mut memory = memory;
    match elf {
        Elf::Elf32 { bytes: b, header, pheaders, sheaders } => {
            let r = load_segments32(&mut memory, b, &pheaders);
            assert(parsed32(bytes@, header, pheaders@, sheaders@));
            match r {
                Ok(()) => {
                    let mut cpu = Cpu::new(memory);
                    cpu.start(header.e_entry as u64);
                    assert(boot32(m0, bytes@, header, Ok(cpu@.mem)));
                    Ok(cpu)
                },
                Err(e) => {
                    assert(boot32(m0, bytes@, header, Err(e)));
                    Err(BootError::Load(e))
                },
            }
        },
        Elf::Elf64 { bytes: b, header, pheaders, sheaders } => {
            let r = load_segments64(&mut memory, b, &pheaders);
            assert(parsed64(bytes@, header, pheaders@, sheaders@));
            match r {
                Ok(()) => {
                    let mut cpu = Cpu::new(memory);
                    cpu.start(header.e_entry);
                    assert(boot64(m0, bytes@, header, Ok(cpu@.mem)));
                    Ok(cpu)
                },
                Err(e) => {
                    assert(boot64(m0, bytes@, header, Err(e)));
                    Err(BootError::Load(e))
                },
            }
        },
    }
}

} // verus!
