//! The ELF file header: the identifier shared by both classes and the
//! class-specific header layouts.
use vstd::prelude::*;
use vstd::slice::slice_subrange;

pub mod elf32;
pub mod elf64;

verus! {

/// Index of the first magic byte (`0x7f`).
pub const EI_MAG0: usize = 0;

/// Index of the second magic byte (`'E'`).
pub const EI_MAG1: usize = 1;

/// Index of the third magic byte (`'L'`).
pub const EI_MAG2: usize = 2;

/// Index of the fourth magic byte (`'F'`).
pub const EI_MAG3: usize = 3;

/// Index of the class byte: 32- or 64-bit format.
pub const EI_CLASS: usize = 4;

/// Index of the data byte: little or big endianness.
pub const EI_DATA: usize = 5;

/// Index of the ELF version byte.
pub const EI_VERSION: usize = 6;

/// Index of the target operating system ABI byte.
pub const EI_OSABI: usize = 7;

/// Index of the ABI version byte.
pub const EI_ABIVERSION: usize = 8;

/// Index of the first padding byte.
pub const EI_PAD_START: usize = 9;

/// Length of the identifier.
pub const EI_NIDENT: usize = 16;

/// Class byte of the 32-bit format.
pub const EI_CLASS_32: u8 = 1;

/// Class byte of the 64-bit format.
pub const EI_CLASS_64: u8 = 2;

/// The current ELF version, the only one defined.
pub const EI_VERSION_CURRENT: u32 = 1;

/// Object file type: no file type.
pub const E_TYPE_ET_NONE: u16 = 0x0000;

/// Object file type: relocatable file.
pub const E_TYPE_ET_REL: u16 = 0x0001;

/// Object file type: executable file.
pub const E_TYPE_ET_EXEC: u16 = 0x0002;

/// Object file type: shared object.
pub const E_TYPE_ET_DYN: u16 = 0x0003;

/// Object file type: core file.
pub const E_TYPE_ET_CORE: u16 = 0x0004;

/// Object file type: start of the operating system specific range.
pub const E_TYPE_ET_LOOS: u16 = 0xfe00;

/// Object file type: end of the operating system specific range.
pub const E_TYPE_ET_HIOS: u16 = 0xfeff;

/// Object file type: start of the processor specific range.
pub const E_TYPE_ET_LOPROC: u16 = 0xff00;

/// Object file type: end of the processor specific range.
pub const E_TYPE_ET_HIPROC: u16 = 0xffff;

/// Machine: AMD x86-64.
pub const E_MACHINE_AMD8664: u16 = 0x003e;

/// Machine: RISC-V.
pub const E_MACHINE_RISCV: u16 = 0x00f3;

/// Whether `b` starts with the four magic bytes `7F 45 4C 46`.
pub open spec fn magic_ok(b: Seq<u8>) -> bool {
    b[0] == 0x7f && b[1] == 0x45 && b[2] == 0x4c && b[3] == 0x46
}

/// Why a header of `size` bytes cannot be parsed from `b`, if it cannot.
pub open spec fn header_error(b: Seq<u8>, size: nat) -> Option<crate::error::ErrorKind> {
    if b.len() < size {
        Some(crate::error::ErrorKind::InsufficantSize)
    } else if !magic_ok(b) {
        Some(crate::error::ErrorKind::InvalidMagic)
    } else if !crate::endian::valid_data(b[EI_DATA as int]) {
        Some(crate::error::ErrorKind::UnknownEndianess)
    } else {
        None
    }
}

/// The sixteen identifier bytes at the start of every ELF file.
#[derive(Debug, Clone, Copy, PartialEq, Eq, Hash)]
pub struct Ident(pub [u8; 16]);

impl Ident {
    /// Copies the first sixteen bytes of `b`.
    pub fn from_slice(b: &[u8]) -> (r: Ident)
        requires
            b@.len() >= 16,
        ensures
            r.0@ == b@.subrange(0, 16),
    {
        let mut a = [0u8; 16];
        let mut i: usize = 0;
        while i < 16
            invariant
                0 <= i <= 16,
                b@.len() >= 16,
                forall|k: int| 0 <= k < i ==> a@[k] == b@[k],
            decreases 16 - i,
        {
            a[i] = b[i];
            i += 1;
        }
        assert(a@ =~= b@.subrange(0, 16));
        Ident(a)
    }

    /// The four magic bytes.
    pub fn ei_mag(&self) -> (r: &[u8])
        ensures
            r@ == self.0@.subrange(0, 4),
    {
        slice_subrange(self.0.as_slice(), 0, EI_CLASS)
    }

    pub fn ei_class(&self) -> (r: u8)
        ensures
            r == self.0@[EI_CLASS as int],
    {
        self.0[EI_CLASS]
    }

    pub fn ei_data(&self) -> (r: u8)
        ensures
            r == self.0@[EI_DATA as int],
    {
        self.0[EI_DATA]
    }

    pub fn ei_version(&self) -> (r: u8)
        ensures
            r == self.0@[EI_VERSION as int],
    {
        self.0[EI_VERSION]
    }

    pub fn ei_osabi(&self) -> (r: u8)
        ensures
            r == self.0@[EI_OSABI as int],
    {
        self.0[EI_OSABI]
    }

    pub fn ei_abiversion(&self) -> (r: u8)
        ensures
            r == self.0@[EI_ABIVERSION as int],
    {
        self.0[EI_ABIVERSION]
    }

    /// The seven unused padding bytes.
    pub fn ei_pad(&self) -> (r: &[u8])
        ensures
            r@ == self.0@.subrange(EI_PAD_START as int, 16),
    {
        slice_subrange(self.0.as_slice(), EI_PAD_START, EI_NIDENT)
    }
}

/// Name of a class byte.
pub fn ei_class_as_str(value: u8) -> (r: &'static str)
    ensures
        value == EI_CLASS_32 ==> r@ == "32-bit"@,
        value == EI_CLASS_64 ==> r@ == "64-bit"@,
        value != EI_CLASS_32 && value != EI_CLASS_64 ==> r@ == "UNKNOWN"@,
{
    if value == EI_CLASS_32 {
        "32-bit"
    } else if value == EI_CLASS_64 {
        "64-bit"
    } else {
        "UNKNOWN"
    }
}

/// Name of a data byte.
pub fn ei_data_as_str(value: u8) -> (r: &'static str)
    ensures
        value == crate::endian::EI_DATA_LE ==> r@ == "LE"@,
        value == crate::endian::EI_DATA_BE ==> r@ == "BE"@,
        !crate::endian::valid_data(value) ==> r@ == "UNKNOWN"@,
{
    if value == crate::endian::EI_DATA_LE {
        "LE"
    } else if value == crate::endian::EI_DATA_BE {
        "BE"
    } else {
        "UNKNOWN"
    }
}

/// Name of an object file type.
pub fn e_type_as_str(value: u16) -> (r: &'static str)
    ensures
        value == E_TYPE_ET_NONE ==> r@ == "ET_NONE"@,
        value == E_TYPE_ET_REL ==> r@ == "ET_REL"@,
        value == E_TYPE_ET_EXEC ==> r@ == "ET_EXEC"@,
        value == E_TYPE_ET_DYN ==> r@ == "ET_DYN"@,
        value == E_TYPE_ET_CORE ==> r@ == "ET_CORE"@,
        value == E_TYPE_ET_LOOS ==> r@ == "ET_LOOS"@,
        value == E_TYPE_ET_HIOS ==> r@ == "ET_HIOS"@,
        value == E_TYPE_ET_LOPROC ==> r@ == "ET_LOPROC"@,
        value == E_TYPE_ET_HIPROC ==> r@ == "ET_HIPROC"@,
        E_TYPE_ET_CORE < value < E_TYPE_ET_LOOS || E_TYPE_ET_HIOS < value < E_TYPE_ET_LOPROC
            || E_TYPE_ET_LOPROC < value < E_TYPE_ET_HIPROC ==> r@ == "UNKNOWN"@,
{
    if value == E_TYPE_ET_NONE {
        "ET_NONE"
    } else if value == E_TYPE_ET_REL {
        "ET_REL"
    } else if value == E_TYPE_ET_EXEC {
        "ET_EXEC"
    } else if value == E_TYPE_ET_DYN {
        "ET_DYN"
    } else if value == E_TYPE_ET_CORE {
        "ET_CORE"
    } else if value == E_TYPE_ET_LOOS {
        "ET_LOOS"
    } else if value == E_TYPE_ET_HIOS {
        "ET_HIOS"
    } else if value == E_TYPE_ET_LOPROC {
        "ET_LOPROC"
    } else if value == E_TYPE_ET_HIPROC {
        "ET_HIPROC"
    } else {
        "UNKNOWN"
    }
}

/// OS ABI: System V.
pub const EI_OSABI_SYSTEMV: u8 = 0x00;

/// OS ABI: HP-UX.
pub const EI_OSABI_HPUX: u8 = 0x01;

/// OS ABI: NetBSD.
pub const EI_OSABI_NETBSD: u8 = 0x02;

/// OS ABI: Linux.
pub const EI_OSABI_LINUX: u8 = 0x03;

/// OS ABI: GNU Hurd.
pub const EI_OSABI_GNUHURD: u8 = 0x04;

/// OS ABI: Solaris.
pub const EI_OSABI_SOLARIS: u8 = 0x06;

/// OS ABI: AIX.
pub const EI_OSABI_AIX: u8 = 0x07;

/// OS ABI: IRIX.
pub const EI_OSABI_IRIX: u8 = 0x08;

/// OS ABI: FreeBSD.
pub const EI_OSABI_FREEBSD: u8 = 0x09;

/// OS ABI: Tru64.
pub const EI_OSABI_TRU64: u8 = 0x0a;

/// OS ABI: Novell Modesto.
pub const EI_OSABI_NOVELLMODESTO: u8 = 0x0b;

/// OS ABI: OpenBSD.
pub const EI_OSABI_OPENBSD: u8 = 0x0c;

/// OS ABI: OpenVMS.
pub const EI_OSABI_OPENVMS: u8 = 0x0d;

/// OS ABI: NonStop Kernel.
pub const EI_OSABI_NONSTOPKERNEL: u8 = 0x0e;

/// OS ABI: AROS.
pub const EI_OSABI_AROS: u8 = 0x0f;

/// OS ABI: Fenix OS.
pub const EI_OSABI_FENIXOS: u8 = 0x10;

/// OS ABI: CloudABI.
pub const EI_OSABI_CLOUDABI: u8 = 0x11;

/// OS ABI: Stratus Technologies OpenVOS.
pub const EI_OSABI_OPENVOS: u8 = 0x12;

/// Machine: Unspecified.
pub const E_MACHINE_UNSPECIFIED: u16 = 0x0000;

/// Machine: AT&T WE 32100.
pub const E_MACHINE_ATTWE32100: u16 = 0x0001;

/// Machine: SPARC.
pub const E_MACHINE_SPARC: u16 = 0x0002;

/// Machine: x86.
pub const E_MACHINE_X86: u16 = 0x0003;

/// Machine: Motorola 68000 (M68k).
pub const E_MACHINE_MOTOROLA68000: u16 = 0x0004;

/// Machine: Motorola 88000 (M88k).
pub const E_MACHINE_MOTOROLA88000: u16 = 0x0005;

/// Machine: Intel MCU.
pub const E_MACHINE_INTELMCU: u16 = 0x0006;

/// Machine: Intel 80860.
pub const E_MACHINE_INTEL80860: u16 = 0x0007;

/// Machine: MIPS.
pub const E_MACHINE_MIPS: u16 = 0x0008;

/// Machine: IBM System/370.
pub const E_MACHINE_IBM370: u16 = 0x0009;

/// Machine: MIPS RS3000 Little-endian.
pub const E_MACHINE_MIPSRS3000LE: u16 = 0x000a;

/// Machine: Hewlett-Packard PA-RISC.
pub const E_MACHINE_HPPARISC: u16 = 0x000e;

/// Machine: Intel 80960.
pub const E_MACHINE_INTEL80960: u16 = 0x0013;

/// Machine: PowerPC.
pub const E_MACHINE_POWERPC: u16 = 0x0014;

/// Machine: PowerPC (64-bit).
pub const E_MACHINE_POWERPC64: u16 = 0x0015;

/// Machine: S390, including S390x.
pub const E_MACHINE_S390: u16 = 0x0016;

/// Machine: IBM SPU/SPC.
pub const E_MACHINE_IBMSPUSPC: u16 = 0x0017;

/// Machine: NEC V800.
pub const E_MACHINE_NECV800: u16 = 0x0024;

/// Machine: Fujitsu FR20.
pub const E_MACHINE_FUJITSUFR20: u16 = 0x0025;

/// Machine: TRW RH-32.
pub const E_MACHINE_TRWRH32: u16 = 0x0026;

/// Machine: Motorola RCE.
pub const E_MACHINE_MOTOROLARCE: u16 = 0x0027;

/// Machine: ARM (up to ARMv7/Aarch32).
pub const E_MACHINE_ARM: u16 = 0x0028;

/// Machine: Digital Alpha.
pub const E_MACHINE_DIGITALALPHA: u16 = 0x0029;

/// Machine: SuperH.
pub const E_MACHINE_SUPERH: u16 = 0x002a;

/// Machine: SPARC Version 9.
pub const E_MACHINE_SPARC9: u16 = 0x002b;

/// Machine: Siemens TriCore embedded processor.
pub const E_MACHINE_SIEMENSTRICORE: u16 = 0x002c;

/// Machine: Argonaut RISC Core.
pub const E_MACHINE_ARGONAUTRISCCORE: u16 = 0x002d;

/// Machine: Hitachi H8/300.
pub const E_MACHINE_HITACHIH8300: u16 = 0x002e;

/// Machine: Hitachi H8/300H.
pub const E_MACHINE_HITACHIH8300H: u16 = 0x002f;

/// Machine: Hitachi H8S.
pub const E_MACHINE_HITACHIH8S: u16 = 0x0030;

/// Machine: Hitachi H8/500.
pub const E_MACHINE_HITACHIH8500: u16 = 0x0031;

/// Machine: IA-64.
pub const E_MACHINE_IA64: u16 = 0x0032;

/// Machine: Stanford MIPS-X.
pub const E_MACHINE_STANFORDMIPSX: u16 = 0x0033;

/// Machine: Motorola ColdFire.
pub const E_MACHINE_MOTOROLACOLDFIRE: u16 = 0x0034;

/// Machine: Motorola M68HC12.
pub const E_MACHINE_MOTOROLAM68HC12: u16 = 0x0035;

/// Machine: Fujitsu MMA Multimedia Accelerator.
pub const E_MACHINE_FUJITSUMMA: u16 = 0x0036;

/// Machine: Siemens PCP.
pub const E_MACHINE_SIEMENSPCP: u16 = 0x0037;

/// Machine: Sony nCPU embedded RISC processor.
pub const E_MACHINE_SONYNCPURISC: u16 = 0x0038;

/// Machine: Denso NDR1 microprocessor.
pub const E_MACHINE_DENSONDR1: u16 = 0x0039;

/// Machine: Motorola Star*Core processor.
pub const E_MACHINE_MOTOROLASTARCORE: u16 = 0x003a;

/// Machine: Toyota ME16 processor.
pub const E_MACHINE_TOYOTAME16: u16 = 0x003b;

/// Machine: STMicroelectronics ST100 processor.
pub const E_MACHINE_STMST100: u16 = 0x003c;

/// Machine: Advanced Logic Corp. Tinyj embedded processor family.
pub const E_MACHINE_ALCTINYJ: u16 = 0x003d;

/// Machine: TMS320C6000 Family.
pub const E_MACHINE_TMS320C6000: u16 = 0x008c;

/// Machine: MCST Elbrus e2k.
pub const E_MACHINE_MCSTELBRUSE2K: u16 = 0x00af;

/// Machine: ARM 64-bits (ARMv8/Aarch64).
pub const E_MACHINE_ARM64: u16 = 0x00b7;

/// Machine: Berkeley Packet Filter.
pub const E_MACHINE_BPF: u16 = 0x00f7;

/// Machine: WDC 65C816.
pub const E_MACHINE_WDC65C816: u16 = 0x0101;

/// Name of a value of this field.
pub fn ei_osabi_as_str(value: u8) -> (r: &'static str)
    ensures
        value == EI_OSABI_SYSTEMV ==> r@ == "System V"@,
        value == EI_OSABI_HPUX ==> r@ == "HP-UX"@,
        value == EI_OSABI_NETBSD ==> r@ == "NetBSD"@,
        value == EI_OSABI_LINUX ==> r@ == "Linux"@,
        value == EI_OSABI_GNUHURD ==> r@ == "GNU Hurd"@,
        value == EI_OSABI_SOLARIS ==> r@ == "Solaris"@,
        value == EI_OSABI_AIX ==> r@ == "AIX"@,
        value == EI_OSABI_IRIX ==> r@ == "IRIX"@,
        value == EI_OSABI_FREEBSD ==> r@ == "FreeBSD"@,
        value == EI_OSABI_TRU64 ==> r@ == "Tru64"@,
        value == EI_OSABI_NOVELLMODESTO ==> r@ == "Novell Modesto"@,
        value == EI_OSABI_OPENBSD ==> r@ == "OpenBSD"@,
        value == EI_OSABI_OPENVMS ==> r@ == "OpenVMS"@,
        value == EI_OSABI_NONSTOPKERNEL ==> r@ == "NonStop Kernel"@,
        value == EI_OSABI_AROS ==> r@ == "AROS"@,
        value == EI_OSABI_FENIXOS ==> r@ == "Fenix OS"@,
        value == EI_OSABI_CLOUDABI ==> r@ == "CloudABI"@,
        value == EI_OSABI_OPENVOS ==> r@ == "Stratus Technologies OpenVOS"@,
{
    if value == EI_OSABI_SYSTEMV {
        "System V"
    } else if value == EI_OSABI_HPUX {
        "HP-UX"
    } else if value == EI_OSABI_NETBSD {
        "NetBSD"
    } else if value == EI_OSABI_LINUX {
        "Linux"
    } else if value == EI_OSABI_GNUHURD {
        "GNU Hurd"
    } else if value == EI_OSABI_SOLARIS {
        "Solaris"
    } else if value == EI_OSABI_AIX {
        "AIX"
    } else if value == EI_OSABI_IRIX {
        "IRIX"
    } else if value == EI_OSABI_FREEBSD {
        "FreeBSD"
    } else if value == EI_OSABI_TRU64 {
        "Tru64"
    } else if value == EI_OSABI_NOVELLMODESTO {
        "Novell Modesto"
    } else if value == EI_OSABI_OPENBSD {
        "OpenBSD"
    } else if value == EI_OSABI_OPENVMS {
        "OpenVMS"
    } else if value == EI_OSABI_NONSTOPKERNEL {
        "NonStop Kernel"
    } else if value == EI_OSABI_AROS {
        "AROS"
    } else if value == EI_OSABI_FENIXOS {
        "Fenix OS"
    } else if value == EI_OSABI_CLOUDABI {
        "CloudABI"
    } else if value == EI_OSABI_OPENVOS {
        "Stratus Technologies OpenVOS"
    } else {
        "UNKNOWN"
    }
}

/// Name of a value of this field.
pub fn e_machine_as_str(value: u16) -> (r: &'static str)
    ensures
        value == E_MACHINE_UNSPECIFIED ==> r@ == "Unspecified"@,
        value == E_MACHINE_ATTWE32100 ==> r@ == "AT&T WE 32100"@,
        value == E_MACHINE_SPARC ==> r@ == "SPARC"@,
        value == E_MACHINE_X86 ==> r@ == "x86"@,
        value == E_MACHINE_MOTOROLA68000 ==> r@ == "Motorola 68000 (M68k)"@,
        value == E_MACHINE_MOTOROLA88000 ==> r@ == "Motorola 88000 (M88k)"@,
        value == E_MACHINE_INTELMCU ==> r@ == "Intel MCU"@,
        value == E_MACHINE_INTEL80860 ==> r@ == "Intel 80860"@,
        value == E_MACHINE_MIPS ==> r@ == "MIPS"@,
        value == E_MACHINE_IBM370 ==> r@ == "IBM System/370"@,
        value == E_MACHINE_MIPSRS3000LE ==> r@ == "MIPS RS3000 Little-endian"@,
        value == E_MACHINE_HPPARISC ==> r@ == "Hewlett-Packard PA-RISC"@,
        value == E_MACHINE_INTEL80960 ==> r@ == "Intel 80960"@,
        value == E_MACHINE_POWERPC ==> r@ == "PowerPC"@,
        value == E_MACHINE_POWERPC64 ==> r@ == "PowerPC (64-bit)"@,
        value == E_MACHINE_S390 ==> r@ == "S390, including S390x"@,
        value == E_MACHINE_IBMSPUSPC ==> r@ == "IBM SPU/SPC"@,
        value == E_MACHINE_NECV800 ==> r@ == "NEC V800"@,
        value == E_MACHINE_FUJITSUFR20 ==> r@ == "Fujitsu FR20"@,
        value == E_MACHINE_TRWRH32 ==> r@ == "TRW RH-32"@,
        value == E_MACHINE_MOTOROLARCE ==> r@ == "Motorola RCE"@,
        value == E_MACHINE_ARM ==> r@ == "ARM (up to ARMv7/Aarch32)"@,
        value == E_MACHINE_DIGITALALPHA ==> r@ == "Digital Alpha"@,
        value == E_MACHINE_SUPERH ==> r@ == "SuperH"@,
        value == E_MACHINE_SPARC9 ==> r@ == "SPARC Version 9"@,
        value == E_MACHINE_SIEMENSTRICORE ==> r@ == "Siemens TriCore embedded processor"@,
        value == E_MACHINE_ARGONAUTRISCCORE ==> r@ == "Argonaut RISC Core"@,
        value == E_MACHINE_HITACHIH8300 ==> r@ == "Hitachi H8/300"@,
        value == E_MACHINE_HITACHIH8300H ==> r@ == "Hitachi H8/300H"@,
        value == E_MACHINE_HITACHIH8S ==> r@ == "Hitachi H8S"@,
        value == E_MACHINE_HITACHIH8500 ==> r@ == "Hitachi H8/500"@,
        value == E_MACHINE_IA64 ==> r@ == "IA-64"@,
        value == E_MACHINE_STANFORDMIPSX ==> r@ == "Stanford MIPS-X"@,
        value == E_MACHINE_MOTOROLACOLDFIRE ==> r@ == "Motorola ColdFire"@,
        value == E_MACHINE_MOTOROLAM68HC12 ==> r@ == "Motorola M68HC12"@,
        value == E_MACHINE_FUJITSUMMA ==> r@ == "Fujitsu MMA Multimedia Accelerator"@,
        value == E_MACHINE_SIEMENSPCP ==> r@ == "Siemens PCP"@,
        value == E_MACHINE_SONYNCPURISC ==> r@ == "Sony nCPU embedded RISC processor"@,
        value == E_MACHINE_DENSONDR1 ==> r@ == "Denso NDR1 microprocessor"@,
        value == E_MACHINE_MOTOROLASTARCORE ==> r@ == "Motorola Star*Core processor"@,
        value == E_MACHINE_TOYOTAME16 ==> r@ == "Toyota ME16 processor"@,
        value == E_MACHINE_STMST100 ==> r@ == "STMicroelectronics ST100 processor"@,
        value == E_MACHINE_ALCTINYJ ==> r@ == "Advanced Logic Corp. Tinyj embedded processor family"@,
        value == E_MACHINE_AMD8664 ==> r@ == "AMD x86-64"@,
        value == E_MACHINE_TMS320C6000 ==> r@ == "TMS320C6000 Family"@,
        value == E_MACHINE_MCSTELBRUSE2K ==> r@ == "MCST Elbrus e2k"@,
        value == E_MACHINE_ARM64 ==> r@ == "ARM 64-bits (ARMv8/Aarch64)"@,
        value == E_MACHINE_RISCV ==> r@ == "RISC-V"@,
        value == E_MACHINE_BPF ==> r@ == "Berkeley Packet Filter"@,
        value == E_MACHINE_WDC65C816 ==> r@ == "WDC 65C816"@,
        0x0b <= value <= 0x0d ==> r@ == "RESERVED"@,
        0x18 <= value <= 0x23 ==> r@ == "RESERVED"@,
{
    if value == E_MACHINE_UNSPECIFIED {
        "Unspecified"
    } else if value == E_MACHINE_ATTWE32100 {
        "AT&T WE 32100"
    } else if value == E_MACHINE_SPARC {
        "SPARC"
    } else if value == E_MACHINE_X86 {
        "x86"
    } else if value == E_MACHINE_MOTOROLA68000 {
        "Motorola 68000 (M68k)"
    } else if value == E_MACHINE_MOTOROLA88000 {
        "Motorola 88000 (M88k)"
    } else if value == E_MACHINE_INTELMCU {
        "Intel MCU"
    } else if value == E_MACHINE_INTEL80860 {
        "Intel 80860"
    } else if value == E_MACHINE_MIPS {
        "MIPS"
    } else if value == E_MACHINE_IBM370 {
        "IBM System/370"
    } else if value == E_MACHINE_MIPSRS3000LE {
        "MIPS RS3000 Little-endian"
    } else if value == E_MACHINE_HPPARISC {
        "Hewlett-Packard PA-RISC"
    } else if value == E_MACHINE_INTEL80960 {
        "Intel 80960"
    } else if value == E_MACHINE_POWERPC {
        "PowerPC"
    } else if value == E_MACHINE_POWERPC64 {
        "PowerPC (64-bit)"
    } else if value == E_MACHINE_S390 {
        "S390, including S390x"
    } else if value == E_MACHINE_IBMSPUSPC {
        "IBM SPU/SPC"
    } else if value == E_MACHINE_NECV800 {
        "NEC V800"
    } else if value == E_MACHINE_FUJITSUFR20 {
        "Fujitsu FR20"
    } else if value == E_MACHINE_TRWRH32 {
        "TRW RH-32"
    } else if value == E_MACHINE_MOTOROLARCE {
        "Motorola RCE"
    } else if value == E_MACHINE_ARM {
        "ARM (up to ARMv7/Aarch32)"
    } else if value == E_MACHINE_DIGITALALPHA {
        "Digital Alpha"
    } else if value == E_MACHINE_SUPERH {
        "SuperH"
    } else if value == E_MACHINE_SPARC9 {
        "SPARC Version 9"
    } else if value == E_MACHINE_SIEMENSTRICORE {
        "Siemens TriCore embedded processor"
    } else if value == E_MACHINE_ARGONAUTRISCCORE {
        "Argonaut RISC Core"
    } else if value == E_MACHINE_HITACHIH8300 {
        "Hitachi H8/300"
    } else if value == E_MACHINE_HITACHIH8300H {
        "Hitachi H8/300H"
    } else if value == E_MACHINE_HITACHIH8S {
        "Hitachi H8S"
    } else if value == E_MACHINE_HITACHIH8500 {
        "Hitachi H8/500"
    } else if value == E_MACHINE_IA64 {
        "IA-64"
    } else if value == E_MACHINE_STANFORDMIPSX {
        "Stanford MIPS-X"
    } else if value == E_MACHINE_MOTOROLACOLDFIRE {
        "Motorola ColdFire"
    } else if value == E_MACHINE_MOTOROLAM68HC12 {
        "Motorola M68HC12"
    } else if value == E_MACHINE_FUJITSUMMA {
        "Fujitsu MMA Multimedia Accelerator"
    } else if value == E_MACHINE_SIEMENSPCP {
        "Siemens PCP"
    } else if value == E_MACHINE_SONYNCPURISC {
        "Sony nCPU embedded RISC processor"
    } else if value == E_MACHINE_DENSONDR1 {
        "Denso NDR1 microprocessor"
    } else if value == E_MACHINE_MOTOROLASTARCORE {
        "Motorola Star*Core processor"
    } else if value == E_MACHINE_TOYOTAME16 {
        "Toyota ME16 processor"
    } else if value == E_MACHINE_STMST100 {
        "STMicroelectronics ST100 processor"
    } else if value == E_MACHINE_ALCTINYJ {
        "Advanced Logic Corp. Tinyj embedded processor family"
    } else if value == E_MACHINE_AMD8664 {
        "AMD x86-64"
    } else if value == E_MACHINE_TMS320C6000 {
        "TMS320C6000 Family"
    } else if value == E_MACHINE_MCSTELBRUSE2K {
        "MCST Elbrus e2k"
    } else if value == E_MACHINE_ARM64 {
        "ARM 64-bits (ARMv8/Aarch64)"
    } else if value == E_MACHINE_RISCV {
        "RISC-V"
    } else if value == E_MACHINE_BPF {
        "Berkeley Packet Filter"
    } else if value == E_MACHINE_WDC65C816 {
        "WDC 65C816"
    } else if 0x0b <= value && value <= 0x0d {
        "RESERVED"
    } else if 0x18 <= value && value <= 0x23 {
        "RESERVED"
    } else {
        "UNKNOWN"
    }
}

} // verus!
