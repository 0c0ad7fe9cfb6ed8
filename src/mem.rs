//! Main memory and the memory management unit in front of it.
use vstd::prelude::*;
use crate::adr::{in_range, splice, Addressable};
use crate::tra::{Trap, TrapKind};

verus! {

/// Why a memory access failed.
#[derive(Debug, Clone, Copy, PartialEq, Eq, Hash, Structural)]
pub enum MemoryError {
    /// The access reaches past the end of memory.
    OutOfRange,
}

/// Flat byte-addressable memory. It does not grow: accesses past its end
/// fail.
#[derive(Debug)]
pub struct Memory(pub Vec<u8>);

impl Memory {
    pub fn new(bytes: Vec<u8>) -> (r: Memory)
        ensures
            r.0@ == bytes@,
    {
        Memory(bytes)
    }
}

impl Default for Memory {
    fn default() -> (r: Memory)
        ensures
            r.0@.len() == 0,
    {
        Memory(Vec::new())
    }
}

impl Addressable for Memory {
    type Error = MemoryError;

    open spec fn contents(&self) -> Seq<u8> {
        self.0@
    }

    open spec fn read_fault(addr: u64) -> MemoryError {
        MemoryError::OutOfRange
    }

    open spec fn write_fault(addr: u64) -> MemoryError {
        MemoryError::OutOfRange
    }

    fn len(&self) -> (r: usize) {
        self.0.len()
    }

    fn read(&mut self, addr: u64, data: &mut [u8]) -> (r: Result<(), MemoryError>) {
        let size = self.0.len();
        let n = data.len();
        if addr as u128 + n as u128 > size as u128 {
            return Err(MemoryError::OutOfRange);
        }
        let start = addr as usize;
        let mut i: usize = 0;
        while i < n
            invariant
                size == self.0@.len(),
                n == data@.len(),
                start == addr,
                start + n <= size,
                0 <= i <= n,
                forall|k: int| 0 <= k < i ==> data@[k] == self.0@[start + k],
            decreases n - i,
        {
            data[i] = self.0[start + i];
            i += 1;
        }
        assert(data@ =~= self.0@.subrange(addr as int, addr + n));
        Ok(())
    }

    fn write(&mut self, addr: u64, data: &[u8]) -> (r: Result<(), MemoryError>) {
        let size = self.0.len();
        let n = data.len();
        if addr as u128 + n as u128 > size as u128 {
            return Err(MemoryError::OutOfRange);
        }
        let start = addr as usize;
        let ghost before = self.0@;
        let mut i: usize = 0;
        while i < n
            invariant
                size == self.0@.len(),
                before.len() == size,
                n == data@.len(),
                start == addr,
                start + n <= size,
                0 <= i <= n,
                forall|k: int| 0 <= k < size && !(start <= k < start + i) ==> self.0@[k] == before[k],
                forall|k: int| start <= k < start + i ==> self.0@[k] == data@[k - start],
            decreases n - i,
        {
            self.0.set(start + i, data[i]);
            i += 1;
        }
        assert(self.0@ =~= splice(before, addr as int, data@));
        Ok(())
    }
}

/// The memory management unit: a single-hart pass-through to memory that
/// reports failed accesses as traps.
#[derive(Debug)]
pub struct MemoryManagementUnit {
    pub memory: Memory,
}

impl Default for MemoryManagementUnit {
    fn default() -> (r: MemoryManagementUnit)
        ensures
            r.memory.0@.len() == 0,
    {
        MemoryManagementUnit { memory: Memory::default() }
    }
}

impl MemoryManagementUnit {
    /// Advances the unit by one cycle; it keeps no timing state, so nothing
    /// changes.
    pub fn tick(&mut self)
        ensures
            final(self).memory.0@ == old(self).memory.0@,
    {
    }
}

impl Addressable for MemoryManagementUnit {
    type Error = Trap;

    open spec fn contents(&self) -> Seq<u8> {
        self.memory.0@
    }

    open spec fn read_fault(addr: u64) -> Trap {
        Trap { kind: TrapKind::LoadAccessFault, pc: 0, value: addr }
    }

    open spec fn write_fault(addr: u64) -> Trap {
        Trap { kind: TrapKind::StoreAccessFault, pc: 0, value: addr }
    }

    fn len(&self) -> (r: usize) {
        self.memory.len()
    }

    fn read(&mut self, addr: u64, data: &mut [u8]) -> (r: Result<(), Trap>) {
        match self.memory.read(addr, data) {
            Ok(()) => Ok(()),
            Err(_) => Err(Trap::new(TrapKind::LoadAccessFault, 0, addr)),
        }
    }

    fn write(&mut self, addr: u64, data: &[u8]) -> (r: Result<(), Trap>) {
        match self.memory.write(addr, data) {
            Ok(()) => Ok(()),
            Err(_) => Err(Trap::new(TrapKind::StoreAccessFault, 0, addr)),
        }
    }
}

} // verus!
