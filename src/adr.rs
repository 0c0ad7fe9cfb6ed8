//! Byte-addressable stores: what an address space offers to the executor.
use vstd::prelude::*;
use crate::endian::{be128, be128_bytes, be16, be16_bytes, be32, be32_bytes, be64, be64_bytes, le128, le128_bytes, le16, le16_bytes, le32, le32_bytes, le64, le64_bytes};

verus! {

/// Whether `len` bytes at `addr` lie within a store of `size` bytes.
pub open spec fn in_range(addr: u64, len: nat, size: nat) -> bool {
    addr + len <= size
}

/// `s` with the bytes from `addr` on replaced by `data`.
pub open spec fn splice(s: Seq<u8>, addr: int, data: Seq<u8>) -> Seq<u8> {
    s.subrange(0, addr) + data + s.subrange(addr + data.len(), s.len() as int)
}

/// A flat store of bytes, read and written by address.
pub trait Addressable {
    type Error;

    /// The bytes held, by address.
    spec fn contents(&self) -> Seq<u8>;

    /// The error for a read that falls outside the store.
    spec fn read_fault(addr: u64) -> Self::Error;

    /// The error for a write that falls outside the store.
    spec fn write_fault(addr: u64) -> Self::Error;

    fn len(&self) -> (r: usize)
        ensures
            r == self.contents().len(),
    ;

    /// Fills `data` with the bytes at `addr`.
    fn read(&mut self, addr: u64, data: &mut [u8]) -> (r: Result<(), Self::Error>)
        ensures
            final(self).contents() == old(self).contents(),
            final(data)@.len() == old(data)@.len(),
            in_range(addr, old(data)@.len(), old(self).contents().len()) ==> r is Ok && final(data)@
                == old(self).contents().subrange(addr as int, addr + old(data)@.len()),
            !in_range(addr, old(data)@.len(), old(self).contents().len()) ==> r == Err::<
                (),
                Self::Error,
            >(Self::read_fault(addr)) && final(data)@ == old(data)@,
    ;

    /// Stores `data` at `addr`.
    fn write(&mut self, addr: u64, data: &[u8]) -> (r: Result<(), Self::Error>)
        ensures
            in_range(addr, data@.len(), old(self).contents().len()) ==> r is Ok
                && final(self).contents() == splice(old(self).contents(), addr as int, data@),
            !in_range(addr, data@.len(), old(self).contents().len()) ==> r == Err::<
                (),
                Self::Error,
            >(Self::write_fault(addr)) && final(self).contents() == old(self).contents(),
    ;

    /// Reads 1 byte at `addr`.
    fn read_u8(&mut self, addr: u64) -> (r: Result<u8, Self::Error>)
        ensures
            final(self).contents() == old(self).contents(),
            match r {
                Ok(v) => in_range(addr, 1, old(self).contents().len()) && v == old(self).contents()[addr as int],
                Err(e) => !in_range(addr, 1, old(self).contents().len()) && e == Self::read_fault(addr),
            },
    {
        let mut buf = [0u8; 1];
        match self.read(addr, &mut buf) {
            Ok(()) => Ok(buf[0]),
            Err(e) => Err(e),
        }
    }

    /// Reads 2 bytes at `addr` as a big-endian value.
    fn read_u16_be(&mut self, addr: u64) -> (r: Result<u16, Self::Error>)
        ensures
            final(self).contents() == old(self).contents(),
            match r {
                Ok(v) => in_range(addr, 2, old(self).contents().len()) && v == be16(old(self).contents().subrange(addr as int, addr + 2)),
                Err(e) => !in_range(addr, 2, old(self).contents().len()) && e == Self::read_fault(addr),
            },
    {
        let mut buf = [0u8; 2];
        match self.read(addr, &mut buf) {
            Ok(()) => Ok((buf[1] as u16) | ((buf[0] as u16) << 8)),
            Err(e) => Err(e),
        }
    }

    /// Reads 2 bytes at `addr` as a little-endian value.
    fn read_u16_le(&mut self, addr: u64) -> (r: Result<u16, Self::Error>)
        ensures
            final(self).contents() == old(self).contents(),
            match r {
                Ok(v) => in_range(addr, 2, old(self).contents().len()) && v == le16(old(self).contents().subrange(addr as int, addr + 2)),
                Err(e) => !in_range(addr, 2, old(self).contents().len()) && e == Self::read_fault(addr),
            },
    {
        let mut buf = [0u8; 2];
        match self.read(addr, &mut buf) {
            Ok(()) => Ok((buf[0] as u16) | ((buf[1] as u16) << 8)),
            Err(e) => Err(e),
        }
    }

    /// Reads 4 bytes at `addr` as a big-endian value.
    fn read_u32_be(&mut self, addr: u64) -> (r: Result<u32, Self::Error>)
        ensures
            final(self).contents() == old(self).contents(),
            match r {
                Ok(v) => in_range(addr, 4, old(self).contents().len()) && v == be32(old(self).contents().subrange(addr as int, addr + 4)),
                Err(e) => !in_range(addr, 4, old(self).contents().len()) && e == Self::read_fault(addr),
            },
    {
        let mut buf = [0u8; 4];
        match self.read(addr, &mut buf) {
            Ok(()) => Ok((buf[3] as u32) | ((buf[2] as u32) << 8) | ((buf[1] as u32) << 16) | ((buf[0] as u32) << 24)),
            Err(e) => Err(e),
        }
    }

    /// Reads 4 bytes at `addr` as a little-endian value.
    fn read_u32_le(&mut self, addr: u64) -> (r: Result<u32, Self::Error>)
        ensures
            final(self).contents() == old(self).contents(),
            match r {
                Ok(v) => in_range(addr, 4, old(self).contents().len()) && v == le32(old(self).contents().subrange(addr as int, addr + 4)),
                Err(e) => !in_range(addr, 4, old(self).contents().len()) && e == Self::read_fault(addr),
            },
    {
        let mut buf = [0u8; 4];
        match self.read(addr, &mut buf) {
            Ok(()) => Ok((buf[0] as u32) | ((buf[1] as u32) << 8) | ((buf[2] as u32) << 16) | ((buf[3] as u32) << 24)),
            Err(e) => Err(e),
        }
    }

    /// Reads 8 bytes at `addr` as a big-endian value.
    fn read_u64_be(&mut self, addr: u64) -> (r: Result<u64, Self::Error>)
        ensures
            final(self).contents() == old(self).contents(),
            match r {
                Ok(v) => in_range(addr, 8, old(self).contents().len()) && v == be64(old(self).contents().subrange(addr as int, addr + 8)),
                Err(e) => !in_range(addr, 8, old(self).contents().len()) && e == Self::read_fault(addr),
            },
    {
        let mut buf = [0u8; 8];
        match self.read(addr, &mut buf) {
            Ok(()) => Ok((buf[7] as u64) | ((buf[6] as u64) << 8) | ((buf[5] as u64) << 16) | ((buf[4] as u64) << 24) | ((buf[3] as u64) << 32) | ((buf[2] as u64) << 40) | ((buf[1] as u64) << 48) | ((buf[0] as u64) << 56)),
            Err(e) => Err(e),
        }
    }

    /// Reads 8 bytes at `addr` as a little-endian value.
    fn read_u64_le(&mut self, addr: u64) -> (r: Result<u64, Self::Error>)
        ensures
            final(self).contents() == old(self).contents(),
            match r {
                Ok(v) => in_range(addr, 8, old(self).contents().len()) && v == le64(old(self).contents().subrange(addr as int, addr + 8)),
                Err(e) => !in_range(addr, 8, old(self).contents().len()) && e == Self::read_fault(addr),
            },
    {
        let mut buf = [0u8; 8];
        match self.read(addr, &mut buf) {
            Ok(()) => Ok((buf[0] as u64) | ((buf[1] as u64) << 8) | ((buf[2] as u64) << 16) | ((buf[3] as u64) << 24) | ((buf[4] as u64) << 32) | ((buf[5] as u64) << 40) | ((buf[6] as u64) << 48) | ((buf[7] as u64) << 56)),
            Err(e) => Err(e),
        }
    }

    /// Reads 16 bytes at `addr` as a big-endian value.
    fn read_u128_be(&mut self, addr: u64) -> (r: Result<u128, Self::Error>)
        ensures
            final(self).contents() == old(self).contents(),
            match r {
                Ok(v) => in_range(addr, 16, old(self).contents().len()) && v == be128(old(self).contents().subrange(addr as int, addr + 16)),
                Err(e) => !in_range(addr, 16, old(self).contents().len()) && e == Self::read_fault(addr),
            },
    {
        let mut buf = [0u8; 16];
        match self.read(addr, &mut buf) {
            Ok(()) => Ok((buf[15] as u128) | ((buf[14] as u128) << 8) | ((buf[13] as u128) << 16) | ((buf[12] as u128) << 24) | ((buf[11] as u128) << 32) | ((buf[10] as u128) << 40) | ((buf[9] as u128) << 48) | ((buf[8] as u128) << 56) | ((buf[7] as u128) << 64) | ((buf[6] as u128) << 72) | ((buf[5] as u128) << 80) | ((buf[4] as u128) << 88) | ((buf[3] as u128) << 96) | ((buf[2] as u128) << 104) | ((buf[1] as u128) << 112) | ((buf[0] as u128) << 120)),
            Err(e) => Err(e),
        }
    }

    /// Reads 16 bytes at `addr` as a little-endian value.
    fn read_u128_le(&mut self, addr: u64) -> (r: Result<u128, Self::Error>)
        ensures
            final(self).contents() == old(self).contents(),
            match r {
                Ok(v) => in_range(addr, 16, old(self).contents().len()) && v == le128(old(self).contents().subrange(addr as int, addr + 16)),
                Err(e) => !in_range(addr, 16, old(self).contents().len()) && e == Self::read_fault(addr),
            },
    {
        let mut buf = [0u8; 16];
        match self.read(addr, &mut buf) {
            Ok(()) => Ok((buf[0] as u128) | ((buf[1] as u128) << 8) | ((buf[2] as u128) << 16) | ((buf[3] as u128) << 24) | ((buf[4] as u128) << 32) | ((buf[5] as u128) << 40) | ((buf[6] as u128) << 48) | ((buf[7] as u128) << 56) | ((buf[8] as u128) << 64) | ((buf[9] as u128) << 72) | ((buf[10] as u128) << 80) | ((buf[11] as u128) << 88) | ((buf[12] as u128) << 96) | ((buf[13] as u128) << 104) | ((buf[14] as u128) << 112) | ((buf[15] as u128) << 120)),
            Err(e) => Err(e),
        }
    }

    /// Writes `value` at `addr`.
    fn write_u8(&mut self, addr: u64, value: u8) -> (r: Result<(), Self::Error>)
        ensures
            in_range(addr, 1, old(self).contents().len()) ==> r is Ok && final(self).contents()
                == splice(old(self).contents(), addr as int, seq![value]),
            !in_range(addr, 1, old(self).contents().len()) ==> r == Err::<(), Self::Error>(
                Self::write_fault(addr),
            ) && final(self).contents() == old(self).contents(),
    {
        let buf = [value];
        proof {
            assert(buf@ =~= seq![value]);
        }
        self.write(addr, &buf)
    }

    /// Writes `value` at `addr` in big-endian byte order.
    fn write_u16_be(&mut self, addr: u64, value: u16) -> (r: Result<(), Self::Error>)
        ensures
            in_range(addr, 2, old(self).contents().len()) ==> r is Ok && final(self).contents()
                == splice(old(self).contents(), addr as int, be16_bytes(value)),
            !in_range(addr, 2, old(self).contents().len()) ==> r == Err::<(), Self::Error>(
                Self::write_fault(addr),
            ) && final(self).contents() == old(self).contents(),
    {
        let buf = [(value >> 8) as u8, value as u8];
        proof {
            assert(buf@ =~= be16_bytes(value));
        }
        self.write(addr, &buf)
    }

    /// Writes `value` at `addr` in little-endian byte order.
    fn write_u16_le(&mut self, addr: u64, value: u16) -> (r: Result<(), Self::Error>)
        ensures
            in_range(addr, 2, old(self).contents().len()) ==> r is Ok && final(self).contents()
                == splice(old(self).contents(), addr as int, le16_bytes(value)),
            !in_range(addr, 2, old(self).contents().len()) ==> r == Err::<(), Self::Error>(
                Self::write_fault(addr),
            ) && final(self).contents() == old(self).contents(),
    {
        let buf = [value as u8, (value >> 8) as u8];
        proof {
            assert(buf@ =~= le16_bytes(value));
        }
        self.write(addr, &buf)
    }

    /// Writes `value` at `addr` in big-endian byte order.
    fn write_u32_be(&mut self, addr: u64, value: u32) -> (r: Result<(), Self::Error>)
        ensures
            in_range(addr, 4, old(self).contents().len()) ==> r is Ok && final(self).contents()
                == splice(old(self).contents(), addr as int, be32_bytes(value)),
            !in_range(addr, 4, old(self).contents().len()) ==> r == Err::<(), Self::Error>(
                Self::write_fault(addr),
            ) && final(self).contents() == old(self).contents(),
    {
        let buf = [(value >> 24) as u8, (value >> 16) as u8, (value >> 8) as u8, value as u8];
        proof {
            assert(buf@ =~= be32_bytes(value));
        }
        self.write(addr, &buf)
    }

    /// Writes `value` at `addr` in little-endian byte order.
    fn write_u32_le(&mut self, addr: u64, value: u32) -> (r: Result<(), Self::Error>)
        ensures
            in_range(addr, 4, old(self).contents().len()) ==> r is Ok && final(self).contents()
                == splice(old(self).contents(), addr as int, le32_bytes(value)),
            !in_range(addr, 4, old(self).contents().len()) ==> r == Err::<(), Self::Error>(
                Self::write_fault(addr),
            ) && final(self).contents() == old(self).contents(),
    {
        let buf = [value as u8, (value >> 8) as u8, (value >> 16) as u8, (value >> 24) as u8];
        proof {
            assert(buf@ =~= le32_bytes(value));
        }
        self.write(addr, &buf)
    }

    /// Writes `value` at `addr` in big-endian byte order.
    fn write_u64_be(&mut self, addr: u64, value: u64) -> (r: Result<(), Self::Error>)
        ensures
            in_range(addr, 8, old(self).contents().len()) ==> r is Ok && final(self).contents()
                == splice(old(self).contents(), addr as int, be64_bytes(value)),
            !in_range(addr, 8, old(self).contents().len()) ==> r == Err::<(), Self::Error>(
                Self::write_fault(addr),
            ) && final(self).contents() == old(self).contents(),
    {
        let buf = [(value >> 56) as u8, (value >> 48) as u8, (value >> 40) as u8, (value >> 32) as u8, (value >> 24) as u8, (value >> 16) as u8, (value >> 8) as u8, value as u8];
        proof {
            assert(buf@ =~= be64_bytes(value));
        }
        self.write(addr, &buf)
    }

    /// Writes `value` at `addr` in little-endian byte order.
    fn write_u64_le(&mut self, addr: u64, value: u64) -> (r: Result<(), Self::Error>)
        ensures
            in_range(addr, 8, old(self).contents().len()) ==> r is Ok && final(self).contents()
                == splice(old(self).contents(), addr as int, le64_bytes(value)),
            !in_range(addr, 8, old(self).contents().len()) ==> r == Err::<(), Self::Error>(
                Self::write_fault(addr),
            ) && final(self).contents() == old(self).contents(),
    {
        let buf = [value as u8, (value >> 8) as u8, (value >> 16) as u8, (value >> 24) as u8, (value >> 32) as u8, (value >> 40) as u8, (value >> 48) as u8, (value >> 56) as u8];
        proof {
            assert(buf@ =~= le64_bytes(value));
        }
        self.write(addr, &buf)
    }

    /// Writes `value` at `addr` in big-endian byte order.
    fn write_u128_be(&mut self, addr: u64, value: u128) -> (r: Result<(), Self::Error>)
        ensures
            in_range(addr, 16, old(self).contents().len()) ==> r is Ok && final(self).contents()
                == splice(old(self).contents(), addr as int, be128_bytes(value)),
            !in_range(addr, 16, old(self).contents().len()) ==> r == Err::<(), Self::Error>(
                Self::write_fault(addr),
            ) && final(self).contents() == old(self).contents(),
    {
        let buf = [(value >> 120) as u8, (value >> 112) as u8, (value >> 104) as u8, (value >> 96) as u8, (value >> 88) as u8, (value >> 80) as u8, (value >> 72) as u8, (value >> 64) as u8, (value >> 56) as u8, (value >> 48) as u8, (value >> 40) as u8, (value >> 32) as u8, (value >> 24) as u8, (value >> 16) as u8, (value >> 8) as u8, value as u8];
        proof {
            assert(buf@ =~= be128_bytes(value));
        }
        self.write(addr, &buf)
    }

    /// Writes `value` at `addr` in little-endian byte order.
    fn write_u128_le(&mut self, addr: u64, value: u128) -> (r: Result<(), Self::Error>)
        ensures
            in_range(addr, 16, old(self).contents().len()) ==> r is Ok && final(self).contents()
                == splice(old(self).contents(), addr as int, le128_bytes(value)),
            !in_range(addr, 16, old(self).contents().len()) ==> r == Err::<(), Self::Error>(
                Self::write_fault(addr),
            ) && final(self).contents() == old(self).contents(),
    {
        let buf = [value as u8, (value >> 8) as u8, (value >> 16) as u8, (value >> 24) as u8, (value >> 32) as u8, (value >> 40) as u8, (value >> 48) as u8, (value >> 56) as u8, (value >> 64) as u8, (value >> 72) as u8, (value >> 80) as u8, (value >> 88) as u8, (value >> 96) as u8, (value >> 104) as u8, (value >> 112) as u8, (value >> 120) as u8];
        proof {
            assert(buf@ =~= le128_bytes(value));
        }
        self.write(addr, &buf)
    }
}

} // verus!
