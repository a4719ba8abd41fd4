use vstd::prelude::*;
use crate::memory::{load, store, valid_size, lemma_load_store, pow256, Memory};
use crate::types::{Exception, MEMORY_BASE};

verus! {

/// Whether the `size` bytes at `addr` lie inside a memory of `len` bytes mapped at
/// `MEMORY_BASE`.
pub open spec fn mapped(len: nat, addr: u64, size: u64) -> bool {
    addr >= MEMORY_BASE && (addr - MEMORY_BASE) + size <= len
}

/// What a read of `size` bytes at `addr` yields on memory contents `mem`.
pub open spec fn bus_read(mem: Seq<u8>, addr: u64, size: u64) -> Result<u64, Exception> {
    if mapped(mem.len(), addr, size) {
        Ok(load(mem, addr - MEMORY_BASE, size as nat) as u64)
    } else {
        Err(Exception::InvalidMemoryAccess(addr))
    }
}

/// The memory contents after a write of the `size` low bytes of `value` at `addr`, or
/// the fault it raises.
pub open spec fn bus_write(mem: Seq<u8>, addr: u64, value: u64, size: u64) -> Result<Seq<u8>, Exception> {
    if mapped(mem.len(), addr, size) {
        Ok(store(mem, addr - MEMORY_BASE, value, size as nat))
    } else {
        Err(Exception::InvalidMemoryAccess(addr))
    }
}

/// A write through the bus followed by a read of the same span returns the written
/// value modulo `2^(8 * size)`.
pub proof fn lemma_write_then_read(mem: Seq<u8>, addr: u64, value: u64, size: u64)
    requires
        valid_size(size),
        mapped(mem.len(), addr, size),
    ensures
        bus_write(mem, addr, value, size) is Ok,
        bus_read(bus_write(mem, addr, value, size)->Ok_0, addr, size) == Ok::<u64, Exception>(
            (value as nat % pow256(size as nat)) as u64,
        ),
{
    lemma_load_store(mem, addr - MEMORY_BASE, value, size as nat);
}

/// The address decoder in front of physical memory.
pub struct Bus {
    memory: Memory,
}

impl View for Bus {
    type V = Seq<u8>;

    closed spec fn view(&self) -> Seq<u8> {
        self.memory@
    }
}

impl Bus {
    /// Creates a bus that maps `memory` at `MEMORY_BASE`.
    pub fn new(memory: Memory) -> (b: Self)
        ensures
            b@ == memory@,
    {
        Self { memory }
    }

    /// Whether the `size` bytes at `addr` are backed by memory.
    fn in_range(&self, addr: u64, size: u64) -> (r: bool)
        requires
            valid_size(size),
        ensures
            r == mapped(self@.len(), addr, size),
    {
        if addr < MEMORY_BASE {
            return false;
        }
        let offset = addr - MEMORY_BASE;
        let len = self.memory.size() as u64;
        offset <= len && size <= len - offset
    }

    /// Reads `size` bytes at `addr`, little-endian.
    pub fn read(&self, addr: u64, size: u64) -> (r: Result<u64, Exception>)
        requires
            valid_size(size),
        ensures
            r == bus_read(self@, addr, size),
    {
        if self.in_range(addr, size) {
            let v = self.memory.read(addr - MEMORY_BASE, size);
            Ok(v)
        } else {
            Err(Exception::InvalidMemoryAccess(addr))
        }
    }

    /// Writes the `size` low bytes of `value` at `addr`, little-endian.
    pub fn write(&mut self, addr: u64, value: u64, size: u64) -> (r: Result<(), Exception>)
        requires
            valid_size(size),
        ensures
            match bus_write(old(self)@, addr, value, size) {
                Ok(mem) => r is Ok && final(self)@ == mem,
                Err(e) => r == Err::<(), Exception>(e) && final(self)@ == old(self)@,
            },
    {
        if self.in_range(addr, size) {
            self.memory.write(addr - MEMORY_BASE, value, size);
            Ok(())
        } else {
            Err(Exception::InvalidMemoryAccess(addr))
        }
    }
}

} // verus!
