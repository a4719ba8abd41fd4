use vstd::prelude::*;
use crate::types::Exception;

verus! {

/// Number of addressable control-and-status registers (12-bit addresses).
pub const CSR_COUNT: u16 = 0x1000;

/// Hart identifier: always reads zero.
pub const MHARTID: u16 = 0xF14;

/// Machine ISA register: reports XLEN and the implemented extensions.
pub const MISA: u16 = 0x301;

/// Value of `misa`: MXL = 2 (XLEN 64) in bits 63..62, and the extension bits for
/// C (bit 2), I (bit 8) and M (bit 12).
pub const MISA_VALUE: u64 = 0x8000_0000_0000_1104;

/// Whether writes to `addr` are ignored.
pub open spec fn read_only(addr: u16) -> bool {
    addr == MHARTID || addr == MISA
}

/// What reading `addr` yields when the storage holds `regs`.
pub open spec fn csr_read(regs: Seq<u64>, addr: u16) -> Result<u64, Exception> {
    if addr >= CSR_COUNT {
        Err(Exception::InvalidCsrAccess(addr))
    } else if addr == MHARTID {
        Ok(0)
    } else if addr == MISA {
        Ok(MISA_VALUE)
    } else {
        Ok(regs[addr as int])
    }
}

/// The storage after writing `val` to `addr`.
pub open spec fn csr_write(regs: Seq<u64>, addr: u16, val: u64) -> Seq<u64> {
    if read_only(addr) || addr >= CSR_COUNT {
        regs
    } else {
        regs.update(addr as int, val)
    }
}

/// The storage and result of a read-modify-write that reads `addr` and then writes
/// `f(old value)` back, or the fault raised by the read.
pub open spec fn csr_modify(regs: Seq<u64>, addr: u16, new_val: spec_fn(u64) -> u64) -> Result<(u64, Seq<u64>), Exception> {
    match csr_read(regs, addr) {
        Ok(old) => Ok((old, csr_write(regs, addr, new_val(old)))),
        Err(e) => Err(e),
    }
}

/// Writing a CSR and reading it back yields the written value, except at `mhartid`,
/// which always reads zero, and at `misa`, which always reads `MISA_VALUE`.
pub proof fn lemma_csr_write_then_read(regs: Seq<u64>, addr: u16, val: u64)
    requires
        regs.len() == CSR_COUNT,
        addr < CSR_COUNT,
    ensures
        csr_read(csr_write(regs, addr, val), addr) == Ok::<u64, Exception>(
            if addr == MHARTID {
                0
            } else if addr == MISA {
                MISA_VALUE
            } else {
                val
            },
        ),
{
}

/// `misa` reports XLEN = 64 in its top two bits, and the I, M and C extensions.
pub proof fn lemma_misa_fields()
    ensures
        MISA_VALUE >> 62u64 == 2,
        (MISA_VALUE >> 8u64) & 1 == 1,
        (MISA_VALUE >> 12u64) & 1 == 1,
        (MISA_VALUE >> 2u64) & 1 == 1,
{
    assert(0x8000_0000_0000_1104u64 >> 62u64 == 2) by (bit_vector);
    assert((0x8000_0000_0000_1104u64 >> 8u64) & 1 == 1) by (bit_vector);
    assert((0x8000_0000_0000_1104u64 >> 12u64) & 1 == 1) by (bit_vector);
    assert((0x8000_0000_0000_1104u64 >> 2u64) & 1 == 1) by (bit_vector);
}

/// The bank of 4096 control-and-status registers.
pub struct Csr {
    data: Vec<u64>,
}

impl View for Csr {
    type V = Seq<u64>;

    closed spec fn view(&self) -> Seq<u64> {
        self.data@
    }
}

impl Csr {
    /// One storage slot per address.
    pub open spec fn wf(&self) -> bool {
        self@.len() == CSR_COUNT
    }

    /// Creates a bank whose storage is all zero.
    pub fn new() -> (c: Self)
        ensures
            c.wf(),
            c@ == Seq::new(CSR_COUNT as nat, |i: int| 0u64),
    {
        let c = Self { data: vec![0u64; 0x1000] };
        assert(c@ =~= Seq::new(CSR_COUNT as nat, |i: int| 0u64));
        c
    }

    /// Reads the register at `addr`.
    pub fn read(&self, addr: u16) -> (r: Result<u64, Exception>)
        requires
            self.wf(),
        ensures
            r == csr_read(self@, addr),
    {
        if addr >= CSR_COUNT {
            Err(Exception::InvalidCsrAccess(addr))
        } else if addr == MHARTID {
            Ok(0)
        } else if addr == MISA {
            Ok(MISA_VALUE)
        } else {
            Ok(self.data[addr as usize])
        }
    }

    /// Writes `val` to the register at `addr`; read-only registers ignore it.
    pub fn write(&mut self, addr: u16, val: u64)
        requires
            old(self).wf(),
            addr < CSR_COUNT,
        ensures
            final(self).wf(),
            final(self)@ == csr_write(old(self)@, addr, val),
    {
        if !(addr == MHARTID || addr == MISA) {
            self.data.set(addr as usize, val);
        }
    }

    /// Reads `addr`, then writes `val` to it (CSRRW); returns the value read.
    pub fn execute_rw(&mut self, addr: u16, val: u64) -> (r: Result<u64, Exception>)
        requires
            old(self).wf(),
        ensures
            final(self).wf(),
            match csr_modify(old(self)@, addr, |o: u64| val) {
                Ok((o, regs)) => r == Ok::<u64, Exception>(o) && final(self)@ == regs,
                Err(e) => r == Err::<u64, Exception>(e) && final(self)@ == old(self)@,
            },
    {
        let old_val = self.read(addr)?;
        self.write(addr, val);
        Ok(old_val)
    }

    /// Reads `addr`, then sets in it the bits set in `val` (CSRRS); returns the value
    /// read.
    pub fn execute_rs(&mut self, addr: u16, val: u64) -> (r: Result<u64, Exception>)
        requires
            old(self).wf(),
        ensures
            final(self).wf(),
            match csr_modify(old(self)@, addr, |o: u64| o | val) {
                Ok((o, regs)) => r == Ok::<u64, Exception>(o) && final(self)@ == regs,
                Err(e) => r == Err::<u64, Exception>(e) && final(self)@ == old(self)@,
            },
    {
        let old_val = self.read(addr)?;
        self.write(addr, old_val | val);
        Ok(old_val)
    }

    /// Reads `addr`, then clears in it the bits set in `val` (CSRRC); returns the value
    /// read.
    pub fn execute_rc(&mut self, addr: u16, val: u64) -> (r: Result<u64, Exception>)
        requires
            old(self).wf(),
        ensures
            final(self).wf(),
            match csr_modify(old(self)@, addr, |o: u64| o & !val) {
                Ok((o, regs)) => r == Ok::<u64, Exception>(o) && final(self)@ == regs,
                Err(e) => r == Err::<u64, Exception>(e) && final(self)@ == old(self)@,
            },
    {
        let old_val = self.read(addr)?;
        self.write(addr, old_val & !val);
        Ok(old_val)
    }

    /// CSRRW with a zero-extended immediate.
    pub fn execute_rwi(&mut self, addr: u16, imm: u8) -> (r: Result<u64, Exception>)
        requires
            old(self).wf(),
        ensures
            final(self).wf(),
            match csr_modify(old(self)@, addr, |o: u64| imm as u64) {
                Ok((o, regs)) => r == Ok::<u64, Exception>(o) && final(self)@ == regs,
                Err(e) => r == Err::<u64, Exception>(e) && final(self)@ == old(self)@,
            },
    {
        let old_val = self.read(addr)?;
        self.write(addr, imm as u64);
        Ok(old_val)
    }

    /// CSRRS with a zero-extended immediate.
    pub fn execute_rsi(&mut self, addr: u16, imm: u8) -> (r: Result<u64, Exception>)
        requires
            old(self).wf(),
        ensures
            final(self).wf(),
            match csr_modify(old(self)@, addr, |o: u64| o | imm as u64) {
                Ok((o, regs)) => r == Ok::<u64, Exception>(o) && final(self)@ == regs,
                Err(e) => r == Err::<u64, Exception>(e) && final(self)@ == old(self)@,
            },
    {
        let old_val = self.read(addr)?;
        self.write(addr, old_val | (imm as u64));
        Ok(old_val)
    }

    /// CSRRC with a zero-extended immediate.
    pub fn execute_rci(&mut self, addr: u16, imm: u8) -> (r: Result<u64, Exception>)
        requires
            old(self).wf(),
        ensures
            final(self).wf(),
            match csr_modify(old(self)@, addr, |o: u64| o & !(imm as u64)) {
                Ok((o, regs)) => r == Ok::<u64, Exception>(o) && final(self)@ == regs,
                Err(e) => r == Err::<u64, Exception>(e) && final(self)@ == old(self)@,
            },
    {
        let old_val = self.read(addr)?;
        self.write(addr, old_val & !(imm as u64));
        Ok(old_val)
    }
}

} // verus!
