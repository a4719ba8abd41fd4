use vstd::prelude::*;

verus! {

/// Supervisor interrupt enable.
pub const SIE: u64 = 1 << 1;

/// Machine interrupt enable.
pub const MIE: u64 = 1 << 3;

/// Supervisor previous interrupt enable.
pub const SPIE: u64 = 1 << 5;

/// Machine previous interrupt enable.
pub const MPIE: u64 = 1 << 7;

/// Supervisor previous privilege.
pub const SPP: u64 = 1 << 8;

/// Machine previous privilege (two bits).
pub const MPP: u64 = 0b11 << 11;

/// Vector unit state (two bits).
pub const VS: u64 = 0b11 << 9;

/// Floating-point unit state (two bits).
pub const FS: u64 = 0b11 << 13;

/// State of other user extensions (two bits).
pub const XS: u64 = 0b11 << 15;

/// Modify privilege for loads and stores.
pub const MPRV: u64 = 1 << 17;

/// Permit supervisor access to user memory.
pub const SUM: u64 = 1 << 18;

/// Make executable pages readable.
pub const MXR: u64 = 1 << 19;

/// Trap virtual-memory management in supervisor mode.
pub const TVM: u64 = 1 << 20;

/// Timeout wait.
pub const TW: u64 = 1 << 21;

/// Trap SRET.
pub const TSR: u64 = 1 << 22;

/// User-mode XLEN (two bits).
pub const UXL: u64 = 0b11 << 32;

/// Supervisor-mode XLEN (two bits).
pub const SXL: u64 = 0b11 << 34;

/// State dirty: summary of FS, VS and XS, read-only.
pub const SD: u64 = 1 << 63;

/// The fields that are always writable.
pub const BASE_WRITE_MASK: u64 = SIE | MIE | SPIE | MPIE | SPP | MPP | MPRV | SUM | MXR | TVM | TW | TSR;

/// Which optional features the hart has; they decide which `mstatus` fields are
/// writable.
#[derive(Clone, Copy)]
pub struct Extensions {
    /// Floating-point registers are present.
    pub has_fpu: bool,
    /// Vector registers are present.
    pub has_vector: bool,
    /// The hart runs with XLEN 64.
    pub is_rv64: bool,
}

/// The bits of `mstatus` that a write may change.
pub open spec fn write_mask(ext: Extensions) -> u64 {
    let with_fpu = if ext.has_fpu { BASE_WRITE_MASK | FS } else { BASE_WRITE_MASK };
    if ext.has_vector { with_fpu | VS } else { with_fpu }
}

/// The stored value after writing `val` over `raw`: the writable fields come from
/// `val`, the rest stay; with XLEN 64, UXL and SXL read 2.
pub open spec fn mstatus_written(raw: u64, val: u64, ext: Extensions) -> u64 {
    let mask = write_mask(ext);
    let merged = (raw & !mask) | (val & mask);
    if ext.is_rv64 {
        (((merged & !UXL) | (2u64 << 32u64)) & !SXL) | (2u64 << 34u64)
    } else {
        merged
    }
}

/// What a read returns for stored value `raw`: SD set exactly when FS, VS or XS is
/// dirty (both bits set).
pub open spec fn mstatus_read(raw: u64) -> u64 {
    if raw & FS == FS || raw & VS == VS || raw & XS == XS {
        raw | SD
    } else {
        raw & !SD
    }
}

/// The machine status register, with write masking and the SD summary bit.
pub struct Mstatus {
    raw: u64,
}

impl View for Mstatus {
    type V = u64;

    closed spec fn view(&self) -> u64 {
        self.raw
    }
}

impl Mstatus {
    /// Creates the register holding `val`.
    pub fn new(val: u64) -> (m: Self)
        ensures
            m@ == val,
    {
        Self { raw: val }
    }

    /// Writes `val`, keeping the fields that `ext` makes read-only.
    pub fn write(&mut self, val: u64, ext: Extensions) -> (r: &mut Self)
        ensures
            (*r)@ == mstatus_written(old(self)@, val, ext),
            final(self)@ == final(r)@,
    {
        let mask = self.make_write_mask(ext);
        let mut next_val = (self.raw & !mask) | (val & mask);
        if ext.is_rv64 {
            next_val = (next_val & !UXL) | (0b10u64 << 32u64);
            next_val = (next_val & !SXL) | (0b10u64 << 34u64);
        }
        self.raw = next_val;
        self
    }

    /// Reads the register, with SD computed from FS, VS and XS.
    pub fn read(&self) -> (r: u64)
        ensures
            r == mstatus_read(self@),
    {
        let mut val = self.raw;
        let fs_dirty = (val & FS) == FS;
        let vs_dirty = (val & VS) == VS;
        let xs_dirty = (val & XS) == XS;
        if fs_dirty || vs_dirty || xs_dirty {
            val = val | SD;
        } else {
            val = val & !SD;
        }
        val
    }

    fn make_write_mask(&self, ext: Extensions) -> (r: u64)
        ensures
            r == write_mask(ext),
    {
        let mut mask = BASE_WRITE_MASK;
        if ext.has_fpu {
            mask = mask | FS;
        }
        if ext.has_vector {
            mask = mask | VS;
        }
        mask
    }
}

} // verus!
