use vstd::prelude::*;
use vstd::arithmetic::div_mod::{lemma_div_denominator, lemma_mod_breakdown};

verus! {

/// `256^n`, the number of values that `n` bytes can hold.
pub open spec fn pow256(n: nat) -> nat
    decreases n,
{
    if n == 0 {
        1
    } else {
        256 * pow256((n - 1) as nat)
    }
}

/// The unsigned value of `bytes` read in little-endian order.
pub open spec fn le_value(bytes: Seq<u8>) -> nat
    decreases bytes.len(),
{
    if bytes.len() == 0 {
        0
    } else {
        bytes[0] as nat + 256 * le_value(bytes.skip(1))
    }
}

/// Byte `i` of `v`, counting from the least significant one.
pub open spec fn byte_of(v: u64, i: nat) -> u8 {
    ((v as nat / pow256(i)) % 256) as u8
}

/// The value of the `n` bytes of `mem` that start at `off`.
pub open spec fn load(mem: Seq<u8>, off: int, n: nat) -> nat {
    le_value(mem.subrange(off, off + n))
}

/// `mem` with the `n` low bytes of `v` stored at `off`, least significant first.
pub open spec fn store(mem: Seq<u8>, off: int, v: u64, n: nat) -> Seq<u8> {
    Seq::new(
        mem.len(),
        |j: int|
            if off <= j < off + n {
                byte_of(v, (j - off) as nat)
            } else {
                mem[j]
            },
    )
}

/// An access width that memory supports.
pub open spec fn valid_size(size: u64) -> bool {
    size == 1 || size == 2 || size == 4 || size == 8
}

pub proof fn lemma_pow256_positive(n: nat)
    ensures
        pow256(n) > 0,
    decreases n,
{
    if n > 0 {
        lemma_pow256_positive((n - 1) as nat);
    }
}

/// Values below `256^n` fit in `n` bytes.
pub proof fn lemma_le_value_bound(bytes: Seq<u8>)
    ensures
        le_value(bytes) < pow256(bytes.len()),
    decreases bytes.len(),
{
    if bytes.len() > 0 {
        lemma_le_value_bound(bytes.skip(1));
        assert(pow256(bytes.len()) == 256 * pow256((bytes.len() - 1) as nat));
    }
}

/// Reading back the `n` bytes just stored at `off` yields the value modulo `256^n`,
/// i.e. modulo `2^(8n)`, whatever the memory held before.
pub proof fn lemma_load_store(mem: Seq<u8>, off: int, v: u64, n: nat)
    requires
        0 <= off,
        off + n <= mem.len(),
    ensures
        load(store(mem, off, v, n), off, n) == v as nat % pow256(n),
{
    lemma_le_bytes(v, 0, n);
    assert(pow256(0) == 1);
    assert(store(mem, off, v, n).subrange(off, off + n) =~= Seq::new(n, |i: int| byte_of(v, (0 + i) as nat)));
}

/// The little-endian value of bytes `k .. k + n` of `v` is `v / 256^k` modulo `256^n`.
proof fn lemma_le_bytes(v: u64, k: nat, n: nat)
    ensures
        le_value(Seq::new(n, |i: int| byte_of(v, (k + i) as nat))) == (v as nat / pow256(k)) % pow256(n),
    decreases n,
{
    let s = Seq::new(n, |i: int| byte_of(v, (k + i) as nat));
    lemma_pow256_positive(k);
    lemma_pow256_positive(n);
    if n == 0 {
        assert((v as nat / pow256(k)) % 1 == 0);
    } else {
        let m = (n - 1) as nat;
        lemma_le_bytes(v, k + 1, m);
        assert(s.skip(1) =~= Seq::new(m, |i: int| byte_of(v, ((k + 1) + i) as nat)));
        lemma_pow256_positive(m);
        let x = v as nat / pow256(k);
        assert(pow256(k + 1) == 256 * pow256(k)) by {
            assert(pow256(k + 1) == 256 * pow256(((k + 1) - 1) as nat));
        }
        assert(pow256(k) * 256 == 256 * pow256(k)) by (nonlinear_arith);
        lemma_div_denominator(v as int, pow256(k) as int, 256);
        assert(v as nat / pow256(k + 1) == x / 256);
        lemma_mod_breakdown(x as int, 256, pow256(m) as int);
        assert(s[0] == byte_of(v, k));
    }
}

/// A zero-initialised, byte-addressable store of fixed size.
pub struct Memory {
    data: Vec<u8>,
}

impl View for Memory {
    type V = Seq<u8>;

    closed spec fn view(&self) -> Seq<u8> {
        self.data@
    }
}

impl Memory {
    /// Creates a memory of `size` bytes, all zero.
    pub fn new(size: usize) -> (m: Self)
        ensures
            m@ == Seq::new(size as nat, |i: int| 0u8),
    {
        let data = vec![0u8; size];
        let m = Self { data };
        assert(m@ =~= Seq::new(size as nat, |i: int| 0u8));
        m
    }

    /// Number of bytes held.
    pub fn size(&self) -> (r: usize)
        ensures
            r == self@.len(),
    {
        self.data.len()
    }

    /// Reads `size` bytes at `addr` as a little-endian value.
    pub fn read(&self, addr: u64, size: u64) -> (r: u64)
        requires
            valid_size(size),
            addr + size <= self@.len(),
        ensures
            r == load(self@, addr as int, size as nat),
    {
        let len = self.data.len();
        let mut value: u64 = 0;
        let mut i: u64 = size;
        proof {
            assert(self@.subrange(addr + size, addr + size) =~= Seq::<u8>::empty());
            reveal_with_fuel(pow256, 9);
        }
        while i > 0
            invariant
                valid_size(size),
                addr + size <= self@.len(),
                len == self@.len(),
                i <= size,
                value == le_value(self@.subrange(addr + i, addr + size)),
                pow256((size - i) as nat) <= pow256(8),
                pow256(8) == 0x1_0000_0000_0000_0000,
            decreases i,
        {
            let b = self.data[(addr + i - 1) as usize];
            proof {
                let rest = self@.subrange(addr + i, addr + size);
                let more = self@.subrange(addr + i - 1, addr + size);
                assert(more.skip(1) =~= rest);
                lemma_le_value_bound(rest);
                assert(pow256((size - (i - 1)) as nat) == 256 * pow256((size - i) as nat));
                lemma_pow256_monotone((size - (i - 1)) as nat, 8);
            }
            value = value * 256 + b as u64;
            i = i - 1;
        }
        value
    }

    /// Writes the `size` low bytes of `value` at `addr`, least significant first.
    pub fn write(&mut self, addr: u64, value: u64, size: u64)
        requires
            valid_size(size),
            addr + size <= old(self)@.len(),
        ensures
            final(self)@ == store(old(self)@, addr as int, value, size as nat),
    {
        let len = self.data.len();
        let mut rest: u64 = value;
        let mut i: u64 = 0;
        assert(pow256(0) == 1);
        while i < size
            invariant
                i <= size,
                len == self@.len(),
                valid_size(size),
                addr + size <= old(self)@.len(),
                self@.len() == old(self)@.len(),
                rest == value as nat / pow256(i as nat),
                forall|j: int|
                    0 <= j < self@.len() ==> #[trigger] self@[j] == if addr <= j < addr + i {
                        byte_of(value, (j - addr) as nat)
                    } else {
                        old(self)@[j]
                    },
            decreases size - i,
        {
            proof {
                lemma_pow256_positive(i as nat);
                assert(pow256((i + 1) as nat) == 256 * pow256(i as nat));
                assert(pow256(i as nat) * 256 == 256 * pow256(i as nat)) by (nonlinear_arith);
                lemma_div_denominator(value as int, pow256(i as nat) as int, 256);
            }
            self.data.set((addr + i) as usize, (rest % 256) as u8);
            assert(self@[addr + i] == byte_of(value, i as nat));
            rest = rest / 256;
            i = i + 1;
        }
        assert(self@ =~= store(old(self)@, addr as int, value, size as nat));
    }
}

proof fn lemma_pow256_monotone(a: nat, b: nat)
    requires
        a <= b,
    ensures
        pow256(a) <= pow256(b),
    decreases b,
{
    if a < b {
        lemma_pow256_monotone(a, (b - 1) as nat);
        lemma_pow256_positive((b - 1) as nat);
    }
}

} // verus!
