use vstd::prelude::*;
use vstd::arithmetic::div_mod::{
    lemma_div_decreases, lemma_div_nonincreasing, lemma_fundamental_div_mod, lemma_div_pos_is_pos, lemma_hoist_over_denominator,
    lemma_mod_multiples_vanish, lemma_small_mod, lemma_sub_mod_noop,
};
use vstd::arithmetic::power2::lemma2_to64;
use vstd::bits::lemma_u128_shr_is_div;

verus! {

/// `x` reduced modulo `2^64`, as a register value.
pub open spec fn wrap64(x: int) -> u64 {
    (x % 0x1_0000_0000_0000_0000) as u64
}

/// `x` reduced modulo `2^32`.
pub open spec fn wrap32(x: int) -> u32 {
    (x % 0x1_0000_0000) as u32
}

/// A 32-bit value sign-extended to 64 bits.
pub open spec fn sext32(v: u32) -> u64 {
    v as i32 as i64 as u64
}

/// SLL: shift left by the low six bits of `b`.
pub open spec fn shift_left(a: u64, b: u64) -> u64 {
    a << (b & 0x3f)
}

/// SRL: logical shift right by the low six bits of `b`.
pub open spec fn shift_right(a: u64, b: u64) -> u64 {
    a >> (b & 0x3f)
}

/// SRA: arithmetic shift right by the low six bits of `b`.
pub open spec fn shift_right_arith(a: u64, b: u64) -> u64 {
    ((a as i64) >> (b & 0x3f)) as u64
}

/// Quotient of `x` by `d` rounded toward zero.
pub open spec fn tdiv(x: int, d: int) -> int {
    let q = abs(x) / abs(d);
    if (x < 0) == (d < 0) {
        q
    } else {
        -q
    }
}

/// Remainder of the division of `x` by `d` rounded toward zero; it has the sign of `x`.
pub open spec fn trem(x: int, d: int) -> int {
    let r = abs(x) % abs(d);
    if x < 0 {
        -r
    } else {
        r
    }
}

/// `|x|`.
pub open spec fn abs(x: int) -> int {
    if x < 0 {
        -x
    } else {
        x
    }
}

/// DIV: signed quotient; all ones on division by zero, the dividend on overflow.
pub open spec fn div_signed(a: u64, b: u64) -> u64 {
    if b == 0 {
        u64::MAX
    } else if a as i64 == i64::MIN && b as i64 == -1 {
        a
    } else {
        tdiv(a as i64 as int, b as i64 as int) as i64 as u64
    }
}

/// DIVU: unsigned quotient; all ones on division by zero.
pub open spec fn div_unsigned(a: u64, b: u64) -> u64 {
    if b == 0 {
        u64::MAX
    } else {
        a / b
    }
}

/// REM: signed remainder; the dividend on division by zero, zero on overflow.
pub open spec fn rem_signed(a: u64, b: u64) -> u64 {
    if b == 0 {
        a
    } else if a as i64 == i64::MIN && b as i64 == -1 {
        0
    } else {
        trem(a as i64 as int, b as i64 as int) as i64 as u64
    }
}

/// REMU: unsigned remainder; the dividend on division by zero.
pub open spec fn rem_unsigned(a: u64, b: u64) -> u64 {
    if b == 0 {
        a
    } else {
        a % b
    }
}

/// DIVW: signed quotient of the low words, sign-extended.
pub open spec fn div_word(a: u64, b: u64) -> u64 {
    let x = a as i32;
    let y = b as i32;
    if y == 0 {
        u64::MAX
    } else if x == i32::MIN && y == -1 {
        x as i64 as u64
    } else {
        tdiv(x as int, y as int) as i32 as i64 as u64
    }
}

/// DIVUW: unsigned quotient of the low words, sign-extended.
pub open spec fn div_unsigned_word(a: u64, b: u64) -> u64 {
    let x = a as u32;
    let y = b as u32;
    if y == 0 {
        u64::MAX
    } else {
        sext32(x / y)
    }
}

/// REMW: signed remainder of the low words, sign-extended.
pub open spec fn rem_word(a: u64, b: u64) -> u64 {
    let x = a as i32;
    let y = b as i32;
    if y == 0 {
        x as i64 as u64
    } else if x == i32::MIN && y == -1 {
        0
    } else {
        trem(x as int, y as int) as i32 as i64 as u64
    }
}

/// REMUW: unsigned remainder of the low words, sign-extended.
pub open spec fn rem_unsigned_word(a: u64, b: u64) -> u64 {
    let x = a as u32;
    let y = b as u32;
    if y == 0 {
        sext32(x)
    } else {
        sext32(x % y)
    }
}

/// Bits 127..64 of the product `x * y`: its high half.
pub open spec fn mul_high(x: int, y: int) -> u64 {
    wrap64((x * y) / 0x1_0000_0000_0000_0000)
}

/// `a + b` modulo `2^64`.
pub fn add64(a: u64, b: u64) -> (r: u64)
    ensures
        r == wrap64(a + b),
{
    a.wrapping_add(b)
}

/// `a - b` modulo `2^64`.
pub fn sub64(a: u64, b: u64) -> (r: u64)
    ensures
        r == wrap64(a - b),
{
    a.wrapping_sub(b)
}

/// `a * b` modulo `2^64`.
pub fn mul64(a: u64, b: u64) -> (r: u64)
    ensures
        r == wrap64(a * b),
{
    a.wrapping_mul(b)
}

/// `a + b` modulo `2^32`.
pub fn add32(a: u32, b: u32) -> (r: u32)
    ensures
        r == wrap32(a + b),
{
    a.wrapping_add(b)
}

/// `a - b` modulo `2^32`.
pub fn sub32(a: u32, b: u32) -> (r: u32)
    ensures
        r == wrap32(a - b),
{
    a.wrapping_sub(b)
}

/// `a * b` modulo `2^32`.
pub fn mul32(a: u32, b: u32) -> (r: u32)
    ensures
        r == wrap32(a * b),
{
    a.wrapping_mul(b)
}

proof fn lemma_quotient_bounded(x: int, d: int)
    requires
        d != 0,
    ensures
        abs(tdiv(x, d)) <= abs(x),
        abs(trem(x, d)) < abs(d),
        abs(d) >= 2 && x != 0 ==> abs(tdiv(x, d)) < abs(x),
        abs(d) == 1 ==> abs(tdiv(x, d)) == abs(x),
        x == 0 ==> tdiv(x, d) == 0 && trem(x, d) == 0,
{
    lemma_div_nonincreasing(abs(x), abs(d));
    lemma_div_pos_is_pos(abs(x), abs(d));
    if abs(d) >= 2 && x != 0 {
        lemma_div_decreases(abs(x), abs(d));
    }
    if x == 0 {
        let ad = abs(d);
        assert(0int / ad == 0 && 0int % ad == 0) by (nonlinear_arith)
            requires
                ad > 0,
        ;
    }
    if abs(d) == 1 {
        let ax = abs(x);
        assert(ax / 1 == ax) by (nonlinear_arith);
    }
}

proof fn lemma_zero_as_signed(b: u64)
    ensures
        (b as i64 == 0) == (b == 0),
{
    assert((b as i64 == 0) == (b == 0)) by (bit_vector);
}

/// Signed 64-bit division (DIV).
pub fn div(a: u64, b: u64) -> (r: u64)
    ensures
        r == div_signed(a, b),
{
    let x = a as i64;
    let y = b as i64;
    proof {
        lemma_zero_as_signed(b);
    }
    if b == 0 {
        u64::MAX
    } else if x == i64::MIN && y == -1 {
        a
    } else {
        proof {
            lemma_quotient_bounded(x as int, y as int);
        }
        match x.checked_div(y) {
            Some(q) => q as u64,
            None => a,
        }
    }
}

/// Unsigned 64-bit division (DIVU).
pub fn divu(a: u64, b: u64) -> (r: u64)
    ensures
        r == div_unsigned(a, b),
{
    if b == 0 {
        u64::MAX
    } else {
        a / b
    }
}

/// Signed 64-bit remainder (REM).
pub fn rem(a: u64, b: u64) -> (r: u64)
    ensures
        r == rem_signed(a, b),
{
    let x = a as i64;
    let y = b as i64;
    proof {
        lemma_zero_as_signed(b);
    }
    if b == 0 {
        a
    } else if x == i64::MIN && y == -1 {
        0
    } else {
        proof {
            lemma_quotient_bounded(x as int, y as int);
        }
        match x.checked_rem(y) {
            Some(m) => m as u64,
            None => 0,
        }
    }
}

/// Unsigned 64-bit remainder (REMU).
pub fn remu(a: u64, b: u64) -> (r: u64)
    ensures
        r == rem_unsigned(a, b),
{
    if b == 0 {
        a
    } else {
        a % b
    }
}

/// Signed word division (DIVW).
pub fn divw(a: u64, b: u64) -> (r: u64)
    ensures
        r == div_word(a, b),
{
    let x = a as i32;
    let y = b as i32;
    if y == 0 {
        u64::MAX
    } else if x == i32::MIN && y == -1 {
        x as i64 as u64
    } else {
        proof {
            lemma_quotient_bounded(x as int, y as int);
        }
        match x.checked_div(y) {
            Some(q) => q as i64 as u64,
            None => 0,
        }
    }
}

/// Unsigned word division (DIVUW).
pub fn divuw(a: u64, b: u64) -> (r: u64)
    ensures
        r == div_unsigned_word(a, b),
{
    let x = a as u32;
    let y = b as u32;
    if y == 0 {
        u64::MAX
    } else {
        (x / y) as i32 as i64 as u64
    }
}

/// Signed word remainder (REMW).
pub fn remw(a: u64, b: u64) -> (r: u64)
    ensures
        r == rem_word(a, b),
{
    let x = a as i32;
    let y = b as i32;
    if y == 0 {
        x as i64 as u64
    } else if x == i32::MIN && y == -1 {
        0
    } else {
        proof {
            lemma_quotient_bounded(x as int, y as int);
        }
        match x.checked_rem(y) {
            Some(m) => m as i64 as u64,
            None => 0,
        }
    }
}

/// Unsigned word remainder (REMUW).
pub fn remuw(a: u64, b: u64) -> (r: u64)
    ensures
        r == rem_unsigned_word(a, b),
{
    let x = a as u32;
    let y = b as u32;
    if y == 0 {
        x as i32 as i64 as u64
    } else {
        (x % y) as i32 as i64 as u64
    }
}

/// How a register value reads as a signed number.
proof fn lemma_signed64(a: u64)
    ensures
        a as i64 as int == if a >= 0x8000_0000_0000_0000 {
            a as int - 0x1_0000_0000_0000_0000
        } else {
            a as int
        },
{
    assert(a as i64 as int == if a >= 0x8000_0000_0000_0000u64 {
        a as int - 0x1_0000_0000_0000_0000int
    } else {
        a as int
    }) by (bit_vector);
}

/// With `x = a - 2^64 ka` and `y = b - 2^64 kb`, the high half of `x * y` is that
/// of `a * b` less `ka * b` and `kb * a`, modulo `2^64`.
proof fn lemma_high_correction(x: int, y: int, a: int, b: int, ka: int, kb: int)
    requires
        x == a - 0x1_0000_0000_0000_0000 * ka,
        y == b - 0x1_0000_0000_0000_0000 * kb,
    ensures
        mul_high(x, y) == wrap64((a * b) / 0x1_0000_0000_0000_0000 - ka * b - kb * a),
{
    let m: int = 0x1_0000_0000_0000_0000;
    let k = -(ka * b) - kb * a + m * (ka * kb);
    lemma_product_expand(a, b, ka, kb, m);
    lemma_hoist_over_denominator(a * b, k, m as nat);
    lemma_mod_multiples_vanish(ka * kb, (a * b) / m - ka * b - kb * a, m);
}

proof fn lemma_product_expand(a: int, b: int, ka: int, kb: int, m: int)
    by (nonlinear_arith)
    ensures
        (a - m * ka) * (b - m * kb) == a * b + (-(ka * b) - kb * a + m * (ka * kb)) * m,
{
}

/// Unsigned high multiply (MULHU).
pub fn mulhu(a: u64, b: u64) -> (r: u64)
    ensures
        r == mul_high(a as int, b as int),
{
    proof {
        assert(a as int * b as int <= 0xFFFF_FFFF_FFFF_FFFF * 0xFFFF_FFFF_FFFF_FFFF) by (nonlinear_arith)
            requires
                a <= 0xFFFF_FFFF_FFFF_FFFF,
                b <= 0xFFFF_FFFF_FFFF_FFFF,
        ;
    }
    let p: u128 = (a as u128) * (b as u128);
    proof {
        lemma_u128_shr_is_div(p, 64);
        lemma2_to64();
        let q = p as int / 0x1_0000_0000_0000_0000;
        assert(q < 0x1_0000_0000_0000_0000) by (nonlinear_arith)
            requires
                q == p as int / 0x1_0000_0000_0000_0000,
                p < 0x1_0000_0000_0000_0000 * 0x1_0000_0000_0000_0000,
        ;
        lemma_div_pos_is_pos(p as int, 0x1_0000_0000_0000_0000);
        lemma_small_mod(q as nat, 0x1_0000_0000_0000_0000);
    }
    (p >> 64u128) as u64
}

/// Signed high multiply (MULH).
pub fn mulh(a: u64, b: u64) -> (r: u64)
    ensures
        r == mul_high(a as i64 as int, b as i64 as int),
{
    let hi = mulhu(a, b);
    let ta: u64 = if (a as i64) < 0 { b } else { 0 };
    let tb: u64 = if (b as i64) < 0 { a } else { 0 };
    let r = sub64(sub64(hi, ta), tb);
    proof {
        let m: int = 0x1_0000_0000_0000_0000;
        lemma_signed64(a);
        lemma_signed64(b);
        let ka: int = if a >= 0x8000_0000_0000_0000 { 1 } else { 0 };
        let kb: int = if b >= 0x8000_0000_0000_0000 { 1 } else { 0 };
        lemma_high_correction(a as i64 as int, b as i64 as int, a as int, b as int, ka, kb);
        assert(ka * b == ta && kb * a == tb);
        lemma_mulhu_is_quotient(a, b);
        lemma_small_mod(tb as nat, m as nat);
        lemma_sub_mod_noop(hi - ta, tb as int, m);
    }
    r
}

/// Signed-by-unsigned high multiply (MULHSU).
pub fn mulhsu(a: u64, b: u64) -> (r: u64)
    ensures
        r == mul_high(a as i64 as int, b as int),
{
    let hi = mulhu(a, b);
    let ta: u64 = if (a as i64) < 0 { b } else { 0 };
    let r = sub64(hi, ta);
    proof {
        lemma_signed64(a);
        let ka: int = if a >= 0x8000_0000_0000_0000 { 1 } else { 0 };
        lemma_high_correction(a as i64 as int, b as int, a as int, b as int, ka, 0);
        assert(ka * b == ta);
        assert(0 * (a as int) == 0);
        lemma_mulhu_is_quotient(a, b);
    }
    r
}

/// The unsigned high half is the plain quotient: it needs no reduction.
proof fn lemma_mulhu_is_quotient(a: u64, b: u64)
    ensures
        mul_high(a as int, b as int) == (a as int * b as int) / 0x1_0000_0000_0000_0000,
{
    let m: int = 0x1_0000_0000_0000_0000;
    let p = a as int * b as int;
    let q = p / m;
    assert(0 <= p < m * m) by (nonlinear_arith)
        requires
            p == a as int * b as int,
            0 <= a < m,
            0 <= b < m,
    ;
    lemma_fundamental_div_mod(p, m);
    lemma_div_pos_is_pos(p, m);
    assert(q < m) by (nonlinear_arith)
        requires
            p == m * q + p % m,
            p % m >= 0,
            p < m * m,
            m > 0,
    ;
    lemma_small_mod(q as nat, m as nat);
}

/// The masked shift amounts stay below the operand width.
pub proof fn lemma_shift_masks(b: u64)
    ensures
        b & 0x3f < 64,
        (b as u32) & 0x1f < 32,
{
    assert(b & 0x3f < 64) by (bit_vector);
    assert((b as u32) & 0x1f < 32) by (bit_vector);
}

/// A shift count whose low six bits are 63 moves a single bit across the whole
/// register; one whose low six bits are 0 leaves the operand unchanged.
pub proof fn lemma_shift_extremes(a: u64, b: u64)
    ensures
        b & 0x3f == 63 ==> shift_left(a, b) == (a & 1) << 63u64,
        b & 0x3f == 63 ==> shift_right(a, b) == a >> 63u64,
        b & 0x3f == 63 ==> shift_right_arith(a, b) == if a >> 63u64 == 1 { u64::MAX } else { 0 },
        b & 0x3f == 0 ==> shift_left(a, b) == a && shift_right(a, b) == a && shift_right_arith(a, b) == a,
{
    assert(b & 0x3f == 63 ==> a << (b & 0x3f) == (a & 1) << 63u64) by (bit_vector);
    assert(b & 0x3f == 63 ==> a >> (b & 0x3f) == a >> 63u64) by (bit_vector);
    assert(b & 0x3f == 63 ==> ((a as i64) >> (b & 0x3f)) as u64 == if a >> 63u64 == 1 { 0xFFFF_FFFF_FFFF_FFFFu64 } else { 0 })
        by (bit_vector);
    assert(b & 0x3f == 0 ==> a << (b & 0x3f) == a && a >> (b & 0x3f) == a && ((a as i64) >> (b & 0x3f)) as u64 == a)
        by (bit_vector);
}

/// Division corner cases: the most negative value divided by -1 gives itself with
/// remainder 0; division by zero gives all ones and leaves the dividend as remainder;
/// the word forms behave alike on the low 32 bits.
pub proof fn lemma_division_corner_cases(a: u64)
    ensures
        div_signed(0x8000_0000_0000_0000, u64::MAX) == 0x8000_0000_0000_0000,
        rem_signed(0x8000_0000_0000_0000, u64::MAX) == 0,
        div_signed(a, 0) == u64::MAX,
        rem_signed(a, 0) == a,
        div_unsigned(a, 0) == u64::MAX,
        rem_unsigned(a, 0) == a,
        div_word(0x8000_0000, 0xFFFF_FFFF) == 0xFFFF_FFFF_8000_0000,
        rem_word(0x8000_0000, 0xFFFF_FFFF) == 0,
        div_word(a, 0) == u64::MAX,
        rem_word(a, 0) == sext32(a as u32),
        div_unsigned_word(a, 0) == u64::MAX,
        rem_unsigned_word(a, 0) == sext32(a as u32),
{
    assert(0x8000_0000_0000_0000u64 as i64 == i64::MIN && 0xFFFF_FFFF_FFFF_FFFFu64 as i64 == -1) by (bit_vector);
    assert(0x8000_0000u64 as i32 == i32::MIN && 0xFFFF_FFFFu64 as i32 == -1 && (i32::MIN as i64 as u64)
        == 0xFFFF_FFFF_8000_0000u64) by (bit_vector);
    assert(a as i32 == a as u32 as i32) by (bit_vector);
}

} // verus!
