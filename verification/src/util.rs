//! Address alignment arithmetic shared by the allocator and the VM layer.

use vstd::prelude::*;
use vstd::arithmetic::power2::is_pow2;
use vstd::arithmetic::power2::is_pow2_exists;
use vstd::arithmetic::power2::is_pow2_equiv;
use vstd::arithmetic::power2::pow2;
use vstd::arithmetic::power::pow;
use vstd::arithmetic::power::lemma_pow_positive;
use vstd::arithmetic::div_mod::lemma_fundamental_div_mod;
use vstd::arithmetic::div_mod::lemma_mod_division_less_than_divisor;

verus! {

/// `addr` rounded down to the nearest multiple of `align`.
pub open spec fn spec_align_down(addr: int, align: int) -> int {
    addr - addr % align
}

/// `addr` rounded up to the nearest multiple of `align`.
pub open spec fn spec_align_up(addr: int, align: int) -> int {
    if addr % align == 0 {
        addr
    } else {
        addr - addr % align + align
    }
}

/// Every value of `pow2` satisfies the recursive power-of-two predicate.
pub proof fn lemma_pow2_is_pow2(e: nat)
    ensures
        is_pow2(pow2(e) as int),
{
    lemma_pow_positive(2, e);
    assert(pow(2, e) == pow2(e) as int);
    assert(is_pow2_exists(pow2(e) as int));
    is_pow2_equiv(pow2(e) as int);
}

/// Stepping an aligned address by the alignment stays at or below any
/// aligned bound it was strictly below.
pub proof fn lemma_aligned_lt_step(a: int, b: int, d: int)
    requires
        d > 0,
        a % d == 0,
        b % d == 0,
        a < b,
    ensures
        a + d <= b,
{
    lemma_fundamental_div_mod(a, d);
    lemma_fundamental_div_mod(b, d);
    assert(a / d < b / d) by (nonlinear_arith)
        requires
            d > 0,
            a == d * (a / d),
            b == d * (b / d),
            a < b,
    ;
    assert(a + d <= b) by (nonlinear_arith)
        requires
            d > 0,
            a == d * (a / d),
            b == d * (b / d),
            a / d < b / d,
    ;
}

/// Adding one divisor advances the quotient by exactly one.
pub proof fn lemma_div_step(a: int, d: int)
    requires
        d > 0,
    ensures
        (a + d) / d == a / d + 1,
{
    lemma_fundamental_div_mod(a, d);
    lemma_mod_division_less_than_divisor(a, d);
    vstd::arithmetic::mul::lemma_mul_is_distributive_add(d, a / d, 1);
    vstd::arithmetic::div_mod::lemma_fundamental_div_mod_converse(a + d, d, a / d + 1, a % d);
}

/// Runtime test for `is_pow2`, by repeated halving.
pub fn is_power_of_two(n: u64) -> (b: bool)
    ensures
        b == is_pow2(n as int),
{
    proof {
        reveal(is_pow2);
    }
    if n == 0 {
        return false;
    }
    let mut v: u64 = n;
    while v > 1
        invariant
            v >= 1,
            is_pow2(n as int) == is_pow2(v as int),
        decreases v,
    {
        if v % 2 == 1 {
            proof {
                reveal(is_pow2);
            }
            return false;
        }
        proof {
            reveal(is_pow2);
        }
        v = v / 2;
    }
    proof {
        reveal(is_pow2);
    }
    true
}

/// Align `addr` downwards to the nearest multiple of `align`.
///
/// The result never exceeds `addr`.
pub fn align_down(addr: u64, align: u64) -> (r: u64)
    requires
        is_pow2(align as int),
    ensures
        r == spec_align_down(addr as int, align as int),
        r <= addr,
        r % align == 0,
        addr - r < align,
{
    proof {
        reveal(is_pow2);
        lemma_fundamental_div_mod(addr as int, align as int);
        lemma_mod_division_less_than_divisor(addr as int, align as int);
        assert((addr / align) * align == addr as int - addr as int % align as int) by (nonlinear_arith)
            requires
                align > 0,
                addr as int / align as int * align as int == align as int * (addr as int / align as int),
                addr as int == align as int * (addr as int / align as int) + addr as int % align as int,
        ;
        assert((addr as int - addr as int % align as int) % align as int == 0) by (nonlinear_arith)
            requires
                align > 0,
                addr as int == align as int * (addr as int / align as int) + addr as int % align as int,
                0 <= addr as int % align as int,
                (addr as int % align as int) < align as int,
        ;
    }
    (addr / align) * align
}

/// Align `addr` upwards to the nearest multiple of `align`.
///
/// The result is never below `addr`; the caller must ensure the aligned
/// value still fits in the address space.
pub fn align_up(addr: u64, align: u64) -> (r: u64)
    requires
        is_pow2(align as int),
        spec_align_up(addr as int, align as int) <= u64::MAX,
    ensures
        r == spec_align_up(addr as int, align as int),
        r >= addr,
        r % align == 0,
        r - addr < align,
{
    proof {
        reveal(is_pow2);
        lemma_fundamental_div_mod(addr as int, align as int);
        lemma_mod_division_less_than_divisor(addr as int, align as int);
    }
    if addr % align == 0 {
        return addr;
    }
    proof {
        assert((addr / align + 1) * align == addr as int - addr as int % align as int + align as int) by (nonlinear_arith)
            requires
                align > 0,
                addr as int == align as int * (addr as int / align as int) + addr as int % align as int,
        ;
        assert((addr as int - addr as int % align as int + align as int) % align as int == 0) by (nonlinear_arith)
            requires
                align > 0,
                addr as int == align as int * (addr as int / align as int) + addr as int % align as int,
                0 <= addr as int % align as int,
                (addr as int % align as int) < align as int,
        ;
    }
    (addr / align + 1) * align
}

} // verus!
