//! Total, panic-free integer operations used by the opcode semantics:
//! 31-bit masking of shift amounts and positions, checked negation,
//! absolute value and shifts, bit rotations, and wrapping exponentiation.

use vstd::prelude::*;

verus! {

/// The 31-bit mask applied to every shift amount, rotation position and
/// index an instruction pops, guaranteeing a non-negative value.
pub open spec fn spec_mask31(b: i64) -> int {
    (b & 0x7FFFFFFF) as int
}

/// Mask a popped integer to a non-negative position below `2^31`.
pub fn mask31(b: i64) -> (r: usize)
    ensures
        r == spec_mask31(b),
        r < 0x80000000,
{
    proof {
        assert(0 <= (b & 0x7FFFFFFF) < 0x80000000) by (bit_vector);
    }
    (b & 0x7FFFFFFF) as usize
}

/// The exponent an integer-power opcode uses: the 31-bit mask of the
/// magnitude, with the one unrepresentable magnitude mapped to zero.
pub open spec fn spec_exp_of(b: i64) -> int {
    if b == i64::MIN {
        0
    } else if b >= 0 {
        (b & 0x7FFFFFFF) as int
    } else {
        (((-b) as i64) & 0x7FFFFFFF) as int
    }
}

/// Mask a popped integer to the exponent it encodes.
pub fn exp_of(b: i64) -> (r: u32)
    ensures
        r == spec_exp_of(b),
{
    if b == i64::MIN {
        0
    } else {
        let a: i64 = if b < 0 {
            -b
        } else {
            b
        };
        proof {
            assert(0 <= (a & 0x7FFFFFFF) < 0x80000000) by (bit_vector);
        }
        (a & 0x7FFFFFFF) as u32
    }
}

/// Checked negation: fails only on the one unrepresentable magnitude.
pub open spec fn spec_checked_neg(a: i64) -> Option<i64> {
    if a == i64::MIN {
        None
    } else {
        Some((-a) as i64)
    }
}

pub fn checked_neg_i64(a: i64) -> (r: Option<i64>)
    ensures
        r == spec_checked_neg(a),
{
    if a == i64::MIN {
        None
    } else {
        Some(-a)
    }
}

/// Checked absolute value: fails only on the one unrepresentable magnitude.
pub open spec fn spec_checked_abs(a: i64) -> Option<i64> {
    if a == i64::MIN {
        None
    } else if a < 0 {
        Some((-a) as i64)
    } else {
        Some(a)
    }
}

pub fn checked_abs_i64(a: i64) -> (r: Option<i64>)
    ensures
        r == spec_checked_abs(a),
{
    if a == i64::MIN {
        None
    } else if a < 0 {
        Some(-a)
    } else {
        Some(a)
    }
}

/// Checked left shift: the wrapping shift for amounts below the bit width,
/// failure at or past it.
pub open spec fn spec_checked_shl(a: i64, sh: u32) -> Option<i64> {
    if sh < 64 {
        Some(a.wrapping_shl(sh))
    } else {
        None
    }
}

pub fn checked_shl_i64(a: i64, sh: u32) -> (r: Option<i64>)
    ensures
        r == spec_checked_shl(a, sh),
{
    if sh < 64 {
        Some(a.wrapping_shl(sh))
    } else {
        None
    }
}

/// Checked right shift: the wrapping shift for amounts below the bit
/// width, failure at or past it.
pub open spec fn spec_checked_shr(a: i64, sh: u32) -> Option<i64> {
    if sh < 64 {
        Some(a.wrapping_shr(sh))
    } else {
        None
    }
}

pub fn checked_shr_i64(a: i64, sh: u32) -> (r: Option<i64>)
    ensures
        r == spec_checked_shr(a, sh),
{
    if sh < 64 {
        Some(a.wrapping_shr(sh))
    } else {
        None
    }
}

/// Rotation of the 64 bits to the left by `n % 64` places.
pub open spec fn spec_rotl(a: i64, n: u32) -> i64 {
    let s = (n % 64) as u64;
    let u = a as u64;
    if s == 0 {
        u as i64
    } else {
        ((u << s) | (u >> ((64 - s) as u64))) as i64
    }
}

pub fn rotl_i64(a: i64, n: u32) -> (r: i64)
    ensures
        r == spec_rotl(a, n),
{
    let s: u64 = (n % 64) as u64;
    let u: u64 = #[verifier::truncate] (a as u64);
    let v: u64 = if s == 0 {
        u
    } else {
        (u << s) | (u >> (64 - s))
    };
    #[verifier::truncate] (v as i64)
}

/// Rotation of the 64 bits to the right by `n % 64` places.
pub open spec fn spec_rotr(a: i64, n: u32) -> i64 {
    let s = (n % 64) as u64;
    let u = a as u64;
    if s == 0 {
        u as i64
    } else {
        ((u >> s) | (u << ((64 - s) as u64))) as i64
    }
}

pub fn rotr_i64(a: i64, n: u32) -> (r: i64)
    ensures
        r == spec_rotr(a, n),
{
    let s: u64 = (n % 64) as u64;
    let u: u64 = #[verifier::truncate] (a as u64);
    let v: u64 = if s == 0 {
        u
    } else {
        (u >> s) | (u << (64 - s))
    };
    #[verifier::truncate] (v as i64)
}

/// Wrapping exponentiation: the `e`-fold wrapping product of `a`.
pub open spec fn spec_wrap_pow(a: i64, e: u32) -> i64
    decreases e,
{
    if e == 0 {
        1i64
    } else {
        spec_wrap_pow(a, (e - 1) as u32).wrapping_mul(a)
    }
}

/// Relies on `i64::wrapping_pow`: wrapping (modular) exponentiation, which
/// computes `a.pow(e)` wrapping around at the boundary of the type — the
/// repeated wrapping product.
#[verifier::allow_in_spec]
pub assume_specification[ i64::wrapping_pow ](a: i64, e: u32) -> (r: i64)
    returns
        spec_wrap_pow(a, e),
;

/// Where the nominal operator does not overflow, the wrapping and checked
/// integer families agree with it and with each other; where it does
/// overflow, the checked family reports failure (the machine then
/// substitutes the fallback provider's value) while the wrapping family
/// returns the result reduced modulo `2^64`. Division and remainder fail
/// exactly on a zero divisor and on negating the one unrepresentable
/// magnitude.
pub proof fn lemma_wrapping_checked_agree(a: i64, b: i64)
    ensures
        i64::MIN <= a + b <= i64::MAX ==> a.wrapping_add(b) == a + b && a.checked_add(b)
            == Some((a + b) as i64),
        i64::MIN <= a - b <= i64::MAX ==> a.wrapping_sub(b) == a - b && a.checked_sub(b)
            == Some((a - b) as i64),
        i64::MIN <= a * b <= i64::MAX ==> a.wrapping_mul(b) == a * b && a.checked_mul(b)
            == Some((a * b) as i64),
        !(i64::MIN <= a + b <= i64::MAX) ==> a.checked_add(b) is None && (a.wrapping_add(b) - (a
            + b)) % 0x10000000000000000 == 0,
        !(i64::MIN <= a - b <= i64::MAX) ==> a.checked_sub(b) is None && (a.wrapping_sub(b) - (a
            - b)) % 0x10000000000000000 == 0,
        !(i64::MIN <= a * b <= i64::MAX) ==> a.checked_mul(b) is None && (a.wrapping_mul(b) - (a
            * b)) % 0x10000000000000000 == 0,
        a.checked_div(b) is None <==> b == 0 || (a == i64::MIN && b == -1),
        a.checked_rem(b) is None <==> b == 0 || (a == i64::MIN && b == -1),
{
    let m: int = 0x10000000000000000;
    assert(i64::MIN <= a * b <= i64::MAX ==> a.wrapping_mul(b) == a * b) by {
        if i64::MIN <= a * b <= i64::MAX {
            lemma_signed_crop_identity(a * b);
        }
    }
    assert(!(i64::MIN <= a + b <= i64::MAX) ==> (a.wrapping_add(b) - (a + b)) % m == 0) by {
        if !(i64::MIN <= a + b <= i64::MAX) {
            vstd::arithmetic::div_mod::lemma_mod_multiples_basic(-1, m);
            vstd::arithmetic::div_mod::lemma_mod_multiples_basic(1, m);
        }
    }
    assert(!(i64::MIN <= a - b <= i64::MAX) ==> (a.wrapping_sub(b) - (a - b)) % m == 0) by {
        if !(i64::MIN <= a - b <= i64::MAX) {
            vstd::arithmetic::div_mod::lemma_mod_multiples_basic(-1, m);
            vstd::arithmetic::div_mod::lemma_mod_multiples_basic(1, m);
        }
    }
    assert(!(i64::MIN <= a * b <= i64::MAX) ==> (a.wrapping_mul(b) - (a * b)) % m == 0) by {
        if !(i64::MIN <= a * b <= i64::MAX) {
            lemma_signed_crop_mod(a * b);
        }
    }
    assert(a.checked_div(b) is None <==> b == 0 || (a == i64::MIN && b == -1)) by {
        if b != 0 && !(a == i64::MIN && b == -1) {
            lemma_i64_div_in_range(a, b);
        }
    }
    assert(a.checked_rem(b) is None <==> b == 0 || (a == i64::MIN && b == -1)) by {
        if b != 0 && !(a == i64::MIN && b == -1) {
            lemma_i64_rem_in_range(a, b);
        }
    }
}

/// The signed crop of a representable value is the value itself.
proof fn lemma_signed_crop_identity(x: int)
    requires
        i64::MIN <= x <= i64::MAX,
    ensures
        vstd::wrapping::i64_specs::signed_crop(x) == x,
{
    let m: int = 0x10000000000000000;
    if x >= 0 {
        vstd::arithmetic::div_mod::lemma_small_mod(x as nat, m as nat);
    } else {
        vstd::arithmetic::div_mod::lemma_mod_add_multiples_vanish(x, m);
        vstd::arithmetic::div_mod::lemma_small_mod((m + x) as nat, m as nat);
    }
}

/// The signed crop of an integer differs from it by a multiple of `2^64`.
proof fn lemma_signed_crop_mod(x: int)
    ensures
        (vstd::wrapping::i64_specs::signed_crop(x) - x) % 0x10000000000000000 == 0,
{
    let m: int = 0x10000000000000000;
    let crop = vstd::wrapping::i64_specs::signed_crop(x) as int;
    vstd::arithmetic::div_mod::lemma_fundamental_div_mod(x, m);
    let q = x / m;
    if (x % m) > i64::MAX {
        assert(crop - x == (-q - 1) * m);
        vstd::arithmetic::div_mod::lemma_mod_multiples_basic(-q - 1, m);
    } else {
        assert(crop - x == (-q) * m);
        vstd::arithmetic::div_mod::lemma_mod_multiples_basic(-q, m);
    }
}

/// Truncating signed division of representable values stays representable
/// except when negating the one unrepresentable magnitude.
proof fn lemma_i64_div_in_range(a: i64, b: i64)
    requires
        b != 0,
        !(a == i64::MIN && b == -1),
    ensures
        a.checked_div(b) is Some,
{
    let x = a as int;
    let d = b as int;
    if x == 0 {
    } else if x > 0 && d > 0 {
        vstd::arithmetic::div_mod::lemma_div_nonincreasing(x, d);
        vstd::arithmetic::div_mod::lemma_div_pos_is_pos(x, d);
    } else if x < 0 && d < 0 {
        vstd::arithmetic::div_mod::lemma_div_nonincreasing(x * -1, d * -1);
        vstd::arithmetic::div_mod::lemma_div_pos_is_pos(x * -1, d * -1);
        if a == i64::MIN {
            assert(d * -1 >= 2);
            vstd::arithmetic::div_mod::lemma_div_is_ordered_by_denominator(x * -1, 2, d * -1);
        }
    } else if x < 0 {
        vstd::arithmetic::div_mod::lemma_div_nonincreasing(x * -1, d);
        vstd::arithmetic::div_mod::lemma_div_pos_is_pos(x * -1, d);
    } else {
        vstd::arithmetic::div_mod::lemma_div_nonincreasing(x, d * -1);
        vstd::arithmetic::div_mod::lemma_div_pos_is_pos(x, d * -1);
    }
}

/// Truncating signed remainder of representable values stays representable
/// except when negating the one unrepresentable magnitude.
proof fn lemma_i64_rem_in_range(a: i64, b: i64)
    requires
        b != 0,
        !(a == i64::MIN && b == -1),
    ensures
        a.checked_rem(b) is Some,
{
    let x = a as int;
    let d = b as int;
    if x == 0 {
    } else if x > 0 && d > 0 {
        vstd::arithmetic::div_mod::lemma_mod_bound(x, d);
    } else if x < 0 && d < 0 {
        vstd::arithmetic::div_mod::lemma_mod_bound(x * -1, d * -1);
    } else if x < 0 {
        vstd::arithmetic::div_mod::lemma_mod_bound(x * -1, d);
    } else {
        vstd::arithmetic::div_mod::lemma_mod_bound(x, d * -1);
    }
}

} // verus!
