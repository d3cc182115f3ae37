//! Double-precision numbers, by their bits.
//!
//! A number of 64 bits holds a sign in its top bit, an exponent in the next 11 and a
//! fraction in the low 52. The library neither adds nor multiplies such numbers: it tells
//! their sign and kind, and compares their magnitude with whole numbers, exactly.

use vstd::prelude::*;
use vstd::arithmetic::div_mod::{lemma_basic_div, lemma_fundamental_div_mod, lemma_mod_bound};
use vstd::arithmetic::power2::{
    lemma2_to64, lemma2_to64_rest, lemma_pow2_adds, lemma_pow2_pos,
    lemma_pow2_strictly_increases, pow2,
};
use vstd::bits::lemma_u128_shr_is_div;

verus! {

/// The weight of the sign bit.
pub const SIGN_BIT: u64 = 0x8000_0000_0000_0000;

/// The weight of the lowest bit of the exponent, which is also the leading bit that the
/// fraction of a normal number leaves unwritten.
pub const HIDDEN_BIT: u64 = 0x10_0000_0000_0000;

/// The number of values that the exponent can take.
pub const EXPONENT_RANGE: u64 = 0x800;

/// The exponent of infinities and of what is not a number.
pub const SPECIAL_EXPONENT: u64 = 0x7ff;

/// The exponent at which the lowest bit of the fraction counts one.
pub const EXPONENT_OF_UNITS: u64 = 1075;

/// The fraction field of `bits`.
pub open spec fn fraction(bits: u64) -> nat {
    (bits % HIDDEN_BIT) as nat
}

/// The exponent field of `bits`.
pub open spec fn exponent(bits: u64) -> nat {
    ((bits / HIDDEN_BIT) % EXPONENT_RANGE) as nat
}

/// Whether the sign bit of `bits` is set.
pub open spec fn is_negative(bits: u64) -> bool {
    bits >= SIGN_BIT
}

/// Whether `bits` are not a number.
pub open spec fn is_nan(bits: u64) -> bool {
    exponent(bits) == SPECIAL_EXPONENT && fraction(bits) != 0
}

/// Whether `bits` are an infinity.
pub open spec fn is_infinite(bits: u64) -> bool {
    exponent(bits) == SPECIAL_EXPONENT && fraction(bits) == 0
}

/// Whether `bits` are zero, of either sign.
pub open spec fn is_zero(bits: u64) -> bool {
    exponent(bits) == 0 && fraction(bits) == 0
}

/// The significand of a finite number: the fraction, with the hidden bit unless the number
/// is subnormal.
pub open spec fn significand(bits: u64) -> nat {
    if exponent(bits) == 0 {
        fraction(bits)
    } else {
        HIDDEN_BIT as nat + fraction(bits)
    }
}

/// The power of two that scales the significand: the magnitude of a finite number is
/// `significand * 2^scale / 2^1075`.
pub open spec fn scale(bits: u64) -> nat {
    if exponent(bits) == 0 {
        1
    } else {
        exponent(bits)
    }
}

/// Whether `unit` times the magnitude of the number `bits` is at most `amount`.
///
/// The magnitude of a finite number is `significand * 2^scale / 2^1075`, and the two sides
/// are compared as they are, with nothing rounded. Of an infinity, and of what is not a
/// number, no multiple is at most any amount.
pub open spec fn magnitude_within(bits: u64, unit: nat, amount: int) -> bool {
    exponent(bits) != SPECIAL_EXPONENT && significand(bits) * pow2(scale(bits)) * unit <= amount
        * pow2(EXPONENT_OF_UNITS as nat)
}

/// A number that is not zero has a significand above zero.
pub proof fn lemma_significand_is_positive(bits: u64)
    requires
        !is_zero(bits),
    ensures
        0 < significand(bits),
{
}

/// For a whole number `p` above zero, `t * p <= a` says as much as `t <= a / p`.
proof fn lemma_product_within(t: int, p: int, a: int)
    requires
        0 <= t,
        0 < p,
        0 <= a,
    ensures
        (t * p <= a) <==> (t <= a / p),
{
    let q = a / p;
    lemma_fundamental_div_mod(a, p);
    lemma_mod_bound(a, p);
    if t <= q {
        assert(t * p <= p * q) by (nonlinear_arith)
            requires
                0 <= t <= q,
                0 < p,
        ;
    } else {
        assert(t * p >= p * q + p) by (nonlinear_arith)
            requires
                t >= q + 1,
                0 < p,
        ;
    }
}

/// For whole numbers `t` and `p` above zero, `t <= a * p` says as much as
/// `(t - 1) / p < a`.
proof fn lemma_within_product(t: int, p: int, a: int)
    requires
        1 <= t,
        0 < p,
        0 <= a,
    ensures
        (t <= a * p) <==> ((t - 1) / p < a),
{
    let q = (t - 1) / p;
    lemma_fundamental_div_mod(t - 1, p);
    lemma_mod_bound(t - 1, p);
    if q < a {
        assert(a * p >= p * q + p) by (nonlinear_arith)
            requires
                a >= q + 1,
                0 < p,
        ;
    } else {
        assert(a * p <= p * q) by (nonlinear_arith)
            requires
                0 <= a <= q,
                0 < p,
        ;
    }
}

/// From the exponent of units on, the magnitude is the significand times a power of two.
proof fn lemma_within_above_units(bits: u64, unit: nat, amount: int)
    requires
        EXPONENT_OF_UNITS <= scale(bits),
    ensures
        (significand(bits) * pow2(scale(bits)) * unit <= amount * pow2(
            EXPONENT_OF_UNITS as nat,
        )) <==> (significand(bits) * unit * pow2((scale(bits) - EXPONENT_OF_UNITS) as nat)
            <= amount),
{
    let sig = significand(bits) as int;
    let by = pow2((scale(bits) - EXPONENT_OF_UNITS) as nat) as int;
    let one = pow2(1075) as int;
    let times = unit as int;
    lemma_pow2_adds((scale(bits) - EXPONENT_OF_UNITS) as nat, 1075);
    lemma_pow2_pos(1075);
    assert(sig * (by * one) * times == (sig * times * by) * one) by (nonlinear_arith);
    assert(((sig * times * by) * one <= amount * one) <==> (sig * times * by <= amount))
        by (nonlinear_arith)
        requires
            0 < one,
    ;
}

/// Below the exponent of units, the magnitude is the significand divided by a power of
/// two.
proof fn lemma_within_below_units(bits: u64, unit: nat, amount: int)
    requires
        scale(bits) < EXPONENT_OF_UNITS,
    ensures
        (significand(bits) * pow2(scale(bits)) * unit <= amount * pow2(
            EXPONENT_OF_UNITS as nat,
        )) <==> (significand(bits) * unit <= amount * pow2(
            (EXPONENT_OF_UNITS - scale(bits)) as nat,
        )),
{
    let sig = significand(bits) as int;
    let by = pow2(scale(bits)) as int;
    let under = pow2((EXPONENT_OF_UNITS - scale(bits)) as nat) as int;
    let times = unit as int;
    lemma_pow2_adds(scale(bits), (EXPONENT_OF_UNITS - scale(bits)) as nat);
    lemma_pow2_pos(scale(bits));
    assert(sig * by * times == (sig * times) * by) by (nonlinear_arith);
    assert(amount * (by * under) == (amount * under) * by) by (nonlinear_arith);
    assert(((sig * times) * by <= (amount * under) * by) <==> (sig * times <= amount * under))
        by (nonlinear_arith)
        requires
            0 < by,
    ;
}

/// The fraction field of `bits`.
pub fn fraction_of(bits: u64) -> (field: u64)
    ensures
        field == fraction(bits),
        field < HIDDEN_BIT,
{
    bits % HIDDEN_BIT
}

/// The exponent field of `bits`.
pub fn exponent_of(bits: u64) -> (field: u64)
    ensures
        field == exponent(bits),
        field <= SPECIAL_EXPONENT,
{
    (bits / HIDDEN_BIT) % EXPONENT_RANGE
}

/// Whether `unit` times the magnitude of the number `bits` is at most `amount`.
///
/// The comparison is exact: what follows the point in the number counts.
pub fn magnitude_is_within(bits: u64, unit: u32, amount: i128) -> (within: bool)
    ensures
        within == magnitude_within(bits, unit as nat, amount as int),
{
    let exponent = exponent_of(bits);
    let fraction = fraction_of(bits);
    if exponent == SPECIAL_EXPONENT {
        return false;
    }
    let significand: u64 = if exponent == 0 {
        fraction
    } else {
        HIDDEN_BIT + fraction
    };
    let scale: u64 = if exponent == 0 {
        1
    } else {
        exponent
    };
    assert(significand as u128 * unit as u128 <= 0xffff_ffff_ffff_ffff * 0xffff_ffff)
        by (nonlinear_arith)
        requires
            significand <= 0xffff_ffff_ffff_ffff,
            unit <= 0xffff_ffff,
    ;
    let product: u128 = significand as u128 * unit as u128;
    if amount < 0 {
        proof {
            lemma_pow2_pos(scale as nat);
            lemma_pow2_pos(1075);
            let left = significand * pow2(scale as nat) * unit;
            let right = amount * pow2(1075);
            assert(0 <= left) by (nonlinear_arith)
                requires
                    left == significand * pow2(scale as nat) * unit,
                    0 <= significand,
                    0 < pow2(scale as nat),
                    0 <= unit,
            ;
            assert(right < 0) by (nonlinear_arith)
                requires
                    right == amount * pow2(1075),
                    amount < 0,
                    0 < pow2(1075),
            ;
        }
        return false;
    }
    let room: u128 = amount as u128;
    if scale >= EXPONENT_OF_UNITS {
        let shift = scale - EXPONENT_OF_UNITS;
        proof {
            lemma_within_above_units(bits, unit as nat, amount as int);
            lemma_pow2_pos(shift as nat);
        }
        if product == 0 {
            assert(product * pow2(shift as nat) == 0) by (nonlinear_arith)
                requires
                    product == 0,
            ;
            true
        } else if shift >= 127 {
            proof {
                lemma2_to64();
                lemma2_to64_rest();
                lemma_pow2_adds(63, 64);
                if shift > 127 {
                    lemma_pow2_strictly_increases(127, shift as nat);
                }
                assert(product * pow2(shift as nat) >= pow2(127)) by (nonlinear_arith)
                    requires
                        product >= 1,
                        pow2(shift as nat) >= pow2(127),
                ;
            }
            false
        } else {
            proof {
                lemma_u128_shr_is_div(room, shift as u128);
                lemma_product_within(
                    product as int,
                    pow2(shift as nat) as int,
                    room as int,
                );
            }
            product <= (room >> shift)
        }
    } else {
        let shift = EXPONENT_OF_UNITS - scale;
        proof {
            lemma_within_below_units(bits, unit as nat, amount as int);
            lemma_pow2_pos(shift as nat);
        }
        if product == 0 {
            assert(0 <= room * pow2(shift as nat)) by (nonlinear_arith)
                requires
                    0 <= room,
                    0 < pow2(shift as nat),
            ;
            true
        } else if shift >= 128 {
            proof {
                lemma2_to64();
                lemma_pow2_adds(64, 64);
                if shift > 128 {
                    lemma_pow2_strictly_increases(128, shift as nat);
                }
                lemma_basic_div(product - 1, pow2(shift as nat) as int);
                lemma_within_product(
                    product as int,
                    pow2(shift as nat) as int,
                    room as int,
                );
            }
            0 < room
        } else {
            proof {
                lemma_u128_shr_is_div((product - 1) as u128, shift as u128);
                lemma_within_product(
                    product as int,
                    pow2(shift as nat) as int,
                    room as int,
                );
            }
            ((product - 1) >> shift) < room
        }
    }
}

} // verus!
