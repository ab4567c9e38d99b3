//! Angles of label elements.
//!
//! An angle in degrees is kept as the bits of a 32-bit floating point number.

use vstd::arithmetic::div_mod::{
    lemma_mul_mod_noop_right, lemma_small_mod, lemma_truncate_middle,
};
use vstd::arithmetic::power2::{lemma2_to64, lemma_pow2_adds, lemma_pow2_pos, pow2};
use vstd::prelude::*;

verus! {

/// Whether the number is negative.
pub open spec fn is_negative(bits: u32) -> bool {
    bits >= 0x8000_0000
}

/// The exponent field of a number.
pub open spec fn exponent(bits: u32) -> nat {
    (bits % 0x8000_0000 / 0x80_0000) as nat
}

/// The significand of a number, with the leading bit that is not stored.
pub open spec fn significand(bits: u32) -> nat {
    if exponent(bits) == 0 {
        (bits % 0x80_0000) as nat
    } else {
        (bits % 0x80_0000) as nat + 0x80_0000
    }
}

/// The absolute value of a finite number, counted in units of 2 to the power of
/// -149, of which every such number is a multiple.
pub open spec fn magnitude(bits: u32) -> nat {
    significand(bits) * pow2(
        if exponent(bits) == 0 {
            0
        } else {
            (exponent(bits) - 1) as nat
        },
    )
}

/// Half a degree in the units of [`magnitude`].
pub open spec fn half_degree() -> nat {
    pow2(148)
}

/// Whether an angle is within half a degree of a whole number of turns.
///
/// An angle counts from zero up to a full turn. To bring a negative one there a
/// full turn is added in 32-bit arithmetic, which rounds an angle within 2 to
/// the power of -16 of the limit onto it; infinities and what is no number have
/// no angle.
pub open spec fn unrotated(bits: u32) -> bool {
    let rest = magnitude(bits) % (720 * half_degree());
    let limit = if is_negative(bits) {
        half_degree() - pow2(133)
    } else {
        half_degree() as int
    };
    exponent(bits) != 0xff && (rest < limit || rest > 719 * half_degree())
}

/// The powers of two that the cases are told apart by.
pub proof fn lemma_powers()
    ensures
        pow2(8) == 0x100,
        pow2(23) == 0x80_0000,
        pow2(24) == 0x100_0000,
        pow2(148) == pow2(23) * pow2(125),
        pow2(133) == pow2(8) * pow2(125),
        pow2(149) == pow2(24) * pow2(125),
        pow2(149) == 2 * pow2(148),
        pow2(148) == pow2(24) * pow2(124),
        pow2(133) == 0x200 * pow2(124),
        pow2(125) > 0,
        pow2(124) > 0,
        pow2(133) > 0,
{
    lemma2_to64();
    lemma_pow2_adds(23, 125);
    lemma_pow2_adds(8, 125);
    lemma_pow2_adds(24, 125);
    lemma_pow2_adds(1, 148);
    lemma_pow2_adds(24, 124);
    lemma_pow2_adds(9, 124);
    lemma_pow2_pos(125);
    lemma_pow2_pos(124);
    lemma_pow2_pos(133);
}

/// Numbers below one half.
pub proof fn lemma_small(bits: u32)
    requires
        exponent(bits) < 126,
    ensures
        magnitude(bits) % (720 * half_degree()) == magnitude(bits),
        magnitude(bits) < half_degree(),
        exponent(bits) < 125 ==> magnitude(bits) < half_degree() - pow2(133),
        exponent(bits) == 125 ==> (magnitude(bits) < half_degree() - pow2(133) <==> significand(
            bits,
        ) < 0x100_0000 - 0x200),
{
    lemma_powers();
    let m = significand(bits) as int;
    let e: nat = if exponent(bits) == 0 {
        0
    } else {
        (exponent(bits) - 1) as nat
    };
    assert(m < 0x100_0000);
    let p = pow2(e) as int;
    let q = pow2(124) as int;
    lemma_pow2_pos(e);
    if e < 124 {
        lemma_pow2_adds(e, (124 - e) as nat);
        lemma_pow2_adds(1, (124 - e - 1) as nat);
        lemma_pow2_pos((124 - e - 1) as nat);
        lemma2_to64();
        let r = pow2((124 - e) as nat) as int;
        assert(2 * p <= q) by (nonlinear_arith)
            requires
                q == p * r,
                r >= 2,
                p > 0,
        ;
        assert(2 * (m * p) <= 0x100_0000 * q) by (nonlinear_arith)
            requires
                2 * p <= q,
                0 <= m <= 0x100_0000,
                p > 0,
        ;
    } else {
        assert(m * p < 0x100_0000 * q) by (nonlinear_arith)
            requires
                p == q,
                0 <= m < 0x100_0000,
                q > 0,
        ;
        assert((m * p < (0x100_0000 - 0x200) * q) == (m < 0x100_0000 - 0x200)) by (nonlinear_arith)
            requires
                p == q,
                q > 0,
        ;
    }
    lemma_small_mod(magnitude(bits), 720 * half_degree());
}

/// Numbers from one half up to those whose last bit is worth one.
pub proof fn lemma_medium(bits: u32, scaled: nat)
    requires
        126 <= exponent(bits) <= 150,
        scaled == significand(bits) * pow2((exponent(bits) - 126) as nat),
    ensures
        ({
            let rest = (scaled % 0x1_6800_0000) as int;
            let all = (magnitude(bits) % (720 * half_degree())) as int;
            &&& (all < half_degree()) == (rest < 0x80_0000)
            &&& (all < half_degree() - pow2(133)) == (rest < 0x80_0000 - 0x100)
            &&& (all > 719 * half_degree()) == (rest > 719 * 0x80_0000)
        }),
{
    lemma_powers();
    let u = pow2(125) as int;
    let e = (exponent(bits) - 126) as nat;
    lemma_pow2_adds(e, 125);
    let m = significand(bits) as int;
    let p = pow2(e) as int;
    assert(m * (p * u) == u * (m * p)) by (nonlinear_arith);
    assert(magnitude(bits) == u * scaled);
    assert(720 * half_degree() == u * (360 * 0x100_0000)) by (nonlinear_arith)
        requires
            half_degree() == 0x80_0000 * u,
    ;
    lemma_truncate_middle(scaled as int, u, 0x1_6800_0000);
    let rest = (scaled % 0x1_6800_0000) as int;
    assert((u * rest < 0x80_0000 * u) == (rest < 0x80_0000)) by (nonlinear_arith)
        requires
            u > 0,
    ;
    assert((u * rest < 0x80_0000 * u - 0x100 * u) == (rest < 0x80_0000 - 0x100))
        by (nonlinear_arith)
        requires
            u > 0,
    ;
    assert((u * rest > 719 * (0x80_0000 * u)) == (rest > 719 * 0x80_0000)) by (nonlinear_arith)
        requires
            u > 0,
    ;
}

/// Whole numbers.
pub proof fn lemma_large(bits: u32)
    requires
        150 <= exponent(bits),
    ensures
        unrotated(bits) <==> exponent(bits) != 0xff && (significand(bits) * pow2(
            (exponent(bits) - 150) as nat,
        )) % 360 == 0,
{
    lemma_powers();
    let u = pow2(149) as int;
    let h = pow2(148) as int;
    let e = (exponent(bits) - 150) as nat;
    lemma_pow2_adds(e, 149);
    let m = significand(bits) as int;
    let p = pow2(e) as int;
    let whole = (significand(bits) * pow2(e)) as int;
    assert(m * (p * u) == u * (m * p)) by (nonlinear_arith);
    assert(magnitude(bits) == u * whole);
    assert(720 * half_degree() == u * 360) by (nonlinear_arith)
        requires
            half_degree() == h,
            u == 2 * h,
    ;
    lemma_truncate_middle(whole, u, 360);
    let rest = whole % 360;
    assert(u * rest == 2 * (h * rest)) by (nonlinear_arith)
        requires
            u == 2 * h,
    ;
    assert(rest >= 1 ==> h * rest >= h) by (nonlinear_arith)
        requires
            h > 0,
    ;
    assert(rest <= 359 ==> h * rest <= 359 * h) by (nonlinear_arith)
        requires
            h > 0,
    ;
    assert(rest == 0 ==> h * rest == 0) by (nonlinear_arith);
    assert(pow2(133) < h) by (nonlinear_arith)
        requires
            h == 0x80_0000 * pow2(125),
            pow2(133) == 0x100 * pow2(125),
            pow2(125) > 0,
    ;
}

/// Whether an angle is within half a degree of a whole number of turns.
pub fn effectively_unrotated(bits: u32) -> (r: bool)
    ensures
        r == unrotated(bits),
{
    let negative: bool = bits >= 0x8000_0000;
    let exponent: u32 = bits % 0x8000_0000 / 0x80_0000;
    let significand: u32 = if exponent == 0 {
        bits % 0x80_0000
    } else {
        bits % 0x80_0000 + 0x80_0000
    };
    if exponent == 0xff {
        return false;
    }
    if exponent < 126 {
        proof {
            lemma_small(bits);
            lemma_powers();
        }
        return !negative || exponent < 125 || significand < 0x100_0000 - 0x200;
    }
    if exponent <= 150 {
        let steps: u32 = exponent - 126;
        let mut scaled: u64 = significand as u64;
        let mut i: u32 = 0;
        proof {
            lemma2_to64();
        }
        while i < steps
            invariant
                i <= steps <= 24,
                significand < 0x100_0000,
                scaled == significand * pow2(i as nat),
                scaled <= 0x100_0000 * pow2(i as nat),
            decreases steps - i,
        {
            proof {
                lemma2_to64();
                lemma_pow2_adds(1, i as nat);
                lemma_pow2_adds(i as nat, (24 - i) as nat);
                lemma_pow2_pos((24 - i) as nat);
                let p = pow2(i as nat) as int;
                let r = pow2((24 - i) as nat) as int;
                assert(p <= 0x100_0000) by (nonlinear_arith)
                    requires
                        p * r == 0x100_0000,
                        r >= 1,
                        p >= 0,
                ;
                assert(2 * (significand * p) == significand * (2 * p)) by (nonlinear_arith);
            }
            scaled = scaled * 2;
            i = i + 1;
        }
        let rest: u64 = scaled % 0x1_6800_0000;
        proof {
            lemma_medium(bits, scaled as nat);
        }
        let limit: u64 = if negative {
            0x80_0000 - 0x100
        } else {
            0x80_0000
        };
        return rest < limit || rest > 719 * 0x80_0000;
    }
    let steps: u32 = exponent - 150;
    let mut rest: u32 = significand % 360;
    let mut i: u32 = 0;
    proof {
        lemma2_to64();
    }
    while i < steps
        invariant
            i <= steps,
            rest < 360,
            rest == (significand * pow2(i as nat)) % 360,
        decreases steps - i,
    {
        proof {
            lemma2_to64();
            lemma_pow2_adds(1, i as nat);
            let p = pow2(i as nat) as int;
            assert(2 * (significand * p) == significand * (2 * p)) by (nonlinear_arith);
            lemma_mul_mod_noop_right(2, significand * p, 360);
        }
        rest = rest * 2 % 360;
        i = i + 1;
    }
    proof {
        lemma_large(bits);
    }
    rest == 0
}

} // verus!
