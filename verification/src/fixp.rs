use vstd::prelude::*;

verus! {

/// Fixed-point interpretation of the IEEE-754 single-precision bit
/// patterns that the instruction stream stores for durations and speeds.
/// The library holds no floating point: a pattern is read as a whole
/// number of thousandths (milliseconds for a length in seconds,
/// milli-units for a speed in world units), truncated toward zero and
/// saturated at the i64 range. Zero, subnormal, infinite and NaN
/// patterns all read as 0.
use vstd::arithmetic::power2::pow2;
use vstd::arithmetic::power2::lemma_pow2_strictly_increases;
use vstd::arithmetic::power2::lemma2_to64;
use vstd::arithmetic::power2::lemma2_to64_rest;

pub open spec fn spec_milli_mag(bits: u32) -> int {
    let e = ((bits / 0x800000) % 0x100) as int;
    let m = (bits % 0x800000) as int;
    if e == 0 || e == 255 {
        0
    } else {
        let sig = (m + 0x800000) * 1000;
        if e >= 181 {
            0x7fff_ffff_ffff_ffff
        } else if e >= 150 {
            let v = sig * pow2((e - 150) as nat);
            if v > 0x7fff_ffff_ffff_ffff {
                0x7fff_ffff_ffff_ffff
            } else {
                v
            }
        } else {
            sig / pow2((150 - e) as nat) as int
        }
    }
}

pub open spec fn spec_milli_of_bits(bits: u32) -> i64 {
    if bits >= 0x8000_0000 {
        (-spec_milli_mag(bits)) as i64
    } else {
        spec_milli_mag(bits) as i64
    }
}

pub fn pow2_u64(e: u32) -> (r: u64)
    requires
        e <= 63,
    ensures
        r == pow2(e as nat),
{
    let mut r: u64 = 1;
    let mut i: u32 = 0;
    proof {
        lemma2_to64();
        lemma2_to64_rest();
    }
    while i < e
        invariant
            i <= e,
            e <= 63,
            r == pow2(i as nat),
        decreases e - i,
    {
        proof {
            if (i as nat) < 63 {
                lemma_pow2_strictly_increases(i as nat, 63);
            }
            lemma2_to64_rest();
            assert(pow2((i + 1) as nat) == pow2(i as nat) * 2) by {
                vstd::arithmetic::power2::lemma_pow2_unfold((i + 1) as nat);
            }
        }
        r = r * 2;
        i = i + 1;
    }
    r
}

/// The magnitude part of the fixed-point read.
fn milli_mag(bits: u32) -> (r: u64)
    ensures
        r as int == spec_milli_mag(bits),
        r <= 0x7fff_ffff_ffff_ffff,
{
    let e: u32 = (bits / 0x800000) % 0x100;
    let m: u32 = bits % 0x800000;
    if e == 0 || e == 255 {
        0
    } else {
        let sig: u64 = (m as u64 + 0x800000) * 1000;
        if e >= 181 {
            0x7fff_ffff_ffff_ffff
        } else if e >= 150 {
            let shift: u32 = e - 150;
            let p: u64 = pow2_u64(shift);
            proof {
                assert(shift <= 30);
                if (shift as nat) < 30 {
                    lemma_pow2_strictly_increases(shift as nat, 30);
                }
                lemma2_to64();
                assert(p <= 0x40000000);
                assert(sig * p <= 0x8_0000_0000 * 0x40000000) by (nonlinear_arith)
                    requires
                        sig <= 0x8_0000_0000,
                        p <= 0x40000000,
                        0 <= sig,
                        0 <= p,
                ;
            }
            let v: u128 = (sig as u128) * (p as u128);
            if v > 0x7fff_ffff_ffff_ffff {
                0x7fff_ffff_ffff_ffff
            } else {
                v as u64
            }
        } else {
            let d: u32 = 150 - e;
            if d >= 64 {
                proof {
                    lemma_pow2_strictly_increases(63, d as nat);
                    lemma2_to64();
                    lemma2_to64_rest();
                    assert(pow2(d as nat) > pow2(63));
                    assert(sig < pow2(63));
                    vstd::arithmetic::div_mod::lemma_basic_div(sig as int, pow2(d as nat) as int);
                }
                0
            } else {
                let p: u64 = pow2_u64(d);
                proof {
                    vstd::arithmetic::power2::lemma_pow2_pos(d as nat);
                    vstd::arithmetic::div_mod::lemma_div_is_ordered_by_denominator(
                        sig as int,
                        1,
                        p as int,
                    );
                }
                sig / p
            }
        }
    }
}

/// Reads an IEEE-754 single bit pattern as a signed count of
/// thousandths, truncated toward zero and saturated at the i64 range.
pub fn milli_of_bits(bits: u32) -> (r: i64)
    ensures
        r == spec_milli_of_bits(bits),
{
    let mag = milli_mag(bits);
    if bits >= 0x8000_0000 {
        -(mag as i64)
    } else {
        mag as i64
    }
}

} // verus!
