//! Unsigned 256-bit amounts, as token contracts count them: in the smallest
//! unit of a token, with no decimal point.

use vstd::prelude::*;

verus! {

/// Two to the power 64: the weight of the second limb.
pub open spec fn limb_base() -> nat {
    0x1_0000_0000_0000_0000
}

/// The number that four 64-bit limbs stand for, least significant first.
pub open spec fn limbs_value(limbs: Seq<u64>) -> nat {
    (limbs[0] as nat) + (limbs[1] as nat) * limb_base() + (limbs[2] as nat) * limb_base()
        * limb_base() + (limbs[3] as nat) * limb_base() * limb_base() * limb_base()
}

/// The largest number that four limbs can hold: two to the power 256, less one.
pub open spec fn max_value() -> nat {
    0xffff_ffff_ffff_ffff_ffff_ffff_ffff_ffff_ffff_ffff_ffff_ffff_ffff_ffff_ffff_ffffnat
}

/// Ten to the power `n`.
pub open spec fn pow10(n: nat) -> nat
    decreases n,
{
    if n == 0 {
        1
    } else {
        10 * pow10((n - 1) as nat)
    }
}

/// The largest exponent whose power of ten still fits in 256 bits.
pub const MAX_EXP10: u32 = 77;

/// An unsigned 256-bit integer, held as four 64-bit limbs with the least
/// significant limb first.
#[derive(Clone, Copy, Debug, PartialEq, Eq)]
pub struct Uint256 {
    pub limbs: [u64; 4],
}

impl View for Uint256 {
    type V = nat;

    open spec fn view(&self) -> nat {
        limbs_value(self.limbs@)
    }
}

/// Every value of four limbs is at most `max_value()`.
pub proof fn lemma_value_bounded(x: Uint256)
    ensures
        x@ <= max_value(),
{
}

/// Powers of ten multiply as their exponents add.
pub proof fn lemma_pow10_adds(a: nat, b: nat)
    ensures
        pow10(a + b) == pow10(a) * pow10(b),
    decreases a,
{
    if a == 0 {
        assert(pow10(0) == 1);
        assert(1 * pow10(b) == pow10(b)) by (nonlinear_arith);
    } else {
        lemma_pow10_adds((a - 1) as nat, b);
        assert((a - 1) as nat + b == (a + b - 1) as nat);
        assert(10 * (pow10((a - 1) as nat) * pow10(b)) == (10 * pow10((a - 1) as nat)) * pow10(b))
            by (nonlinear_arith);
    }
}

/// Powers of ten are positive and do not shrink as the exponent grows.
pub proof fn lemma_pow10_grows(a: nat, b: nat)
    requires
        a <= b,
    ensures
        1 <= pow10(a) <= pow10(b),
    decreases b,
{
    if a == 0 {
        if b > 0 {
            lemma_pow10_grows(0, (b - 1) as nat);
        }
    } else {
        lemma_pow10_grows((a - 1) as nat, (b - 1) as nat);
    }
}

/// The two powers of ten on either side of the 256-bit limit.
pub proof fn lemma_pow10_limit()
    ensures
        pow10(77) == 100000000000000000000000000000000000000000000000000000000000000000000000000000nat,
        pow10(77) <= max_value(),
        pow10(78) > max_value(),
{
    assert(pow10(11) == 100000000000) by {
        reveal_with_fuel(pow10, 12);
    }
    lemma_pow10_adds(11, 11);
    assert(pow10(22) == 10000000000000000000000);
    lemma_pow10_adds(22, 22);
    assert(pow10(44) == 100000000000000000000000000000000000000000000nat);
    lemma_pow10_adds(44, 22);
    lemma_pow10_adds(66, 11);
    assert(pow10(77)
        == 100000000000000000000000000000000000000000000000000000000000000000000000000000nat);
    assert(pow10(78) == 10 * pow10(77));
}

/// A power of ten fits in 256 bits exactly when its exponent is at most 77.
pub proof fn lemma_pow10_fits(n: nat)
    ensures
        pow10(n) <= max_value() <==> n <= MAX_EXP10,
{
    lemma_pow10_limit();
    if n <= 77 {
        lemma_pow10_grows(n, 77);
    } else {
        lemma_pow10_grows(78, n);
    }
}

/// Ten to the power `n`, by `U256::exp10` of the ethers crate. That function
/// multiplies by ten `n` times and stops the program when a product no longer
/// fits, which the bound on `n` rules out.
#[verifier::external_body]
pub(crate) fn exp10_in_range(n: u32) -> (power: Uint256)
    requires
        n <= MAX_EXP10,
    ensures
        power@ == pow10(n as nat),
{
    Uint256 { limbs: ethers::types::U256::exp10(n as usize).0 }
}

/// Quotient and remainder, by `U256::div_mod` of the ethers crate. That
/// function stops the program on a zero divisor, which is left out here.
#[verifier::external_body]
pub(crate) fn div_mod_nonzero(dividend: Uint256, divisor: Uint256) -> (parts: (Uint256, Uint256))
    requires
        divisor@ != 0,
    ensures
        parts.0@ == dividend@ / divisor@,
        parts.1@ == dividend@ % divisor@,
{
    let (quotient, remainder) = ethers::types::U256(dividend.limbs).div_mod(
        ethers::types::U256(divisor.limbs),
    );
    (Uint256 { limbs: quotient.0 }, Uint256 { limbs: remainder.0 })
}

impl Uint256 {
    /// The number zero.
    pub fn zero() -> (value: Uint256)
        ensures
            value@ == 0,
    {
        Uint256 { limbs: [0, 0, 0, 0] }
    }

    /// The number that a 64-bit integer holds.
    pub fn from_u64(small: u64) -> (value: Uint256)
        ensures
            value@ == small,
    {
        Uint256 { limbs: [small, 0, 0, 0] }
    }

    /// This number as a signed 64-bit integer, where it fits in one.
    pub fn to_i64(&self) -> (small: Option<i64>)
        ensures
            small.is_some() <==> self@ <= i64::MAX,
            small matches Some(v) ==> v == self@,
    {
        if self.limbs[1] == 0 && self.limbs[2] == 0 && self.limbs[3] == 0 && self.limbs[0]
            <= 0x7fff_ffff_ffff_ffff {
            Some(self.limbs[0] as i64)
        } else {
            None
        }
    }

    /// Ten to the power `n`, where that fits in 256 bits: for `n` up to 77.
    pub fn exp10(n: u32) -> (power: Option<Uint256>)
        ensures
            power.is_some() <==> n <= MAX_EXP10,
            power.is_some() <==> pow10(n as nat) <= max_value(),
            power matches Some(p) ==> p@ == pow10(n as nat),
    {
        proof {
            lemma_pow10_fits(n as nat);
        }
        if n <= MAX_EXP10 {
            Some(exp10_in_range(n))
        } else {
            None
        }
    }
}

} // verus!
