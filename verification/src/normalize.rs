//! From an amount in a token's smallest unit to the number a person reads:
//! the amount divided by ten to the power of the token's decimals.

use crate::uint256::{
    div_mod_nonzero, exp10_in_range, lemma_pow10_grows, lemma_pow10_limit, lemma_value_bounded,
    max_value, pow10, Uint256, MAX_EXP10,
};
use vstd::prelude::*;

verus! {

/// The whole units in `raw` for a token with `decimals` decimals.
pub open spec fn whole_part(raw: nat, decimals: nat) -> nat {
    raw / pow10(decimals)
}

/// What is left of `raw` below one whole unit, in the smallest unit.
pub open spec fn fraction_part(raw: nat, decimals: nat) -> nat {
    raw % pow10(decimals)
}

/// An amount with its decimal point in place: `whole` units, and `fraction`
/// smallest units of which ten to the power `decimals` make one whole.
#[derive(Clone, Copy, Debug, PartialEq, Eq)]
pub struct Decimal {
    pub whole: Uint256,
    pub fraction: Uint256,
    pub decimals: u32,
}

impl Decimal {
    /// The fraction is less than one whole unit.
    pub open spec fn well_formed(&self) -> bool {
        self.fraction@ < pow10(self.decimals as nat)
    }

    /// The amount in the smallest unit that this value was made from.
    pub open spec fn raw(&self) -> nat {
        self.whole@ * pow10(self.decimals as nat) + self.fraction@
    }
}

/// The two parts put together again give the amount, and the fraction stays
/// below one whole unit.
pub proof fn lemma_parts_recompose(raw: nat, decimals: nat)
    ensures
        whole_part(raw, decimals) * pow10(decimals) + fraction_part(raw, decimals) == raw,
        fraction_part(raw, decimals) < pow10(decimals),
{
    lemma_pow10_grows(0, decimals);
    let unit = pow10(decimals) as int;
    assert((raw as int / unit) * unit + (raw as int % unit) == raw && 0 <= (raw as int) % unit
        < unit) by (nonlinear_arith)
        requires
            unit > 0,
    ;
}

/// A token without decimals is not shifted: its amount is its whole part.
pub proof fn lemma_normalize_without_decimals(raw: nat)
    ensures
        whole_part(raw, 0) == raw,
        fraction_part(raw, 0) == 0,
{
    assert(pow10(0) == 1);
}

/// Nothing stays nothing, whatever the decimals.
pub proof fn lemma_normalize_zero(decimals: nat)
    ensures
        whole_part(0, decimals) == 0,
        fraction_part(0, decimals) == 0,
{
    lemma_pow10_grows(0, decimals);
    let unit = pow10(decimals) as int;
    assert(0int / unit == 0 && 0int % unit == 0) by (nonlinear_arith)
        requires
            unit > 0,
    ;
}

/// Shifting `units` up by the decimals and normalizing gives `units` back,
/// with no fraction.
pub proof fn lemma_normalize_round_trip(units: nat, decimals: nat)
    ensures
        whole_part(units * pow10(decimals), decimals) == units,
        fraction_part(units * pow10(decimals), decimals) == 0,
{
    lemma_pow10_grows(0, decimals);
    let unit = pow10(decimals) as int;
    let count = units as int;
    assert((count * unit) / unit == count && (count * unit) % unit == 0) by (nonlinear_arith)
        requires
            unit > 0,
            count >= 0,
    ;
}

/// An amount below one whole unit is all fraction.
pub proof fn lemma_normalize_small(raw: nat, decimals: nat)
    requires
        raw < pow10(decimals),
    ensures
        whole_part(raw, decimals) == 0,
        fraction_part(raw, decimals) == raw,
{
    let unit = pow10(decimals) as int;
    assert(raw as int / unit == 0 && raw as int % unit == raw) by (nonlinear_arith)
        requires
            0 <= raw < unit,
    ;
}

/// Puts the decimal point into `raw`, an amount in the smallest unit of a
/// token with `decimals` decimals. Exact for every amount and every number
/// of decimals: nothing is rounded away.
pub fn normalize(raw: Uint256, decimals: u32) -> (value: Decimal)
    ensures
        value.whole@ == whole_part(raw@, decimals as nat),
        value.fraction@ == fraction_part(raw@, decimals as nat),
        value.decimals == decimals,
        value.well_formed(),
        value.raw() == raw@,
{
    proof {
        lemma_parts_recompose(raw@, decimals as nat);
    }
    if decimals <= MAX_EXP10 {
        let unit = exp10_in_range(decimals);
        proof {
            lemma_pow10_grows(0, decimals as nat);
        }
        let (whole, fraction) = div_mod_nonzero(raw, unit);
        Decimal { whole, fraction, decimals }
    } else {
        proof {
            lemma_pow10_limit();
            lemma_pow10_grows(78, decimals as nat);
            lemma_value_bounded(raw);
            lemma_normalize_small(raw@, decimals as nat);
        }
        Decimal { whole: Uint256::zero(), fraction: raw, decimals }
    }
}

} // verus!
