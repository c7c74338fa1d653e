use crate::uint256::{full_mul, u256_limit, wide_div, U256, U512};
use vstd::prelude::*;

verus! {

/// The fee `base` raised by `percent` per cent, rounded down to a whole wei.
pub open spec fn bumped(base: nat, percent: nat) -> nat {
    base * (100 + percent) / 100
}

/// `fee` times `100 + pct`, divided by 100 and rounded down, in 512 bits:
/// wide enough that nothing is lost on the way.
fn raised(fee: U256, pct: u64) -> (r: U512)
    ensures
        r@ == bumped(fee@, pct as nat),
{
    let factor = U256::from_u128(100u128 + pct as u128);
    let product = full_mul(&fee, &factor);
    let hundred = U512::from_u64(100);
    wide_div(&product, &hundred)
}

/// Raises `fee` by `pct` per cent, or tells that the raised fee needs more
/// than 256 bits.
///
/// A fee near the top of the range is still raised exactly whenever the
/// result fits: a bump of nothing succeeds on every fee.
pub fn checked_bump_data_fee(fee: U256, pct: u64) -> (r: Option<U256>)
    ensures
        r is Some <==> bumped(fee@, pct as nat) < u256_limit(),
        r matches Some(v) ==> v@ == bumped(fee@, pct as nat),
{
    let wide = raised(fee, pct);
    if wide.fits_u256() {
        Some(wide.low_u256())
    } else {
        None
    }
}

/// Raises `fee` by `pct` per cent. The caller knows that the raised fee fits
/// in 256 bits; `checked_bump_data_fee` is for the caller who does not.
pub fn bump_data_fee(fee: U256, pct: u64) -> (r: U256)
    requires
        bumped(fee@, pct as nat) < u256_limit(),
    ensures
        r@ == bumped(fee@, pct as nat),
{
    raised(fee, pct).low_u256()
}

/// A bump of nothing leaves every fee as it is.
pub proof fn lemma_bump_by_zero(base: nat)
    ensures
        bumped(base, 0) == base,
{
    assert(base * 100 / 100 == base) by (nonlinear_arith);
}

/// For one fee, a larger percentage never gives a smaller result.
pub proof fn lemma_bump_monotone_in_percent(base: nat, low: nat, high: nat)
    requires
        low <= high,
    ensures
        bumped(base, low) <= bumped(base, high),
{
    assert(base * (100 + low) <= base * (100 + high)) by (nonlinear_arith)
        requires
            low <= high,
    ;
    lemma_div_100_monotone(base * (100 + low), base * (100 + high));
}

/// For one percentage, a larger fee never gives a smaller result.
pub proof fn lemma_bump_monotone_in_fee(small: nat, large: nat, percent: nat)
    requires
        small <= large,
    ensures
        bumped(small, percent) <= bumped(large, percent),
{
    assert(small * (100 + percent) <= large * (100 + percent)) by (nonlinear_arith)
        requires
            small <= large,
    ;
    lemma_div_100_monotone(small * (100 + percent), large * (100 + percent));
}

proof fn lemma_div_100_monotone(x: nat, y: nat)
    requires
        x <= y,
    ensures
        x / 100 <= y / 100,
{
}

} // verus!
