//! Saturating arithmetic on token amounts, carried out by the chain's own
//! `Amount` type so that balances move exactly as they do on the host.

use linera_base::data_types::Amount;
use vstd::prelude::*;

verus! {

/// The sum of two amounts, clamped at the largest representable amount.
pub open spec fn spec_saturating_add(a: u128, b: u128) -> u128 {
    if a + b > u128::MAX {
        u128::MAX
    } else {
        (a + b) as u128
    }
}

/// The difference of two amounts, clamped at zero.
pub open spec fn spec_saturating_sub(a: u128, b: u128) -> u128 {
    if a < b {
        0
    } else {
        (a - b) as u128
    }
}

/// Calls `linera_base::data_types::Amount::saturating_add` on two amounts
/// given in atto-units. The contract is taken on trust from that function,
/// which adds the wrapped integers with saturation: the result is the sum of
/// the two, or the largest amount where the sum does not fit.
#[verifier::external_body]
pub(crate) fn saturating_add_attos(a: u128, b: u128) -> (sum: u128)
    ensures
        sum == spec_saturating_add(a, b),
{
    u128::from(Amount::from_attos(a).saturating_add(Amount::from_attos(b)))
}

/// Calls `linera_base::data_types::Amount::saturating_sub` on two amounts
/// given in atto-units. The contract is taken on trust from that function,
/// which subtracts the wrapped integers with saturation: the result is the
/// first less the second, or zero where the second is the larger.
#[verifier::external_body]
pub(crate) fn saturating_sub_attos(a: u128, b: u128) -> (rest: u128)
    ensures
        rest == spec_saturating_sub(a, b),
{
    u128::from(Amount::from_attos(a).saturating_sub(Amount::from_attos(b)))
}

} // verus!
