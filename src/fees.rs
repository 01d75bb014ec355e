use vstd::prelude::*;

use crate::error::TaxError;

verus! {

/// The rate of the protocol fee, in percent of the amount.
pub const DEV_FEE_PERCENTAGE: u64 = 1;

/// The tax on `amount` at `tax_percentage` percent, rounded down.
pub open spec fn tax_of(amount: int, tax_percentage: int) -> int {
    amount * tax_percentage / 100
}

/// The protocol fee on `amount`, rounded down.
pub open spec fn dev_fee_of(amount: int) -> int {
    amount * DEV_FEE_PERCENTAGE / 100
}

/// Whether the split of `amount` at `tax_percentage` fits the width of token amounts.
pub open spec fn split_fits(amount: int, tax_percentage: int) -> bool {
    tax_of(amount, tax_percentage) <= u64::MAX
}

/// The two amounts that a transfer sends away.
#[derive(Debug, Clone, Copy, PartialEq, Eq, Structural)]
pub struct FeeSplit {
    /// What goes to the tax wallet.
    pub tax_amount: u64,
    /// What goes to the protocol-fee wallet.
    pub dev_fee: u64,
}

impl FeeSplit {
    /// Whether this split is the one owed on `amount` at `tax_percentage`.
    pub open spec fn is_split_of(self, amount: int, tax_percentage: int) -> bool {
        &&& self.tax_amount == tax_of(amount, tax_percentage)
        &&& self.dev_fee == dev_fee_of(amount)
    }
}

/// Splits `amount` into its tax at `tax_percentage` percent and the fixed
/// one-percent fee, both rounded down. The product is formed in a wider
/// integer, so it never wraps; the call fails only where the tax itself
/// would not fit a token amount, which a percentage of at most 100 rules out.
pub fn compute_split(amount: u64, tax_percentage: u8) -> (r: Result<FeeSplit, TaxError>)
    ensures
        split_fits(amount as int, tax_percentage as int) <==> r is Ok,
        r matches Ok(s) ==> s.is_split_of(amount as int, tax_percentage as int),
        r matches Err(e) ==> e == TaxError::ArithmeticOverflow,
        tax_percentage <= 100 ==> r is Ok,
{
    assert((amount as u128) * (tax_percentage as u128) <= u64::MAX * 255) by (nonlinear_arith)
        requires
            amount <= u64::MAX,
            tax_percentage <= 255,
    ;
    let product: u128 = (amount as u128) * (tax_percentage as u128);
    let tax: u128 = product / 100;
    let fee: u64 = amount / 100;
    proof {
        assert(fee == dev_fee_of(amount as int));
        if tax_percentage <= 100 {
            assert(product <= amount * 100) by (nonlinear_arith)
                requires
                    product == amount * tax_percentage,
                    tax_percentage <= 100,
                    amount >= 0,
            ;
        }
    }
    if tax > u64::MAX as u128 {
        return Err(TaxError::ArithmeticOverflow);
    }
    Ok(FeeSplit { tax_amount: tax as u64, dev_fee: fee })
}

/// At a percentage of at most 100, the split exists and neither part is
/// negative; whenever the percentage is below 100, or the amount below 100,
/// the tax and the fee together never exceed the amount. (At a percentage of
/// exactly 100 and an amount of 100 or more, the tax is the whole amount and
/// the fee comes on top of it.)
pub proof fn lemma_split_within_amount(amount: u64, tax_percentage: u8)
    requires
        tax_percentage <= 100,
    ensures
        split_fits(amount as int, tax_percentage as int),
        0 <= tax_of(amount as int, tax_percentage as int) <= amount,
        0 <= dev_fee_of(amount as int) <= amount,
        tax_percentage < 100 || amount < 100 ==> tax_of(amount as int, tax_percentage as int)
            + dev_fee_of(amount as int) <= amount,
{
    let a = amount as int;
    let p = tax_percentage as int;
    assert(0 <= a * p / 100 <= a) by (nonlinear_arith)
        requires
            0 <= a,
            0 <= p <= 100,
    ;
    assert(0 <= a / 100 <= a) by (nonlinear_arith)
        requires
            0 <= a,
    ;
    if p < 100 {
        assert(a * p / 100 + a / 100 <= a) by (nonlinear_arith)
            requires
                0 <= a,
                0 <= p < 100,
        ;
    } else if a < 100 {
        assert(a / 100 == 0);
    }
}

/// A zero tax percentage takes no tax from any amount, and the fee on an
/// amount is the same whatever the tax percentage.
pub proof fn lemma_zero_rate_and_fixed_fee(amount: u64, p: u8, q: u8)
    ensures
        tax_of(amount as int, 0) == 0,
        forall|s: FeeSplit, t: FeeSplit|
            s.is_split_of(amount as int, p as int) && t.is_split_of(amount as int, q as int)
                ==> s.dev_fee == t.dev_fee,
{
}

} // verus!
