use vstd::prelude::*;

use anchor_lang::prelude::Pubkey;

use crate::error::TaxError;
use crate::fees::{compute_split, split_fits, FeeSplit};
use crate::runtime::clock_unix_timestamp;
use crate::selection::{index_of, select_index};
use crate::settlement::{Settlement, Stage};

verus! {

/// The total-supply counter that a new record starts with, in token units.
pub const INITIAL_TOTAL_TOKENS: u64 = 1_000_000;

/// Whether settled transactions lower the total-supply counter.
///
/// Whether the counter is meant as a display value or as a running total is
/// a product decision; both are offered.
#[derive(Debug, Clone, Copy, PartialEq, Eq, Structural)]
pub enum SupplyPolicy {
    /// The counter keeps its initial value.
    Fixed,
    /// Each settled transaction lowers the counter by its tax and fee.
    DeductFees,
}

/// The configuration record of one deployed instance.
pub struct State {
    /// The tax rate, in percent.
    pub tax_percentage: u8,
    /// The total-supply counter.
    pub total_tokens: u64,
    /// The addresses eligible for selection, in insertion order.
    pub holders: Vec<Pubkey>,
    /// What settled transactions do to `total_tokens`.
    pub supply_policy: SupplyPolicy,
}

impl State {
    /// The record's invariant: the tax rate is a percentage of at most 100.
    pub open spec fn wf(&self) -> bool {
        self.tax_percentage <= 100
    }

    /// The counter after the settled split `s` under this record's policy.
    pub open spec fn total_after(&self, s: FeeSplit) -> int {
        match self.supply_policy {
            SupplyPolicy::Fixed => self.total_tokens as int,
            SupplyPolicy::DeductFees => self.total_tokens - s.tax_amount - s.dev_fee,
        }
    }

    /// The holder at the index that `timestamp` selects, or
    /// `EmptyHolderSet` where there is no holder.
    pub fn select_wallet_at(&self, timestamp: i64) -> (r: Result<Pubkey, TaxError>)
        ensures
            self.holders@.len() == 0 <==> r is Err,
            r matches Err(e) ==> e == TaxError::EmptyHolderSet,
            r matches Ok(k) ==> k == self.holders@[index_of(
                timestamp as int,
                self.holders@.len() as int,
            )],
            r matches Ok(k) ==> self.holders@.contains(k),
    {
        match select_index(timestamp, self.holders.len()) {
            Ok(i) => {
                let k = self.holders[i];
                proof {
                    assert(self.holders@[i as int] == k);
                }
                Ok(k)
            },
            Err(e) => Err(e),
        }
    }

    /// The holder that the host's clock selects now. An empty holder
    /// sequence fails with `EmptyHolderSet` before the clock is read; a
    /// clock that cannot be read fails with `ClockUnavailable`.
    pub fn select_random_wallet(&self) -> (r: Result<Pubkey, TaxError>)
        ensures
            self.holders@.len() == 0 ==> r == Err::<Pubkey, TaxError>(TaxError::EmptyHolderSet),
            self.holders@.len() > 0 ==> r != Err::<Pubkey, TaxError>(TaxError::EmptyHolderSet),
            r matches Err(e) ==> e == TaxError::EmptyHolderSet || e == TaxError::ClockUnavailable,
            r matches Ok(k) ==> exists|t: i64|
                k == self.holders@[index_of(t as int, self.holders@.len() as int)],
            r matches Ok(k) ==> self.holders@.contains(k),
    {
        if self.holders.len() == 0 {
            return Err(TaxError::EmptyHolderSet);
        }
        match clock_unix_timestamp() {
            Ok(t) => self.select_wallet_at(t),
            Err(_) => Err(TaxError::ClockUnavailable),
        }
    }

    /// Takes in a transaction whose transfers have come to an end. A settled
    /// one lowers the counter by its tax and fee under `DeductFees` (failing
    /// with `ArithmeticOverflow`, the record unchanged, where the counter is
    /// smaller) and changes nothing under `Fixed`; a failed one returns its
    /// error. A settlement still awaiting a leg changes nothing.
    pub fn record_settlement(&mut self, settlement: &Settlement) -> (r: Result<(), TaxError>)
        ensures
            final(self).tax_percentage == old(self).tax_percentage,
            final(self).holders@ == old(self).holders@,
            final(self).supply_policy == old(self).supply_policy,
            settlement.stage matches Stage::Failed(e) ==> r == Err::<(), TaxError>(e),
            settlement.stage == Stage::Settled ==> {
                let total = old(self).total_after(settlement.split);
                &&& (total >= 0 <==> r is Ok)
                &&& (r is Ok ==> final(self).total_tokens == total)
                &&& (r is Err ==> r == Err::<(), TaxError>(TaxError::ArithmeticOverflow))
            },
            r is Err ==> final(self).total_tokens == old(self).total_tokens,
            settlement.stage == Stage::AwaitingTax || settlement.stage == Stage::AwaitingDevFee
                ==> r is Ok && final(self).total_tokens == old(self).total_tokens,
    {
        match settlement.stage {
            Stage::Failed(e) => Err(e),
            Stage::Settled => {
                match self.supply_policy {
                    SupplyPolicy::Fixed => Ok(()),
                    SupplyPolicy::DeductFees => {
                        let split = settlement.split;
                        if self.total_tokens < split.tax_amount {
                            return Err(TaxError::ArithmeticOverflow);
                        }
                        let rest: u64 = self.total_tokens - split.tax_amount;
                        if rest < split.dev_fee {
                            return Err(TaxError::ArithmeticOverflow);
                        }
                        self.total_tokens = rest - split.dev_fee;
                        Ok(())
                    },
                }
            },
            _ => Ok(()),
        }
    }
}

/// Creates the configuration record: the given tax rate and supply policy,
/// the initial supply counter and no holders. A rate above 100 percent is
/// refused with `InvalidConfiguration`.
pub fn initialize(tax_percentage: u8, supply_policy: SupplyPolicy) -> (r: Result<State, TaxError>)
    ensures
        tax_percentage <= 100 <==> r is Ok,
        r matches Err(e) ==> e == TaxError::InvalidConfiguration,
        r matches Ok(s) ==> {
            &&& s.tax_percentage == tax_percentage
            &&& s.total_tokens == INITIAL_TOTAL_TOKENS
            &&& s.holders@.len() == 0
            &&& s.supply_policy == supply_policy
            &&& s.wf()
        },
{
    if tax_percentage > 100 {
        return Err(TaxError::InvalidConfiguration);
    }
    Ok(State {
        tax_percentage,
        total_tokens: INITIAL_TOTAL_TOKENS,
        holders: Vec::new(),
        supply_policy,
    })
}

/// Processes a transfer of `amount`: computes its tax at the record's rate
/// and its fee, and returns the settlement that drives the two transfers,
/// tax first. Fails with `ArithmeticOverflow` only where the tax does not
/// fit a token amount, which a well-formed record rules out.
pub fn process_transaction(state: &State, amount: u64) -> (r: Result<Settlement, TaxError>)
    ensures
        split_fits(amount as int, state.tax_percentage as int) <==> r is Ok,
        r matches Err(e) ==> e == TaxError::ArithmeticOverflow,
        r matches Ok(s) ==> {
            &&& s.split.is_split_of(amount as int, state.tax_percentage as int)
            &&& s.stage == Stage::AwaitingTax
        },
        state.wf() ==> r is Ok,
{
    match compute_split(amount, state.tax_percentage) {
        Ok(split) => Ok(Settlement::new(split)),
        Err(e) => Err(e),
    }
}

} // verus!
