use vstd::prelude::*;

use crate::error::TaxError;
use crate::fees::FeeSplit;

verus! {

/// One of the two downstream transfers of a processed transaction.
#[derive(Debug, Clone, Copy, PartialEq, Eq, Structural)]
pub enum Leg {
    /// From the user's account to the tax wallet.
    Tax,
    /// From the user's account to the protocol-fee wallet.
    DevFee,
}

/// What the transfer primitive answered for one leg.
#[derive(Debug, Clone, Copy, PartialEq, Eq, Structural)]
pub enum TransferOutcome {
    Completed,
    InsufficientFunds,
    Unauthorized,
}

/// How far the transfers of one transaction have come.
#[derive(Debug, Clone, Copy, PartialEq, Eq, Structural)]
pub enum Stage {
    AwaitingTax,
    AwaitingDevFee,
    Settled,
    Failed(TaxError),
}

/// What the host should do next for a transaction.
#[derive(Debug, Clone, Copy, PartialEq, Eq, Structural)]
pub enum Action {
    /// Move the given amount along the given leg, then report the outcome.
    Transfer(Leg, u64),
    /// Both legs went through.
    Finish,
    /// A leg failed: the whole call fails with this error.
    Abort(TaxError),
}

/// The error that a failed transfer outcome surfaces as.
pub open spec fn outcome_error(o: TransferOutcome) -> TaxError {
    match o {
        TransferOutcome::Unauthorized => TaxError::Unauthorized,
        _ => TaxError::InsufficientFunds,
    }
}

/// The stage after `o` was reported at stage `s`: the tax leg goes first,
/// the fee leg only after it succeeded, and a failure is final.
pub open spec fn stage_after(s: Stage, o: TransferOutcome) -> Stage {
    match s {
        Stage::AwaitingTax => if o == TransferOutcome::Completed {
            Stage::AwaitingDevFee
        } else {
            Stage::Failed(outcome_error(o))
        },
        Stage::AwaitingDevFee => if o == TransferOutcome::Completed {
            Stage::Settled
        } else {
            Stage::Failed(outcome_error(o))
        },
        _ => s,
    }
}

/// The transfers that one processed transaction owes, and how far they came.
#[derive(Debug, Clone, Copy, PartialEq, Eq, Structural)]
pub struct Settlement {
    pub split: FeeSplit,
    pub stage: Stage,
}

impl Settlement {
    /// The action that this settlement asks for.
    pub open spec fn action_spec(self) -> Action {
        match self.stage {
            Stage::AwaitingTax => Action::Transfer(Leg::Tax, self.split.tax_amount),
            Stage::AwaitingDevFee => Action::Transfer(Leg::DevFee, self.split.dev_fee),
            Stage::Settled => Action::Finish,
            Stage::Failed(e) => Action::Abort(e),
        }
    }

    /// A settlement of `split` with no leg attempted yet.
    pub fn new(split: FeeSplit) -> (r: Settlement)
        ensures
            r.split == split,
            r.stage == Stage::AwaitingTax,
    {
        Settlement { split, stage: Stage::AwaitingTax }
    }

    /// The next thing for the host to do.
    pub fn next_action(&self) -> (r: Action)
        ensures
            r == self.action_spec(),
    {
        match self.stage {
            Stage::AwaitingTax => Action::Transfer(Leg::Tax, self.split.tax_amount),
            Stage::AwaitingDevFee => Action::Transfer(Leg::DevFee, self.split.dev_fee),
            Stage::Settled => Action::Finish,
            Stage::Failed(e) => Action::Abort(e),
        }
    }

    /// Takes in the outcome of the leg that `next_action` asked for.
    pub fn record(&mut self, outcome: TransferOutcome)
        ensures
            final(self).split == old(self).split,
            final(self).stage == stage_after(old(self).stage, outcome),
    {
        let err = match outcome {
            TransferOutcome::Unauthorized => TaxError::Unauthorized,
            _ => TaxError::InsufficientFunds,
        };
        let completed = matches!(outcome, TransferOutcome::Completed);
        match self.stage {
            Stage::AwaitingTax => {
                self.stage = if completed {
                    Stage::AwaitingDevFee
                } else {
                    Stage::Failed(err)
                };
            },
            Stage::AwaitingDevFee => {
                self.stage = if completed {
                    Stage::Settled
                } else {
                    Stage::Failed(err)
                };
            },
            _ => {},
        }
    }
}

/// A failed tax leg ends the transaction: the fee leg is never asked for,
/// whatever is reported afterwards.
pub proof fn lemma_failed_tax_leg_is_final(
    split: FeeSplit,
    o: TransferOutcome,
    later: TransferOutcome,
)
    requires
        o != TransferOutcome::Completed,
    ensures
        ({
            let s = Settlement { split, stage: stage_after(Stage::AwaitingTax, o) };
            let t = Settlement { split, stage: stage_after(s.stage, later) };
            &&& s.action_spec() == Action::Abort(outcome_error(o))
            &&& t.action_spec() == s.action_spec()
        }),
{
}

} // verus!
