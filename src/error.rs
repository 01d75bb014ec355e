use vstd::prelude::*;

verus! {

/// The typed failures of every operation of the library.
#[derive(Debug, Clone, Copy, PartialEq, Eq, Structural)]
pub enum TaxError {
    /// A tax percentage above 100 was given at initialization.
    InvalidConfiguration,
    /// A computed amount does not fit the integer width of token amounts.
    ArithmeticOverflow,
    /// The source account cannot cover a transfer leg.
    InsufficientFunds,
    /// The transfer primitive refused the authority of the record.
    Unauthorized,
    /// A selection was asked of an empty holder sequence.
    EmptyHolderSet,
    /// The host's clock could not be read.
    ClockUnavailable,
}

} // verus!
