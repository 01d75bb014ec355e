use vstd::prelude::*;

use anchor_lang::prelude::{Clock, ProgramError, Pubkey, SolanaSysvar};

verus! {

/// An account address of the ledger, carried through unread.
#[verifier::external_type_specification]
#[verifier::external_body]
pub struct ExPubkey(Pubkey);

/// The ledger runtime's error, as the clock read returns it.
#[verifier::external_type_specification]
#[verifier::external_body]
pub struct ExProgramError(ProgramError);

/// Relies on anchor_lang's `Clock::get` (the clock sysvar of the host) for
/// its `unix_timestamp`, in seconds since the epoch. The value depends on
/// when the call runs, so nothing is stated of it; off the ledger the read
/// fails with an error.
#[verifier::external_body]
pub(crate) fn clock_unix_timestamp() -> (r: Result<i64, ProgramError>) {
    Clock::get().map(|clock| clock.unix_timestamp)
}

} // verus!
