//! A token-transfer program's core: it splits each transfer into a tax
//! remittance and a fixed protocol fee, keeps a one-time configuration
//! record, and picks one recorded holder from a time counter.
//!
//! The selection is a deterministic function of the time counter: anyone who
//! can observe or nudge that counter can predict or bias the outcome, so it
//! does not suit any draw with financial stakes.

pub mod error;
pub mod fees;

pub use error::TaxError;
pub use fees::{compute_split, FeeSplit};
pub mod runtime;
pub mod selection;
pub mod settlement;
pub mod state;

pub use selection::select_index;
pub use settlement::{Action, Leg, Settlement, Stage, TransferOutcome};
pub use state::{initialize, process_transaction, State, SupplyPolicy, INITIAL_TOTAL_TOKENS};
