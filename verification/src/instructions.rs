//! The lifecycle state machine: one module per transition.
//!
//! Per universal token ID the lifecycle is
//! `Absent -> Active -> Returned`: a record is created only by
//! mint-from-origin, its display metadata is overwritten only by
//! update-metadata, and burn-to-origin moves it to the terminal
//! `Returned` state.  Each handler is a pure decision function from the
//! stored state and the inbound event to the new state and the side
//! effects the host environment must perform; no transition is ever
//! partially applied.

pub mod mint_from_universal;
pub mod update_metadata;
pub mod burn_to_universal;
