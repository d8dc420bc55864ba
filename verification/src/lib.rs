//! Profit-gated token burns on behalf of an automated trading agent.
//!
//! A [`BurnConfig`] records, for one authority and one token, under which
//! conditions tokens may be burned, and how much has been burned so far. The
//! engine decides whether a requested burn is allowed, and counts it once the
//! ledger has performed it. The ledger, the clock and the event log belong to
//! the host: the engine tells the host what to ask of them and takes their
//! answers as plain values.

pub mod config;
pub mod engine;
pub mod error;
pub mod event;
pub mod identity;
pub mod laws;
pub mod lifecycle;
pub mod payment;
pub mod store;

pub use crate::config::{BurnConfig, MAX_BURN_PERCENTAGE};
pub use crate::engine::{
    authorize_burn, decide_burn, execute_autonomous_burn, expected_burn, settle_burn,
    ExecuteAutonomousBurn, LedgerBurn,
};
pub use crate::error::{ErrorCode, LedgerError};
pub use crate::event::BurnEvent;
pub use crate::identity::Identity;
pub use crate::lifecycle::{
    initialize_burn_config, update_burn_config, InitializeBurnConfig, UpdateBurnConfig,
};
pub use crate::payment::{PaymentProofVerifier, PlaceholderVerifier};
pub use crate::store::ConfigStore;
