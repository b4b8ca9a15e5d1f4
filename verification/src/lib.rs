//! A prediction-settlement ledger.
//!
//! Parties submit one forecast per (identity, asset symbol) key, an authorized
//! owner publishes the realized value per symbol, and a settlement routine
//! compares forecast to actual, tiers the forecast error, and credits a reward
//! balance exactly once per prediction. All state lives in an in-memory store
//! with a mathematical `Map` view; every public operation is specified as a
//! pure transition on that view and verified against it.

pub mod data;
pub mod laws;
pub mod ledger;
pub mod model;
pub mod table;
pub mod tier;

pub use data::AccountId;
pub use data::Balance;
pub use data::Error;
pub use data::PredictionInfo;
pub use data::PredictionSubmitted;
pub use data::ResultInfo;
pub use data::ResultUpdated;
pub use data::RewardDistributed;
pub use ledger::KronosPrediction;
