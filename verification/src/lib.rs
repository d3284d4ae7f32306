//! A prediction-market ledger: timed events with mutually exclusive options,
//! one Yes/No stake per user and event, and pool totals that always add up.
pub mod error;
pub mod msg;
pub mod state;
pub mod pool;
pub mod instantiate;
pub mod execute;
pub mod query;
pub mod rules;
