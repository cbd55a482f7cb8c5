//! Maintenance and user-operation planning for a ledger staking pool: decoding
//! of the pool's records, derived addresses, the ordered batches of each plan,
//! and the state machine that runs them.
pub mod address;
pub mod ledger;
pub mod model;
pub mod planner;
pub mod session;
pub mod state;
