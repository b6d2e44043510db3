//! Bookkeeping engine of a multi-asset basket token: a registry of weighted
//! components, weighted minting on deposit, inverse-weighted redemption with a
//! withdrawal tax on withdraw, and collection of the accrued taxes.
pub mod contract;
pub mod error;
pub mod exec;
pub mod instruction;
pub mod laws;
pub mod math;
pub mod msg;
pub mod order;
pub mod query;
pub mod state;
pub mod store;
pub mod tokenfactory;
