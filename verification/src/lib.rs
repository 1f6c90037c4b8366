//! Milestone-based escrow with on-chain reputation.
pub mod batch;
pub mod cancellation;
pub mod contract;
pub mod creation;
pub mod disputes;
pub mod errors;
pub mod index;
pub mod laws;
pub mod ledger;
pub mod locks;
pub mod milestones;
pub mod recurring;
pub mod rent;
pub mod reputation;
pub mod storage;
pub mod table;
pub mod types;
pub mod views;
