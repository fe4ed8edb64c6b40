//! A verified ledger for airdrop campaigns with bounded membership.
//!
//! A sponsor opens a campaign by depositing a pool of a reward asset.
//! Participants join and leave a roster of limited capacity by posting and
//! reclaiming a fixed stake. At distribution the pool is split evenly over
//! whoever is enrolled.
//!
//! Each operation works on plain values: the campaign record and the
//! balances it touches. It either applies completely or changes nothing.
//! What an operation returns and changes is stated over a mathematical model
//! of those values, and the invariants of the ledger are proved over that
//! model: the roster respects the capacity and names nobody twice, and
//! custody holds exactly one stake per roster entry.

pub mod account;
pub mod balance;
pub mod campaign;
pub mod distribute;
pub mod error;
pub mod initialize;
pub mod ledger;
pub mod stake;

pub use account::AccountId;
pub use balance::transfer;
pub use campaign::{Airdrop, FIXED_MAX_USERS, STAKE_AMOUNT};
pub use distribute::{distribute, Distribute, Payout};
pub use error::ErrorCode;
pub use initialize::{initialize, Initialize};
pub use stake::{join, leave, Join, Leave};
