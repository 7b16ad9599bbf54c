//! Verified core of a crowdfunding program: factories, campaigns,
//! contributions, moderation and a points system.
//!
//! Every instruction is a function from the accounts it touches (held as plain
//! values) and its arguments to the new account contents and the effects that
//! the runtime has to carry out (transfers and events).
pub mod chain_fund_me;
pub mod error;
pub mod events;
pub mod instructions;
pub mod laws;
pub mod laws_effects;
pub mod pubkey;
pub mod state;
pub mod token_account;
