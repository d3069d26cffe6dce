//! Verified core of a real-estate tokenization platform and its DAO governor.

pub mod assertions;
pub mod constants;
pub mod dao;
pub mod errors;
pub mod events;
pub mod instructions;
pub mod laws;
pub mod pubkey;
pub mod state;
pub mod token;
