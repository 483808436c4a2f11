//! A recurring payment escrow for Soroban: the owner pre-funds the escrow with a
//! single token, the payee pulls a fixed amount once per period, and the owner may
//! cancel at any time to reclaim what is left.

pub mod host;
pub mod types;
pub mod rules;
pub mod contract;
pub mod laws;
