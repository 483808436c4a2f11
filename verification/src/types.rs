//! The escrow's data: its storage keys, configuration, state, errors, events,
//! and the effects that a successful operation asks the host to carry out.

use soroban_sdk::Address;
use vstd::prelude::*;

verus! {

/// Keys under which the escrow keeps its data in instance storage.
#[derive(Clone, Copy, Debug, PartialEq, Eq, Structural)]
pub enum EscrowStorageKey {
    Config,
    State,
}

/// Immutable escrow configuration, set once at construction.
#[derive(Clone, Debug, PartialEq, Eq)]
pub struct EscrowConfig {
    /// The address that funded the escrow and may cancel it.
    pub owner: Address,
    /// The only address authorized to call `pull`.
    pub payee: Address,
    /// Fixed amount released on each successful pull.
    pub amount_per_period: i128,
    /// Minimum number of ledgers that must elapse between successful pulls.
    pub period_ledgers: u32,
    /// The token this escrow pays out.
    pub token: Address,
}

/// Mutable escrow state.
#[derive(Clone, Copy, Debug, PartialEq, Eq, Structural)]
pub struct EscrowState {
    /// Ledger sequence of the last successful pull, or the deployment ledger
    /// for the first pull.
    pub last_pull_ledger: u32,
    /// Whether the owner has cancelled the escrow, permanently disabling
    /// further `pull`s.
    pub cancelled: bool,
}

/// Error codes for escrow operations.
#[derive(Copy, Clone, Debug, PartialEq, Eq, Structural)]
pub enum EscrowError {
    /// The contract has already been initialized.
    AlreadyInitialized,
    /// A full period has not elapsed since the last pull (or since deployment,
    /// for the first pull).
    TooEarly,
    /// The escrow's token balance cannot cover `amount_per_period`.
    InsufficientFunds,
    /// The escrow has already been cancelled.
    AlreadyCancelled,
    /// `amount_per_period` was zero or negative.
    InvalidAmount,
    /// `period_ledgers` was zero.
    InvalidPeriod,
}

/// Emitted when a payment is released from the escrow.
#[derive(Clone, Debug, PartialEq, Eq)]
pub struct PaymentReleased {
    pub payee: Address,
    pub amount: i128,
}

/// Emitted when the owner cancels the escrow and reclaims the remaining
/// balance.
#[derive(Clone, Debug, PartialEq, Eq)]
pub struct EscrowCancelled {
    pub owner: Address,
    pub refunded: i128,
}

/// A transfer of the escrow's token from the escrow's own address.
#[derive(Clone, Debug, PartialEq, Eq)]
pub struct Payment {
    /// The address that receives the tokens.
    pub to: Address,
    /// How many tokens move.
    pub amount: i128,
}

/// What a successful pull asks the host to do, in this order: make the
/// payment, store the new state, publish the event.
#[derive(Clone, Debug, PartialEq, Eq)]
pub struct PullEffects {
    pub payment: Payment,
    pub state: EscrowState,
    pub event: PaymentReleased,
}

/// What a successful cancel asks the host to do, in this order: make the
/// refund when there is one, store the new state, publish the event.
#[derive(Clone, Debug, PartialEq, Eq)]
pub struct CancelEffects {
    pub refund: Option<Payment>,
    pub state: EscrowState,
    pub event: EscrowCancelled,
}

} // verus!
