//! The escrow's operations as steps from what the host reported to what the
//! host must do. The contract shell reads storage, the ledger sequence and the
//! token balance, hands them to these steps, and carries out exactly the
//! effects they return; a refused step returns an error and asks for nothing.

use crate::rules::{
    cancel_effects, check_funds, check_pull_window, construct_result, open_escrow, pull_effects,
    record_cancel, record_pull, refund_plan,
};
use crate::types::{
    CancelEffects, EscrowCancelled, EscrowConfig, EscrowError, EscrowState, Payment,
    PaymentReleased, PullEffects,
};
use soroban_sdk::Address;
use vstd::prelude::*;

verus! {

/// Instance TTL, in ledgers, below which every access extends it.
pub const INSTANCE_TTL_THRESHOLD: u32 = 100;

/// Instance TTL, in ledgers, that every access extends it to.
pub const INSTANCE_TTL_EXTEND_TO: u32 = 1_555_200;

/// The recurring payment escrow contract.
pub struct RecurringEscrow;

impl RecurringEscrow {
    /// Deploys the escrow with its immutable configuration, given whether a
    /// configuration is already stored and the current ledger sequence. No funds
    /// move here: the owner funds the contract by transferring `token` to its
    /// address afterwards.
    ///
    /// Refuses with `AlreadyInitialized` when a configuration is already stored,
    /// else with `InvalidAmount` when `amount_per_period` is not positive, else
    /// with `InvalidPeriod` when `period_ledgers` is zero. Otherwise returns the
    /// configuration and the state to store: the arguments as given, and a state
    /// whose last pull is the current ledger.
    pub fn __constructor(
        already_initialized: bool,
        owner: Address,
        payee: Address,
        amount_per_period: i128,
        period_ledgers: u32,
        token: Address,
        current_ledger: u32,
    ) -> (r: Result<(EscrowConfig, EscrowState), EscrowError>)
        ensures
            r == construct_result(
                already_initialized,
                owner,
                payee,
                amount_per_period,
                period_ledgers,
                token,
                current_ledger,
            ),
    {
        if already_initialized {
            return Err(EscrowError::AlreadyInitialized);
        }
        open_escrow(owner, payee, amount_per_period, period_ledgers, token, current_ledger)
    }

    /// The address that must authorize a pull: the payee.
    pub fn pull_authorizer(config: &EscrowConfig) -> (who: &Address)
        ensures
            *who == config.payee,
    {
        &config.payee
    }

    /// The address that must authorize a cancel: the owner.
    pub fn cancel_authorizer(config: &EscrowConfig) -> (who: &Address)
        ensures
            *who == config.owner,
    {
        &config.owner
    }

    /// Releases `amount_per_period` of `token` to `to`, given the stored
    /// configuration and state, the current ledger sequence, and the escrow's
    /// token balance. At least `period_ledgers` must have elapsed since the last
    /// successful pull, or since deployment for the first pull.
    ///
    /// Refuses with `AlreadyCancelled` on a cancelled escrow, else with
    /// `TooEarly` before a full period, else with `InsufficientFunds` when the
    /// balance cannot cover the whole amount; a refusal asks for no transfer.
    /// Otherwise returns the payment of exactly `amount_per_period` to `to`, the
    /// state whose last pull is the current ledger, and the event naming the
    /// payee and the amount.
    pub fn pull(
        config: &EscrowConfig,
        state: &EscrowState,
        current_ledger: u32,
        to: Address,
        balance: i128,
    ) -> (r: Result<PullEffects, EscrowError>)
        ensures
            r == pull_effects(*config, *state, current_ledger, to, balance),
    {
        match check_pull_window(state, config.period_ledgers, current_ledger) {
            Err(err) => return Err(err),
            Ok(()) => {},
        }
        match check_funds(config.amount_per_period, balance) {
            Err(err) => return Err(err),
            Ok(()) => {},
        }
        Ok(PullEffects {
            payment: Payment { to, amount: config.amount_per_period },
            state: record_pull(*state, current_ledger),
            event: PaymentReleased { payee: config.payee.clone(), amount: config.amount_per_period },
        })
    }

    /// Cancels the escrow, returning the remaining `token` balance to `to` and
    /// permanently disabling further pulls, given the stored configuration and
    /// state and the escrow's token balance.
    ///
    /// Refuses with `AlreadyCancelled` on an escrow already cancelled. Otherwise
    /// returns the refund of the whole balance to `to` when it is positive (none
    /// otherwise), the cancelled state, and the event naming the owner and the
    /// balance.
    pub fn cancel(config: &EscrowConfig, state: &EscrowState, to: Address, balance: i128) -> (r: Result<
        CancelEffects,
        EscrowError,
    >)
        ensures
            r == cancel_effects(*config, *state, to, balance),
    {
        let next = match record_cancel(*state) {
            Ok(next) => next,
            Err(err) => return Err(err),
        };
        Ok(CancelEffects {
            refund: refund_plan(to, balance),
            state: next,
            event: EscrowCancelled { owner: config.owner.clone(), refunded: balance },
        })
    }
}

} // verus!
