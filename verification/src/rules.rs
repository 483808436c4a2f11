//! The escrow's decisions on plain values: when construction is accepted, when a
//! pull is allowed, and what each successful operation does to the state.

use crate::types::{
    CancelEffects, EscrowCancelled, EscrowConfig, EscrowError, EscrowState, Payment, PaymentReleased,
    PullEffects,
};
use soroban_sdk::Address;
use vstd::prelude::*;

verus! {

/// The number of ledgers from `from` to `to`, counted modulo 2^32 the way
/// `u32::wrapping_sub` counts them.
pub open spec fn ledgers_since(from: u32, to: u32) -> int {
    if from <= to {
        to - from
    } else {
        to - from + 0x1_0000_0000
    }
}

/// Whether an escrow may be set up with these terms, and the error otherwise.
pub open spec fn terms_result(amount_per_period: i128, period_ledgers: u32) -> Result<(), EscrowError> {
    if amount_per_period <= 0 {
        Err(EscrowError::InvalidAmount)
    } else if period_ledgers == 0 {
        Err(EscrowError::InvalidPeriod)
    } else {
        Ok(())
    }
}

/// The state of an escrow deployed at `deployment_ledger`.
pub open spec fn started_state(deployment_ledger: u32) -> EscrowState {
    EscrowState { last_pull_ledger: deployment_ledger, cancelled: false }
}

/// Whether a pull at `current_ledger` passes the cancellation and period checks.
pub open spec fn window_result(state: EscrowState, period_ledgers: u32, current_ledger: u32) -> Result<(), EscrowError> {
    if state.cancelled {
        Err(EscrowError::AlreadyCancelled)
    } else if ledgers_since(state.last_pull_ledger, current_ledger) < period_ledgers {
        Err(EscrowError::TooEarly)
    } else {
        Ok(())
    }
}

/// Whether a balance covers one payment.
pub open spec fn funds_result(amount_per_period: i128, balance: i128) -> Result<(), EscrowError> {
    if balance < amount_per_period {
        Err(EscrowError::InsufficientFunds)
    } else {
        Ok(())
    }
}

/// The state after a successful pull at `current_ledger`.
pub open spec fn pulled_state(state: EscrowState, current_ledger: u32) -> EscrowState {
    EscrowState { last_pull_ledger: current_ledger, ..state }
}

/// The whole pull decision: the state that a pull at `current_ledger` leaves
/// when the escrow holds `balance`, or the error it is refused with.
pub open spec fn pull_result(config: EscrowConfig, state: EscrowState, current_ledger: u32, balance: i128) -> Result<EscrowState, EscrowError> {
    match window_result(state, config.period_ledgers, current_ledger) {
        Err(e) => Err(e),
        Ok(_) => match funds_result(config.amount_per_period, balance) {
            Err(e) => Err(e),
            Ok(_) => Ok(pulled_state(state, current_ledger)),
        },
    }
}

/// The cancel decision: the cancelled state, or the error it is refused with.
pub open spec fn cancel_result(state: EscrowState) -> Result<EscrowState, EscrowError> {
    if state.cancelled {
        Err(EscrowError::AlreadyCancelled)
    } else {
        Ok(EscrowState { cancelled: true, ..state })
    }
}

/// The construction decision: the configuration and the state to store, or
/// the error that refuses the construction. A second construction is refused
/// first, then invalid terms.
pub open spec fn construct_result(
    already_initialized: bool,
    owner: Address,
    payee: Address,
    amount_per_period: i128,
    period_ledgers: u32,
    token: Address,
    current_ledger: u32,
) -> Result<(EscrowConfig, EscrowState), EscrowError> {
    if already_initialized {
        Err(EscrowError::AlreadyInitialized)
    } else {
        match terms_result(amount_per_period, period_ledgers) {
            Err(e) => Err(e),
            Ok(_) => Ok((
                EscrowConfig { owner, payee, amount_per_period, period_ledgers, token },
                started_state(current_ledger),
            )),
        }
    }
}

/// The effects of a pull at `current_ledger` paying to `to` while the escrow
/// holds `balance`: exactly `amount_per_period` goes to `to`, the state records
/// the pull, and the event names the payee and the amount.
pub open spec fn pull_effects(
    config: EscrowConfig,
    state: EscrowState,
    current_ledger: u32,
    to: Address,
    balance: i128,
) -> Result<PullEffects, EscrowError> {
    match pull_result(config, state, current_ledger, balance) {
        Err(e) => Err(e),
        Ok(next) => Ok(PullEffects {
            payment: Payment { to, amount: config.amount_per_period },
            state: next,
            event: PaymentReleased { payee: config.payee, amount: config.amount_per_period },
        }),
    }
}

/// The refund of a cancel: the whole balance to `to` when it is positive,
/// nothing otherwise.
pub open spec fn refund_of(to: Address, balance: i128) -> Option<Payment> {
    if balance > 0 {
        Some(Payment { to, amount: balance })
    } else {
        None
    }
}

/// The effects of a cancel refunding to `to` while the escrow holds `balance`:
/// the whole balance is refunded, the state is cancelled, and the event names
/// the owner and the balance.
pub open spec fn cancel_effects(
    config: EscrowConfig,
    state: EscrowState,
    to: Address,
    balance: i128,
) -> Result<CancelEffects, EscrowError> {
    match cancel_result(state) {
        Err(e) => Err(e),
        Ok(next) => Ok(CancelEffects {
            refund: refund_of(to, balance),
            state: next,
            event: EscrowCancelled { owner: config.owner, refunded: balance },
        }),
    }
}

/// Checks the terms an escrow is constructed with: the amount per period must be
/// positive, then the period must be nonzero.
pub fn check_terms(amount_per_period: i128, period_ledgers: u32) -> (r: Result<(), EscrowError>)
    ensures
        r == terms_result(amount_per_period, period_ledgers),
{
    if amount_per_period <= 0 {
        return Err(EscrowError::InvalidAmount);
    }
    if period_ledgers == 0 {
        return Err(EscrowError::InvalidPeriod);
    }
    Ok(())
}

/// The state a freshly constructed escrow starts in: the deployment ledger
/// stands in for the last pull, and the escrow is open.
pub fn start_state(deployment_ledger: u32) -> (s: EscrowState)
    ensures
        s == started_state(deployment_ledger),
{
    EscrowState { last_pull_ledger: deployment_ledger, cancelled: false }
}

/// The configuration and the state that a construction with these arguments
/// stores, or the error that refuses it.
pub fn open_escrow(
    owner: Address,
    payee: Address,
    amount_per_period: i128,
    period_ledgers: u32,
    token: Address,
    deployment_ledger: u32,
) -> (r: Result<(EscrowConfig, EscrowState), EscrowError>)
    ensures
        match r {
            Ok((config, state)) => {
                &&& terms_result(amount_per_period, period_ledgers) is Ok
                &&& config == EscrowConfig { owner, payee, amount_per_period, period_ledgers, token }
                &&& state == started_state(deployment_ledger)
            },
            Err(err) => terms_result(amount_per_period, period_ledgers) == Err::<(), EscrowError>(err),
        },
{
    match check_terms(amount_per_period, period_ledgers) {
        Err(err) => return Err(err),
        Ok(()) => {},
    }
    let config = EscrowConfig { owner, payee, amount_per_period, period_ledgers, token };
    Ok((config, start_state(deployment_ledger)))
}

/// Refuses a pull on a cancelled escrow, then one made before a full period has
/// elapsed since the last successful pull (or since deployment).
pub fn check_pull_window(state: &EscrowState, period_ledgers: u32, current_ledger: u32) -> (r: Result<(), EscrowError>)
    ensures
        r == window_result(*state, period_ledgers, current_ledger),
{
    if state.cancelled {
        return Err(EscrowError::AlreadyCancelled);
    }
    if current_ledger.wrapping_sub(state.last_pull_ledger) < period_ledgers {
        return Err(EscrowError::TooEarly);
    }
    Ok(())
}

/// Refuses a pull that the escrow's balance cannot cover in full.
pub fn check_funds(amount_per_period: i128, balance: i128) -> (r: Result<(), EscrowError>)
    ensures
        r == funds_result(amount_per_period, balance),
{
    if balance < amount_per_period {
        return Err(EscrowError::InsufficientFunds);
    }
    Ok(())
}

/// Records a successful pull at `current_ledger`.
pub fn record_pull(state: EscrowState, current_ledger: u32) -> (s: EscrowState)
    ensures
        s == pulled_state(state, current_ledger),
{
    EscrowState { last_pull_ledger: current_ledger, ..state }
}

/// Refuses to cancel an escrow that is already cancelled.
pub fn check_cancel(state: &EscrowState) -> (r: Result<(), EscrowError>)
    ensures
        r == (if state.cancelled {
            Err::<(), EscrowError>(EscrowError::AlreadyCancelled)
        } else {
            Ok::<(), EscrowError>(())
        }),
{
    if state.cancelled {
        return Err(EscrowError::AlreadyCancelled);
    }
    Ok(())
}

/// The refund of a cancel: the whole balance to `to` when it is positive.
pub fn refund_plan(to: Address, balance: i128) -> (r: Option<Payment>)
    ensures
        r == refund_of(to, balance),
{
    if balance > 0 {
        Some(Payment { to, amount: balance })
    } else {
        None
    }
}

/// Cancels an open escrow; a cancelled one is refused with `AlreadyCancelled`.
pub fn record_cancel(state: EscrowState) -> (r: Result<EscrowState, EscrowError>)
    ensures
        r == cancel_result(state),
{
    if state.cancelled {
        return Err(EscrowError::AlreadyCancelled);
    }
    Ok(EscrowState { cancelled: true, ..state })
}

} // verus!
