//! Properties of the escrow that span several operations, proved over
//! `construct_result`, `pull_effects` and `cancel_effects`: the functions that
//! `RecurringEscrow::__constructor`, `RecurringEscrow::pull` and
//! `RecurringEscrow::cancel` are each proved to compute exactly.

use crate::rules::{
    cancel_effects, construct_result, ledgers_since, pull_effects, terms_result, window_result,
};
use crate::types::{
    CancelEffects, EscrowCancelled, EscrowConfig, EscrowError, EscrowState, Payment,
    PaymentReleased, PullEffects,
};
use soroban_sdk::Address;
use vstd::prelude::*;

verus! {

/// A cancelled escrow refuses every pull and every further cancel with
/// `AlreadyCancelled`, whatever the ledger, the recipient and the balance.
pub proof fn cancelled_escrow_refuses_everything(
    config: EscrowConfig,
    state: EscrowState,
    current_ledger: u32,
    to: Address,
    balance: i128,
)
    requires
        state.cancelled,
    ensures
        pull_effects(config, state, current_ledger, to, balance) == Err::<PullEffects, EscrowError>(
            EscrowError::AlreadyCancelled,
        ),
        cancel_effects(config, state, to, balance) == Err::<CancelEffects, EscrowError>(
            EscrowError::AlreadyCancelled,
        ),
{
}

/// Cancelling permanently disables pulls: the state a successful cancel stores
/// is cancelled, keeps the last pull ledger, and makes every later pull and
/// cancel refused with `AlreadyCancelled`.
pub proof fn cancel_is_final(
    config: EscrowConfig,
    state: EscrowState,
    to: Address,
    balance: i128,
    current_ledger: u32,
    later_to: Address,
    later_balance: i128,
)
    requires
        cancel_effects(config, state, to, balance) is Ok,
    ensures
        ({
            let next = cancel_effects(config, state, to, balance)->Ok_0.state;
            &&& !state.cancelled
            &&& next.cancelled
            &&& next.last_pull_ledger == state.last_pull_ledger
            &&& pull_effects(config, next, current_ledger, later_to, later_balance) == Err::<
                PullEffects,
                EscrowError,
            >(EscrowError::AlreadyCancelled)
            &&& cancel_effects(config, next, later_to, later_balance) == Err::<
                CancelEffects,
                EscrowError,
            >(EscrowError::AlreadyCancelled)
        }),
{
    let next = cancel_effects(config, state, to, balance)->Ok_0.state;
    cancelled_escrow_refuses_everything(config, next, current_ledger, later_to, later_balance);
}

/// A cancel refunds the whole balance: to `to` when it is positive and not at
/// all otherwise, and its event reports that balance and names the owner.
pub proof fn cancel_refunds_the_whole_balance(config: EscrowConfig, state: EscrowState, to: Address, balance: i128)
    requires
        !state.cancelled,
    ensures
        ({
            let fx = cancel_effects(config, state, to, balance)->Ok_0;
            &&& cancel_effects(config, state, to, balance) is Ok
            &&& balance > 0 ==> fx.refund == Some(Payment { to, amount: balance })
            &&& balance <= 0 ==> fx.refund is None
            &&& fx.event == EscrowCancelled { owner: config.owner, refunded: balance }
        }),
{
}

/// A pull succeeds exactly when the escrow is open, a full period has elapsed
/// since the last pull, and the balance covers the whole amount. It then pays
/// exactly `amount_per_period` to the chosen recipient, never more than the
/// balance, records the current ledger as the last pull, leaves the escrow open,
/// and reports the payee and the amount.
pub proof fn pull_succeeds_exactly_when_allowed(
    config: EscrowConfig,
    state: EscrowState,
    current_ledger: u32,
    to: Address,
    balance: i128,
)
    ensures
        pull_effects(config, state, current_ledger, to, balance) is Ok <==> {
            &&& !state.cancelled
            &&& (current_ledger - state.last_pull_ledger) % 0x1_0000_0000 >= config.period_ledgers
            &&& balance >= config.amount_per_period
        },
        pull_effects(config, state, current_ledger, to, balance) is Ok ==> {
            let fx = pull_effects(config, state, current_ledger, to, balance)->Ok_0;
            &&& fx.payment == Payment { to, amount: config.amount_per_period }
            &&& fx.payment.amount <= balance
            &&& fx.state == EscrowState { last_pull_ledger: current_ledger, cancelled: false }
            &&& fx.event == PaymentReleased { payee: config.payee, amount: config.amount_per_period }
        },
{
}

/// Successful pulls are at least a full period apart: after a pull at
/// `first_ledger`, a pull at a ledger fewer than `period_ledgers` later is
/// refused with `TooEarly`, whatever the recipient and the balance.
pub proof fn pulls_are_a_period_apart(
    config: EscrowConfig,
    state: EscrowState,
    first_ledger: u32,
    first_to: Address,
    first_balance: i128,
    second_ledger: u32,
    second_to: Address,
    second_balance: i128,
)
    requires
        pull_effects(config, state, first_ledger, first_to, first_balance) is Ok,
        (second_ledger - first_ledger) % 0x1_0000_0000 < config.period_ledgers,
    ensures
        pull_effects(
            config,
            pull_effects(config, state, first_ledger, first_to, first_balance)->Ok_0.state,
            second_ledger,
            second_to,
            second_balance,
        ) == Err::<PullEffects, EscrowError>(EscrowError::TooEarly),
{
}

/// The first pull is available a full period after deployment: on an escrow
/// just constructed at `deployment_ledger`, an open pull with enough funds is
/// refused with `TooEarly` exactly when fewer than `period_ledgers` ledgers have
/// passed since then.
pub proof fn first_pull_waits_a_period(
    owner: Address,
    payee: Address,
    amount_per_period: i128,
    period_ledgers: u32,
    token: Address,
    deployment_ledger: u32,
    current_ledger: u32,
    to: Address,
    balance: i128,
)
    requires
        construct_result(false, owner, payee, amount_per_period, period_ledgers, token, deployment_ledger) is Ok,
        balance >= amount_per_period,
    ensures
        ({
            let (config, state) = construct_result(
                false,
                owner,
                payee,
                amount_per_period,
                period_ledgers,
                token,
                deployment_ledger,
            )->Ok_0;
            &&& state == EscrowState { last_pull_ledger: deployment_ledger, cancelled: false }
            &&& (pull_effects(config, state, current_ledger, to, balance) == Err::<PullEffects, EscrowError>(
                EscrowError::TooEarly,
            ) <==> (current_ledger - deployment_ledger) % 0x1_0000_0000 < period_ledgers)
            &&& (pull_effects(config, state, current_ledger, to, balance) is Ok <==> (current_ledger
                - deployment_ledger) % 0x1_0000_0000 >= period_ledgers)
        }),
{
}

/// Construction is set-once and checks its terms: an escrow that is already
/// constructed refuses with `AlreadyInitialized`, and a constructed escrow has
/// a positive amount and a nonzero period.
pub proof fn construction_is_set_once(
    owner: Address,
    payee: Address,
    amount_per_period: i128,
    period_ledgers: u32,
    token: Address,
    current_ledger: u32,
)
    ensures
        construct_result(true, owner, payee, amount_per_period, period_ledgers, token, current_ledger)
            == Err::<(EscrowConfig, EscrowState), EscrowError>(EscrowError::AlreadyInitialized),
        construct_result(false, owner, payee, amount_per_period, period_ledgers, token, current_ledger) is Ok
            ==> amount_per_period > 0 && period_ledgers > 0,
{
}

/// The outcome of pulls attempted in turn at the ledgers and to the recipients
/// of `attempts`, starting from `state` with `balance` in the escrow and no
/// other movement of funds, each success paying out what `pull_effects` says:
/// the final state, the final balance, the total paid out, and the number of
/// pulls that succeeded.
pub open spec fn pull_run(
    config: EscrowConfig,
    state: EscrowState,
    balance: int,
    attempts: Seq<(u32, Address)>,
) -> (EscrowState, int, int, nat)
    decreases attempts.len(),
{
    if attempts.len() == 0 {
        (state, balance, 0, 0)
    } else {
        let rest = attempts.drop_first();
        let (ledger, to) = attempts[0];
        if balance <= i128::MAX {
            match pull_effects(config, state, ledger, to, balance as i128) {
                Ok(fx) => {
                    let (s, b, paid, n) = pull_run(config, fx.state, balance - fx.payment.amount, rest);
                    (s, b, paid + fx.payment.amount, n + 1)
                },
                Err(_) => pull_run(config, state, balance, rest),
            }
        } else {
            pull_run(config, state, balance, rest)
        }
    }
}

/// Pulls never release more than the escrow holds: over any run of pull
/// attempts, each success pays exactly `amount_per_period`, the balance never
/// goes negative, and what was paid out plus what remains is what was funded.
pub proof fn pulls_never_overdraw(config: EscrowConfig, state: EscrowState, balance: int, attempts: Seq<(u32, Address)>)
    requires
        terms_result(config.amount_per_period, config.period_ledgers) is Ok,
        0 <= balance <= i128::MAX,
    ensures
        ({
            let (_, remaining, paid, count) = pull_run(config, state, balance, attempts);
            &&& 0 <= remaining <= balance
            &&& remaining + paid == balance
            &&& paid == count * config.amount_per_period
        }),
    decreases attempts.len(),
{
    if attempts.len() > 0 {
        let rest = attempts.drop_first();
        let (ledger, to) = attempts[0];
        match pull_effects(config, state, ledger, to, balance as i128) {
            Ok(fx) => {
                pulls_never_overdraw(config, fx.state, balance - config.amount_per_period, rest);
                let (_, remaining, paid, count) = pull_run(
                    config,
                    fx.state,
                    balance - config.amount_per_period,
                    rest,
                );
                assert((count + 1) * config.amount_per_period == count * config.amount_per_period
                    + config.amount_per_period) by (nonlinear_arith);
            },
            Err(_) => {
                pulls_never_overdraw(config, state, balance, rest);
            },
        }
    }
}

/// The pull gate counts elapsed ledgers as the `u32` wrapping difference of
/// the two ledger sequences: `(to - from) mod 2^32`, with no smaller modulus.
pub proof fn ledgers_since_is_the_wrapping_difference(from: u32, to: u32)
    ensures
        ledgers_since(from, to) == (to - from) % 0x1_0000_0000,
        0 <= ledgers_since(from, to) < 0x1_0000_0000,
        from <= to ==> ledgers_since(from, to) == to - from,
{
}

/// The pull gate refuses a cancelled escrow with `AlreadyCancelled`, and
/// otherwise lets a pull through exactly when at least `period_ledgers` ledgers
/// have passed since the last pull, counted as `(current - last) mod 2^32`; a
/// pull before that is refused with `TooEarly`. Any `u32` period can be met.
pub proof fn pull_gate_waits_exactly_one_period(state: EscrowState, period_ledgers: u32, current_ledger: u32)
    ensures
        state.cancelled ==> window_result(state, period_ledgers, current_ledger) == Err::<(), EscrowError>(
            EscrowError::AlreadyCancelled,
        ),
        !state.cancelled ==> (window_result(state, period_ledgers, current_ledger) is Ok <==> (current_ledger
            - state.last_pull_ledger) % 0x1_0000_0000 >= period_ledgers),
        !state.cancelled && (current_ledger - state.last_pull_ledger) % 0x1_0000_0000 < period_ledgers
            ==> window_result(state, period_ledgers, current_ledger) == Err::<(), EscrowError>(
            EscrowError::TooEarly,
        ),
        !state.cancelled && state.last_pull_ledger <= current_ledger && current_ledger - state.last_pull_ledger
            >= period_ledgers ==> window_result(state, period_ledgers, current_ledger) is Ok,
{
}

/// Construction accepts every positive amount with every nonzero period, refuses
/// a zero or negative amount with `InvalidAmount`, and otherwise a zero period
/// with `InvalidPeriod`.
pub proof fn terms_accept_positive_amount_and_nonzero_period(amount_per_period: i128, period_ledgers: u32)
    ensures
        amount_per_period > 0 && period_ledgers > 0 ==> terms_result(amount_per_period, period_ledgers)
            == Ok::<(), EscrowError>(()),
        amount_per_period <= 0 ==> terms_result(amount_per_period, period_ledgers) == Err::<(), EscrowError>(
            EscrowError::InvalidAmount,
        ),
        amount_per_period > 0 && period_ledgers == 0 ==> terms_result(amount_per_period, period_ledgers)
            == Err::<(), EscrowError>(EscrowError::InvalidPeriod),
{
}

/// A first construction succeeds exactly when the amount is positive and the
/// period nonzero, and then stores exactly the given arguments as the
/// configuration and an open state whose last pull is the current ledger; it
/// refuses a zero or negative amount with `InvalidAmount` and otherwise a zero
/// period with `InvalidPeriod`.
pub proof fn construction_stores_the_arguments(
    owner: Address,
    payee: Address,
    amount_per_period: i128,
    period_ledgers: u32,
    token: Address,
    current_ledger: u32,
)
    ensures
        construct_result(false, owner, payee, amount_per_period, period_ledgers, token, current_ledger) is Ok
            <==> amount_per_period > 0 && period_ledgers > 0,
        construct_result(false, owner, payee, amount_per_period, period_ledgers, token, current_ledger) is Ok
            ==> construct_result(false, owner, payee, amount_per_period, period_ledgers, token, current_ledger)->Ok_0
            == (
            EscrowConfig { owner, payee, amount_per_period, period_ledgers, token },
            EscrowState { last_pull_ledger: current_ledger, cancelled: false },
        ),
        amount_per_period <= 0 ==> construct_result(
            false,
            owner,
            payee,
            amount_per_period,
            period_ledgers,
            token,
            current_ledger,
        ) == Err::<(EscrowConfig, EscrowState), EscrowError>(EscrowError::InvalidAmount),
        amount_per_period > 0 && period_ledgers == 0 ==> construct_result(
            false,
            owner,
            payee,
            amount_per_period,
            period_ledgers,
            token,
            current_ledger,
        ) == Err::<(EscrowConfig, EscrowState), EscrowError>(EscrowError::InvalidPeriod),
{
}

} // verus!
