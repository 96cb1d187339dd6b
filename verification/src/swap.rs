//! Swap escrow with a dynamic burn, and the linear fee-discount staking rule.
//!
//! An escrow is created `Pending` by `initiate_swap` and moved once, terminally,
//! to `Completed` by `execute_swap`. The burn taken at execution scales with the
//! configured basis points and a volatility multiplier, but never exceeds a
//! tenth of the escrowed amount; whatever is not burned goes to the recipient.
//! `stake_orgo` accumulates a per-user stake and recomputes the fee discount
//! from the cumulative amount. The host runtime performs the token transfers
//! the returned events call for and persists the records only afterwards.
use vstd::prelude::*;
use vstd::arithmetic::div_mod::lemma_div_is_ordered;
use vstd::arithmetic::mul::lemma_mul_upper_bound;
use crate::AccountKey;

verus! {

/// Lifecycle of an escrow record. `Cancelled` is part of the stored layout but
/// no instruction reaches it.
#[derive(Clone, Copy, PartialEq, Eq, Structural, Debug)]
pub enum SwapStatus {
    Pending,
    Completed,
    Cancelled,
}

/// Failures of the swap and fee-discount instructions. `AmountOverflow` is the
/// overflow failure of the checked accumulation in `stake_orgo`.
#[derive(Clone, Copy, PartialEq, Eq, Structural, Debug)]
pub enum ErrorCode {
    InvalidBurnRate,
    SwapExpired,
    InvalidStatus,
    SlippageExceeded,
    AmountOverflow,
}

/// Two-party escrow record, addressed by a key derived from `user`.
#[derive(Clone, Copy, PartialEq, Eq, Structural, Debug)]
pub struct EscrowAccount {
    pub user: AccountKey,
    pub recipient: AccountKey,
    pub amount_in: u64,
    pub min_amount_out: u64,
    pub burn_bps: u16,
    pub created_at: i64,
    pub status: SwapStatus,
}

/// Per-user fee-discount stake record.
#[derive(Clone, Copy, PartialEq, Eq, Structural, Debug)]
pub struct StakeAccount {
    pub user: AccountKey,
    pub amount: u64,
    pub last_staked: i64,
    pub fee_discount_bps: u16,
}

/// Event emitted when an escrow is created.
#[derive(Clone, Copy, PartialEq, Eq, Structural, Debug)]
pub struct SwapInitiated {
    pub escrow: AccountKey,
    pub user: AccountKey,
    pub amount_in: u64,
    pub burn_bps: u16,
}

/// Event emitted when an escrow is executed; the host transfers
/// `output_amount` to the recipient and `burn_amount` to the burn sink.
#[derive(Clone, Copy, PartialEq, Eq, Structural, Debug)]
pub struct SwapExecuted {
    pub escrow: AccountKey,
    pub output_amount: u64,
    pub burn_amount: u64,
    pub volatility_multiplier: u16,
}

/// Event emitted when tokens are staked for a fee discount.
#[derive(Clone, Copy, PartialEq, Eq, Structural, Debug)]
pub struct OrgoStaked {
    pub user: AccountKey,
    pub amount: u64,
    pub total_staked: u64,
    pub discount_bps: u16,
}

/// Burn before the volatility adjustment: `amount_in * burn_bps / 10000`.
pub open spec fn base_burn(amount_in: u64, burn_bps: u16) -> int {
    (amount_in as int * burn_bps as int) / 10000
}

/// Burn after the volatility adjustment: `base_burn * volatility_multiplier / 100`.
pub open spec fn adjusted_burn(amount_in: u64, burn_bps: u16, volatility_multiplier: u16) -> int {
    (base_burn(amount_in, burn_bps) * volatility_multiplier as int) / 100
}

/// The burn actually taken: the adjusted burn, capped at a tenth of the
/// escrowed amount.
pub open spec fn burn_amount(amount_in: u64, burn_bps: u16, volatility_multiplier: u16) -> int {
    let adjusted = adjusted_burn(amount_in, burn_bps, volatility_multiplier);
    let cap = amount_in as int / 10;
    if adjusted < cap {
        adjusted
    } else {
        cap
    }
}

/// What the recipient receives: the escrowed amount less the burn.
pub open spec fn swap_output(amount_in: u64, burn_bps: u16, volatility_multiplier: u16) -> int {
    amount_in as int - burn_amount(amount_in, burn_bps, volatility_multiplier)
}

/// Fee discount earned by a cumulative stake: 50 bps per 100_000_000 base
/// units, capped at 5000 bps.
pub open spec fn fee_discount_for(amount: u64) -> int {
    let d = (amount as int / 100_000_000) * 50;
    if d < 5000 {
        d
    } else {
        5000
    }
}

/// Creates a `Pending` escrow for `amount_in` tokens, rejecting burn rates over
/// 1000 bps. On success the host has already moved `amount_in` from the user
/// into escrow custody at address `escrow_key`.
pub fn initiate_swap(
    user: AccountKey,
    escrow_key: AccountKey,
    amount_in: u64,
    min_amount_out: u64,
    burn_bps: u16,
    recipient: AccountKey,
    now: i64,
) -> (r: Result<(EscrowAccount, SwapInitiated), ErrorCode>)
    requires
        0 <= now,
    ensures
        r is Ok <==> burn_bps <= 1000,
        r is Err ==> r->Err_0 == ErrorCode::InvalidBurnRate,
        r is Ok ==> r->Ok_0.0 == (EscrowAccount {
            user,
            recipient,
            amount_in,
            min_amount_out,
            burn_bps,
            created_at: now,
            status: SwapStatus::Pending,
        }),
        r is Ok ==> r->Ok_0.1 == (SwapInitiated { escrow: escrow_key, user, amount_in, burn_bps }),
{
    if burn_bps > 1000 {
        return Err(ErrorCode::InvalidBurnRate);
    }
    let escrow = EscrowAccount {
        user,
        recipient,
        amount_in,
        min_amount_out,
        burn_bps,
        created_at: now,
        status: SwapStatus::Pending,
    };
    let event = SwapInitiated { escrow: escrow_key, user, amount_in, burn_bps };
    Ok((escrow, event))
}

/// Executes a `Pending` escrow: computes the capped dynamic burn, checks
/// slippage, and marks the escrow `Completed`. On success the host transfers
/// `output_amount` to the recipient and, when positive, `burn_amount` to the
/// burn sink, both signed by the escrow's derived authority. The record is
/// untouched on every failure.
pub fn execute_swap(
    escrow: &mut EscrowAccount,
    escrow_key: AccountKey,
    volatility_multiplier: u16,
    now: i64,
) -> (r: Result<SwapExecuted, ErrorCode>)
    requires
        0 <= old(escrow).created_at <= now,
    ensures
        r is Err ==> *final(escrow) == *old(escrow),
        now - old(escrow).created_at > 86400 ==> r == Err::<SwapExecuted, ErrorCode>(
            ErrorCode::SwapExpired,
        ),
        now - old(escrow).created_at <= 86400 && old(escrow).status != SwapStatus::Pending
            ==> r == Err::<SwapExecuted, ErrorCode>(ErrorCode::InvalidStatus),
        now - old(escrow).created_at <= 86400 && old(escrow).status == SwapStatus::Pending
            && swap_output(old(escrow).amount_in, old(escrow).burn_bps, volatility_multiplier)
            < old(escrow).min_amount_out ==> r == Err::<SwapExecuted, ErrorCode>(
            ErrorCode::SlippageExceeded,
        ),
        r is Ok <==> (now - old(escrow).created_at <= 86400 && old(escrow).status
            == SwapStatus::Pending && swap_output(
            old(escrow).amount_in,
            old(escrow).burn_bps,
            volatility_multiplier,
        ) >= old(escrow).min_amount_out),
        r is Ok ==> r->Ok_0 == (SwapExecuted {
            escrow: escrow_key,
            output_amount: swap_output(
                old(escrow).amount_in,
                old(escrow).burn_bps,
                volatility_multiplier,
            ) as u64,
            burn_amount: burn_amount(
                old(escrow).amount_in,
                old(escrow).burn_bps,
                volatility_multiplier,
            ) as u64,
            volatility_multiplier,
        }),
        r is Ok ==> *final(escrow) == (EscrowAccount {
            user: old(escrow).user,
            recipient: old(escrow).recipient,
            amount_in: old(escrow).amount_in,
            min_amount_out: old(escrow).min_amount_out,
            burn_bps: old(escrow).burn_bps,
            created_at: old(escrow).created_at,
            status: SwapStatus::Completed,
        }),
        // the burn never exceeds a tenth of the escrowed amount, and the burn
        // and the output together return the escrowed amount exactly
        r is Ok ==> r->Ok_0.burn_amount <= old(escrow).amount_in as int / 10,
        r is Ok ==> r->Ok_0.output_amount + r->Ok_0.burn_amount == old(escrow).amount_in,
{
    if now - escrow.created_at > 86400 {
        return Err(ErrorCode::SwapExpired);
    }
    if escrow.status != SwapStatus::Pending {
        return Err(ErrorCode::InvalidStatus);
    }

    let amount_in = escrow.amount_in;
    let burn_bps = escrow.burn_bps;
    proof {
        lemma_mul_upper_bound(
            amount_in as int,
            u64::MAX as int,
            burn_bps as int,
            u16::MAX as int,
        );
    }
    let base: u128 = ((amount_in as u128) * (burn_bps as u128)) / 10000;
    proof {
        lemma_div_is_ordered(
            amount_in as int * burn_bps as int,
            u64::MAX as int * u16::MAX as int,
            10000,
        );
        lemma_mul_upper_bound(
            base as int,
            (u64::MAX as int * u16::MAX as int) / 10000,
            volatility_multiplier as int,
            u16::MAX as int,
        );
    }
    let adjusted: u128 = (base * (volatility_multiplier as u128)) / 100;
    let cap: u128 = (amount_in as u128) / 10;
    let burn: u64 = if adjusted < cap {
        adjusted as u64
    } else {
        cap as u64
    };
    let output: u64 = amount_in - burn;

    if output < escrow.min_amount_out {
        return Err(ErrorCode::SlippageExceeded);
    }

    escrow.status = SwapStatus::Completed;
    Ok(SwapExecuted { escrow: escrow_key, output_amount: output, burn_amount: burn, volatility_multiplier })
}

/// Accumulates `amount` into the user's fee-discount stake and recomputes the
/// discount from the cumulative total; fails without touching the record when
/// the accumulation would overflow. On success the host has already moved
/// `amount` into the stake custody account.
pub fn stake_orgo(
    stake_account: &mut StakeAccount,
    user: AccountKey,
    amount: u64,
    now: i64,
) -> (r: Result<OrgoStaked, ErrorCode>)
    ensures
        r is Ok <==> old(stake_account).amount + amount <= u64::MAX,
        r is Err ==> r->Err_0 == ErrorCode::AmountOverflow && *final(stake_account) == *old(
            stake_account,
        ),
        r is Ok ==> *final(stake_account) == (StakeAccount {
            user,
            amount: (old(stake_account).amount + amount) as u64,
            last_staked: now,
            fee_discount_bps: fee_discount_for((old(stake_account).amount + amount) as u64) as u16,
        }),
        r is Ok ==> r->Ok_0 == (OrgoStaked {
            user,
            amount,
            total_staked: (old(stake_account).amount + amount) as u64,
            discount_bps: fee_discount_for((old(stake_account).amount + amount) as u64) as u16,
        }),
{
    let total = match stake_account.amount.checked_add(amount) {
        Some(total) => total,
        None => {
            return Err(ErrorCode::AmountOverflow);
        },
    };
    let scaled: u64 = (total / 100_000_000) * 50;
    let discount_bps: u16 = if scaled < 5000 {
        scaled as u16
    } else {
        5000
    };
    stake_account.user = user;
    stake_account.amount = total;
    stake_account.last_staked = now;
    stake_account.fee_discount_bps = discount_bps;
    Ok(OrgoStaked { user, amount, total_staked: total, discount_bps })
}

} // verus!
