//! Staking pool with time-weighted reward accrual and a scripted reallocation
//! heuristic.
//!
//! The pool spreads its stake over three fixed venues; rewards accrue in
//! proportion to elapsed time and the allocation-weighted APY, and a
//! deterministic reallocation rule reshuffles the weights, always restoring a
//! total of 10000 bps. The host runtime performs the token transfers the
//! returned events call for and persists the records only afterwards.
use vstd::prelude::*;
use vstd::arithmetic::div_mod::lemma_div_is_ordered;
use vstd::arithmetic::mul::{lemma_mul_inequality, lemma_mul_upper_bound};
use crate::AccountKey;

verus! {

/// Volatility reading, in tenths of a percent, that the scripted rule feeds
/// itself in place of a live market feed.
pub const SIMULATED_MARKET_VOLATILITY: u64 = 25;

/// Liquidity reading, in percents, that the scripted rule feeds itself.
pub const SIMULATED_LIQUIDITY_SCORE: u64 = 85;

/// A first stake of at least this many base units switches the permanent
/// reward boost on.
pub const AI_BOOST_MIN_STAKE: u64 = 100_000_000_000;

/// The three venues the pool allocates to. The reallocation rule adjusts each
/// by name.
#[derive(Clone, Copy, PartialEq, Eq, Structural, Debug)]
pub enum Protocol {
    Meteora,
    Raydium,
    Orca,
}

/// One venue's slice of the pool, all figures in basis points.
#[derive(Clone, Copy, PartialEq, Eq, Structural, Debug)]
pub struct Allocation {
    pub protocol: Protocol,
    pub weight: u64,
    pub current_apy: u64,
    pub risk_score: u64,
}

/// Market conditions handed to the reallocation policy. The deterministic
/// rule reads only `volatility`; `liquidity_score` is carried so a live
/// signal source can replace the simulated one without a new interface.
#[derive(Clone, Copy, PartialEq, Eq, Structural, Debug)]
pub struct MarketSignal {
    pub volatility: u64,
    pub liquidity_score: u64,
}

/// Pool-wide record: custody totals, reward parameters and the allocation
/// table.
#[derive(Clone, Debug)]
pub struct StakingPool {
    pub authority: AccountKey,
    pub orgo_mint: AccountKey,
    pub total_staked: u64,
    pub total_rewards: u64,
    pub bump: u8,
    pub base_apy: u64,
    pub ai_boost_multiplier: u64,
    pub last_rebalance: i64,
    pub allocations: Vec<Allocation>,
}

/// Per-user stake record. `ai_boost_active` is decided once, at the first
/// stake, and never re-evaluated.
#[derive(Clone, Copy, PartialEq, Eq, Structural, Debug)]
pub struct UserStake {
    pub user: AccountKey,
    pub amount: u64,
    pub stake_timestamp: i64,
    pub last_claim: i64,
    pub pending_rewards: u64,
    pub total_claimed: u64,
    pub ai_boost_active: bool,
}

/// Event emitted after a stake; the host has moved `amount` from the user
/// into pool custody.
#[derive(Clone, Copy, PartialEq, Eq, Structural, Debug)]
pub struct StakeEvent {
    pub user: AccountKey,
    pub amount: u64,
    pub total_staked: u64,
    pub ai_boost_active: bool,
    pub timestamp: i64,
}

/// Event emitted after a claim; the host transfers `amount` from pool custody
/// to the user, signed by the pool's derived authority.
#[derive(Clone, Copy, PartialEq, Eq, Structural, Debug)]
pub struct RewardClaimEvent {
    pub user: AccountKey,
    pub amount: u64,
    pub ai_boost_applied: bool,
    pub total_claimed: u64,
    pub timestamp: i64,
}

/// Event emitted after a scheduled rebalance, with the new allocation table.
#[derive(Clone, Debug)]
pub struct RebalanceEvent {
    pub allocations: Vec<Allocation>,
    pub timestamp: i64,
}

/// Failures of the staking instructions. `InsufficientStakeForBoost` is
/// declared in the program's error table but no instruction returns it.
#[derive(Clone, Copy, PartialEq, Eq, Structural, Debug)]
pub enum StakingError {
    NoRewardsToClaim,
    RebalanceTooFrequent,
    InsufficientStakeForBoost,
}

/// Sum of the allocation weights, in basis points.
pub open spec fn sum_weights(allocations: Seq<Allocation>) -> int
    decreases allocations.len(),
{
    if allocations.len() == 0 {
        0
    } else {
        sum_weights(allocations.drop_last()) + allocations.last().weight
    }
}

/// Allocation-weighted APY in basis points: each venue contributes
/// `current_apy * weight / 10000`, floor division taken per venue.
pub open spec fn weighted_apy(allocations: Seq<Allocation>) -> int
    decreases allocations.len(),
{
    if allocations.len() == 0 {
        0
    } else {
        weighted_apy(allocations.drop_last()) + (allocations.last().current_apy as int
            * allocations.last().weight as int) / 10000
    }
}

/// The seed allocation table: Meteora 60%, Raydium 30%, Orca 10%.
pub open spec fn initial_allocations() -> Seq<Allocation> {
    seq![
        Allocation { protocol: Protocol::Meteora, weight: 6000, current_apy: 1800, risk_score: 200 },
        Allocation { protocol: Protocol::Raydium, weight: 3000, current_apy: 1500, risk_score: 300 },
        Allocation { protocol: Protocol::Orca, weight: 1000, current_apy: 1200, risk_score: 150 },
    ]
}

/// Well-formedness of a pool record: the three seeded venues in order, weights
/// totalling 10000 bps with the third venue's weight in its working band, APYs
/// within the rule's range, and a bounded boost multiplier.
/// `initialize_staking_pool` establishes it and every instruction preserves it.
pub open spec fn pool_wf(pool: StakingPool) -> bool {
    &&& pool.allocations@.len() == 3
    &&& pool.allocations@[0].protocol == Protocol::Meteora
    &&& pool.allocations@[1].protocol == Protocol::Raydium
    &&& pool.allocations@[2].protocol == Protocol::Orca
    &&& sum_weights(pool.allocations@) == 10000
    &&& 500 <= pool.allocations@[2].weight <= 1000
    &&& pool.allocations@[0].current_apy <= 1900
    &&& pool.allocations@[1].current_apy <= 1900
    &&& pool.allocations@[2].current_apy <= 1900
    &&& pool.ai_boost_multiplier <= 10000
    &&& 0 <= pool.last_rebalance
}

/// One venue's allocation after the deterministic rule: in high volatility
/// Meteora gains 500 bps (capped at 7000) at 1900 bps APY and Orca loses
/// 200 bps (floored at 500) at 1100 bps APY; Raydium is always pinned to
/// 2500 bps at 1600 bps APY.
pub open spec fn adjusted_allocation(allocation: Allocation, volatility: u64) -> Allocation {
    match allocation.protocol {
        Protocol::Meteora => if volatility > 20 {
            Allocation {
                protocol: allocation.protocol,
                weight: if allocation.weight <= 6500 {
                    (allocation.weight + 500) as u64
                } else {
                    7000
                },
                current_apy: 1900,
                risk_score: allocation.risk_score,
            }
        } else {
            allocation
        },
        Protocol::Raydium => Allocation {
            protocol: allocation.protocol,
            weight: 2500,
            current_apy: 1600,
            risk_score: allocation.risk_score,
        },
        Protocol::Orca => if volatility > 20 {
            Allocation {
                protocol: allocation.protocol,
                weight: if allocation.weight >= 700 {
                    (allocation.weight - 200) as u64
                } else {
                    500
                },
                current_apy: 1100,
                risk_score: allocation.risk_score,
            }
        } else {
            allocation
        },
    }
}

/// The whole table after the per-venue rule, before the residual correction.
pub open spec fn adjusted_allocations(allocations: Seq<Allocation>, volatility: u64) -> Seq<
    Allocation,
> {
    allocations.map_values(|a: Allocation| adjusted_allocation(a, volatility))
}

/// The whole table after a rebalance: the per-venue rule, then, when the
/// weights no longer total 10000 bps, the entire deficit or surplus applied to
/// the first venue alone — which can push that venue's weight outside its
/// nominal band.
pub open spec fn rebalanced(allocations: Seq<Allocation>, volatility: u64) -> Seq<Allocation> {
    let adjusted = adjusted_allocations(allocations, volatility);
    let total = sum_weights(adjusted);
    if total == 10000 {
        adjusted
    } else {
        adjusted.update(
            0,
            Allocation {
                protocol: adjusted[0].protocol,
                weight: (adjusted[0].weight + 10000 - total) as u64,
                current_apy: adjusted[0].current_apy,
                risk_score: adjusted[0].risk_score,
            },
        )
    }
}

/// Reward accrued by `amount` staked at `apy_bps` for `elapsed` seconds:
/// the annual reward `amount * apy_bps / 10000`, prorated over a year of
/// 31536000 seconds, every division flooring.
pub open spec fn accrued_rewards(amount: u64, apy_bps: int, elapsed: int) -> int {
    (((amount as int * apy_bps) / 10000) * elapsed) / 31536000
}

/// Rewards owed at claim time: the stored pending rewards plus the accrual
/// since the last claim, the accrual truncated to 64 bits as the handler
/// computes it.
pub open spec fn claim_total(user_stake: UserStake, pool: StakingPool, now: i64) -> int {
    user_stake.pending_rewards + accrued_rewards(
        user_stake.amount,
        weighted_apy(pool.allocations@),
        now - user_stake.last_claim,
    ) as u64
}

/// A claim total after the boost multiplier: `total * multiplier / 100`,
/// truncated to 64 bits.
pub open spec fn boosted_rewards(total: u64, multiplier: u64) -> u64 {
    ((total as int * multiplier as int) / 100) as u64
}

/// What a claim pays out: the claim total, boosted when the user's permanent
/// boost is active.
pub open spec fn claim_payout(user_stake: UserStake, pool: StakingPool, now: i64) -> u64 {
    let total = claim_total(user_stake, pool, now) as u64;
    if user_stake.ai_boost_active {
        boosted_rewards(total, pool.ai_boost_multiplier)
    } else {
        total
    }
}

proof fn lemma_sum_weights_three(s: Seq<Allocation>)
    requires
        s.len() == 3,
    ensures
        sum_weights(s) == s[0].weight + s[1].weight + s[2].weight,
{
    reveal_with_fuel(sum_weights, 4);
    assert(s.drop_last().len() == 2);
    assert(s.drop_last().drop_last().len() == 1);
    assert(s.drop_last().drop_last().drop_last().len() == 0);
    assert(s.drop_last().last() == s[1]);
    assert(s.drop_last().drop_last().last() == s[0]);
}

proof fn lemma_weighted_apy_three(s: Seq<Allocation>)
    requires
        s.len() == 3,
    ensures
        weighted_apy(s) == (s[0].current_apy as int * s[0].weight as int) / 10000 + (
        s[1].current_apy as int * s[1].weight as int) / 10000 + (s[2].current_apy as int
            * s[2].weight as int) / 10000,
{
    reveal_with_fuel(weighted_apy, 4);
    assert(s.drop_last().len() == 2);
    assert(s.drop_last().drop_last().len() == 1);
    assert(s.drop_last().drop_last().drop_last().len() == 0);
    assert(s.drop_last().last() == s[1]);
    assert(s.drop_last().drop_last().last() == s[0]);
}

/// Reward accrual is monotonic: for a fixed principal, a longer elapsed time
/// or a larger weighted APY never yields a smaller accrued reward.
pub proof fn lemma_accrued_rewards_monotonic(
    amount: u64,
    apy1: int,
    apy2: int,
    elapsed1: int,
    elapsed2: int,
)
    requires
        0 <= apy1 <= apy2,
        0 <= elapsed1 <= elapsed2,
    ensures
        accrued_rewards(amount, apy1, elapsed1) <= accrued_rewards(amount, apy2, elapsed2),
{
    let a = amount as int;
    lemma_mul_inequality(apy1, apy2, a);
    lemma_div_is_ordered(a * apy1, a * apy2, 10000);
    let annual1 = (a * apy1) / 10000;
    let annual2 = (a * apy2) / 10000;
    lemma_div_is_ordered(0, a * apy1, 10000);
    lemma_mul_inequality(annual1, annual2, elapsed1);
    lemma_mul_inequality(elapsed1, elapsed2, annual2);
    lemma_div_is_ordered(annual1 * elapsed1, annual2 * elapsed2, 31536000);
}

/// After any rebalance of a well-formed table the allocation weights total
/// exactly 10000 bps: whatever the per-venue rule did, the residual
/// correction on the first venue restores the invariant.
pub proof fn lemma_rebalanced_weights_total(allocations: Seq<Allocation>, volatility: u64)
    requires
        allocations.len() == 3,
        allocations[0].protocol == Protocol::Meteora,
        allocations[1].protocol == Protocol::Raydium,
        allocations[2].protocol == Protocol::Orca,
        sum_weights(allocations) == 10000,
        allocations[2].weight <= 1000,
    ensures
        sum_weights(rebalanced(allocations, volatility)) == 10000,
{
    lemma_sum_weights_three(allocations);
    let adjusted = adjusted_allocations(allocations, volatility);
    lemma_sum_weights_three(adjusted);
    let total = sum_weights(adjusted);
    let corrected = rebalanced(allocations, volatility);
    if total != 10000 {
        assert(adjusted[1].weight == 2500);
        assert(adjusted[2].weight <= 1000);
        assert(corrected[0].weight == adjusted[0].weight + 10000 - total);
        assert(corrected[1] == adjusted[1] && corrected[2] == adjusted[2]);
        lemma_sum_weights_three(corrected);
    }
}

/// Creates the pool record with the seed allocations, a 15.70% base APY and a
/// 1.2x boost multiplier, and stamps `last_rebalance` with the current time.
pub fn initialize_staking_pool(
    authority: AccountKey,
    orgo_mint: AccountKey,
    pool_bump: u8,
    now: i64,
) -> (pool: StakingPool)
    requires
        0 <= now,
    ensures
        pool_wf(pool),
        pool.authority == authority,
        pool.orgo_mint == orgo_mint,
        pool.total_staked == 0,
        pool.total_rewards == 0,
        pool.bump == pool_bump,
        pool.base_apy == 1570,
        pool.ai_boost_multiplier == 120,
        pool.last_rebalance == now,
        pool.allocations@ == initial_allocations(),
{
    let mut allocations: Vec<Allocation> = Vec::new();
    allocations.push(
        Allocation { protocol: Protocol::Meteora, weight: 6000, current_apy: 1800, risk_score: 200 },
    );
    allocations.push(
        Allocation { protocol: Protocol::Raydium, weight: 3000, current_apy: 1500, risk_score: 300 },
    );
    allocations.push(
        Allocation { protocol: Protocol::Orca, weight: 1000, current_apy: 1200, risk_score: 150 },
    );
    let pool = StakingPool {
        authority,
        orgo_mint,
        total_staked: 0,
        total_rewards: 0,
        bump: pool_bump,
        base_apy: 1570,
        ai_boost_multiplier: 120,
        last_rebalance: now,
        allocations,
    };
    proof {
        assert(pool.allocations@ =~= initial_allocations());
        lemma_sum_weights_three(pool.allocations@);
    }
    pool
}

fn adjust_allocation(allocation: &Allocation, volatility: u64) -> (r: Allocation)
    ensures
        r == adjusted_allocation(*allocation, volatility),
{
    match allocation.protocol {
        Protocol::Meteora => {
            if volatility > 20 {
                let weight = if allocation.weight <= 6500 {
                    allocation.weight + 500
                } else {
                    7000
                };
                Allocation {
                    protocol: allocation.protocol,
                    weight,
                    current_apy: 1900,
                    risk_score: allocation.risk_score,
                }
            } else {
                *allocation
            }
        },
        Protocol::Raydium => Allocation {
            protocol: allocation.protocol,
            weight: 2500,
            current_apy: 1600,
            risk_score: allocation.risk_score,
        },
        Protocol::Orca => {
            if volatility > 20 {
                let weight = if allocation.weight >= 700 {
                    allocation.weight - 200
                } else {
                    500
                };
                Allocation {
                    protocol: allocation.protocol,
                    weight,
                    current_apy: 1100,
                    risk_score: allocation.risk_score,
                }
            } else {
                *allocation
            }
        },
    }
}

/// Applies the reallocation policy to the pool's table: the per-venue rule,
/// then the residual correction on the first venue, so the weights always
/// leave totalling exactly 10000 bps.
pub fn rebalance_allocations(staking_pool: &mut StakingPool, signal: &MarketSignal)
    requires
        pool_wf(*old(staking_pool)),
    ensures
        pool_wf(*final(staking_pool)),
        final(staking_pool).allocations@ == rebalanced(
            old(staking_pool).allocations@,
            signal.volatility,
        ),
        sum_weights(final(staking_pool).allocations@) == 10000,
        *final(staking_pool) == (StakingPool {
            allocations: final(staking_pool).allocations,
            ..*old(staking_pool)
        }),
{
    proof {
        lemma_sum_weights_three(staking_pool.allocations@);
    }
    let first_old = staking_pool.allocations[0];
    let second_old = staking_pool.allocations[1];
    let third_old = staking_pool.allocations[2];
    let first = adjust_allocation(&first_old, signal.volatility);
    let second = adjust_allocation(&second_old, signal.volatility);
    let third = adjust_allocation(&third_old, signal.volatility);
    let total: u64 = first.weight + second.weight + third.weight;
    let corrected = if total != 10000 {
        let weight: u64 = if total <= 10000 {
            first.weight + (10000 - total)
        } else {
            first.weight - (total - 10000)
        };
        Allocation {
            protocol: first.protocol,
            weight,
            current_apy: first.current_apy,
            risk_score: first.risk_score,
        }
    } else {
        first
    };
    let mut allocations: Vec<Allocation> = Vec::new();
    allocations.push(corrected);
    allocations.push(second);
    allocations.push(third);
    staking_pool.allocations = allocations;
    proof {
        let previous = old(staking_pool).allocations@;
        let adjusted = adjusted_allocations(previous, signal.volatility);
        assert(adjusted[0] == first && adjusted[1] == second && adjusted[2] == third);
        lemma_sum_weights_three(adjusted);
        assert(staking_pool.allocations@ =~= rebalanced(previous, signal.volatility));
        lemma_sum_weights_three(staking_pool.allocations@);
    }
}

/// Accrual since the user's last claim under the pool's current
/// allocation-weighted APY, computed in 128-bit arithmetic and truncated to
/// the stored 64-bit width.
pub fn calculate_pending_rewards(
    user_stake: &UserStake,
    staking_pool: &StakingPool,
    now: i64,
) -> (r: u64)
    requires
        pool_wf(*staking_pool),
        0 <= user_stake.last_claim <= now,
    ensures
        r == accrued_rewards(
            user_stake.amount,
            weighted_apy(staking_pool.allocations@),
            now - user_stake.last_claim,
        ) as u64,
        accrued_rewards(
            user_stake.amount,
            weighted_apy(staking_pool.allocations@),
            now - user_stake.last_claim,
        ) <= u64::MAX ==> r == accrued_rewards(
            user_stake.amount,
            weighted_apy(staking_pool.allocations@),
            now - user_stake.last_claim,
        ),
{
    let time_diff: i64 = now - user_stake.last_claim;
    proof {
        lemma_sum_weights_three(staking_pool.allocations@);
        lemma_weighted_apy_three(staking_pool.allocations@);
    }
    let first = staking_pool.allocations[0];
    let second = staking_pool.allocations[1];
    let third = staking_pool.allocations[2];
    proof {
        lemma_mul_upper_bound(first.current_apy as int, 1900, first.weight as int, 10000);
        lemma_mul_upper_bound(second.current_apy as int, 1900, second.weight as int, 10000);
        lemma_mul_upper_bound(third.current_apy as int, 1900, third.weight as int, 10000);
        lemma_div_is_ordered(first.current_apy as int * first.weight as int, 19000000, 10000);
        lemma_div_is_ordered(second.current_apy as int * second.weight as int, 19000000, 10000);
        lemma_div_is_ordered(third.current_apy as int * third.weight as int, 19000000, 10000);
    }
    let share0: u128 = ((first.current_apy as u128) * (first.weight as u128)) / 10000;
    let share1: u128 = ((second.current_apy as u128) * (second.weight as u128)) / 10000;
    let share2: u128 = ((third.current_apy as u128) * (third.weight as u128)) / 10000;
    let apy_bps: u64 = (share0 + share1 + share2) as u64;

    proof {
        lemma_mul_upper_bound(user_stake.amount as int, u64::MAX as int, apy_bps as int, 5700);
        lemma_div_is_ordered(
            user_stake.amount as int * apy_bps as int,
            u64::MAX as int * 5700,
            10000,
        );
        lemma_mul_upper_bound(
            (user_stake.amount as int * apy_bps as int) / 10000,
            (u64::MAX as int * 5700) / 10000,
            time_diff as int,
            i64::MAX as int,
        );
    }
    let annual_rewards: u128 = ((user_stake.amount as u128) * (apy_bps as u128)) / 10000;
    let rewards: u128 = (annual_rewards * (time_diff as u128)) / 31536000;
    rewards as u64
}

/// Moves `amount` into pool custody for the caller. A first stake initializes
/// the record and decides the permanent boost; a later stake banks the accrual
/// so far, grows the stake and resets the claim clock. A stake larger than 1%
/// of the grown pool total (integer division, evaluated after the increment)
/// triggers an immediate rebalance under the simulated market signal.
pub fn stake_tokens(
    staking_pool: &mut StakingPool,
    user_stake: &mut UserStake,
    user: AccountKey,
    amount: u64,
    now: i64,
) -> (event: StakeEvent)
    requires
        pool_wf(*old(staking_pool)),
        0 <= old(user_stake).last_claim <= now,
        old(staking_pool).total_staked + amount <= u64::MAX,
        old(user_stake).amount + amount <= u64::MAX,
        old(user_stake).amount > 0 ==> old(user_stake).pending_rewards + accrued_rewards(
            old(user_stake).amount,
            weighted_apy(old(staking_pool).allocations@),
            now - old(user_stake).last_claim,
        ) as u64 <= u64::MAX,
    ensures
        pool_wf(*final(staking_pool)),
        old(user_stake).amount == 0 ==> *final(user_stake) == (UserStake {
            user,
            amount,
            stake_timestamp: now,
            last_claim: now,
            ai_boost_active: amount >= AI_BOOST_MIN_STAKE,
            ..*old(user_stake)
        }),
        old(user_stake).amount > 0 ==> *final(user_stake) == (UserStake {
            amount: (old(user_stake).amount + amount) as u64,
            last_claim: now,
            pending_rewards: (old(user_stake).pending_rewards + accrued_rewards(
                old(user_stake).amount,
                weighted_apy(old(staking_pool).allocations@),
                now - old(user_stake).last_claim,
            ) as u64) as u64,
            ..*old(user_stake)
        }),
        *final(staking_pool) == (StakingPool {
            total_staked: (old(staking_pool).total_staked + amount) as u64,
            allocations: final(staking_pool).allocations,
            ..*old(staking_pool)
        }),
        amount > (old(staking_pool).total_staked + amount) / 100
            ==> final(staking_pool).allocations@ == rebalanced(
            old(staking_pool).allocations@,
            SIMULATED_MARKET_VOLATILITY,
        ),
        amount <= (old(staking_pool).total_staked + amount) / 100
            ==> final(staking_pool).allocations@ == old(staking_pool).allocations@,
        event == (StakeEvent {
            user,
            amount,
            total_staked: final(user_stake).amount,
            ai_boost_active: final(user_stake).ai_boost_active,
            timestamp: now,
        }),
{
    if user_stake.amount == 0 {
        user_stake.user = user;
        user_stake.amount = amount;
        user_stake.stake_timestamp = now;
        user_stake.last_claim = now;
        user_stake.ai_boost_active = amount >= AI_BOOST_MIN_STAKE;
    } else {
        let pending = calculate_pending_rewards(&*user_stake, &*staking_pool, now);
        user_stake.pending_rewards = user_stake.pending_rewards + pending;
        user_stake.amount = user_stake.amount + amount;
        user_stake.last_claim = now;
    }

    staking_pool.total_staked = staking_pool.total_staked + amount;

    if amount > staking_pool.total_staked / 100 {
        let signal = MarketSignal {
            volatility: SIMULATED_MARKET_VOLATILITY,
            liquidity_score: SIMULATED_LIQUIDITY_SCORE,
        };
        rebalance_allocations(staking_pool, &signal);
    }

    StakeEvent {
        user,
        amount,
        total_staked: user_stake.amount,
        ai_boost_active: user_stake.ai_boost_active,
        timestamp: now,
    }
}

/// Pays out everything owed since the last claim, boosted for boosted stakers,
/// and fails with `NoRewardsToClaim` exactly when nothing is owed. On success
/// the host transfers the event's `amount` from pool custody to the user,
/// signed by the pool's derived authority; the records are untouched on
/// failure.
pub fn claim_rewards(
    staking_pool: &mut StakingPool,
    user_stake: &mut UserStake,
    user: AccountKey,
    now: i64,
) -> (r: Result<RewardClaimEvent, StakingError>)
    requires
        pool_wf(*old(staking_pool)),
        0 <= old(user_stake).last_claim <= now,
        claim_total(*old(user_stake), *old(staking_pool), now) <= u64::MAX,
        old(user_stake).total_claimed + claim_payout(*old(user_stake), *old(staking_pool), now)
            <= u64::MAX,
        old(staking_pool).total_rewards + claim_payout(*old(user_stake), *old(staking_pool), now)
            <= u64::MAX,
    ensures
        pool_wf(*final(staking_pool)),
        r is Err <==> claim_total(*old(user_stake), *old(staking_pool), now) == 0,
        r is Err ==> r->Err_0 == StakingError::NoRewardsToClaim && *final(user_stake) == *old(
            user_stake,
        ) && *final(staking_pool) == *old(staking_pool),
        r is Ok ==> ({
            let payout = claim_payout(*old(user_stake), *old(staking_pool), now);
            &&& *final(user_stake) == (UserStake {
                pending_rewards: 0,
                last_claim: now,
                total_claimed: (old(user_stake).total_claimed + payout) as u64,
                ..*old(user_stake)
            })
            &&& *final(staking_pool) == (StakingPool {
                total_rewards: (old(staking_pool).total_rewards + payout) as u64,
                ..*old(staking_pool)
            })
            &&& r->Ok_0 == (RewardClaimEvent {
                user,
                amount: payout,
                ai_boost_applied: old(user_stake).ai_boost_active,
                total_claimed: (old(user_stake).total_claimed + payout) as u64,
                timestamp: now,
            })
        }),
{
    let pending = calculate_pending_rewards(&*user_stake, &*staking_pool, now);
    let total_rewards: u64 = user_stake.pending_rewards + pending;

    if total_rewards == 0 {
        return Err(StakingError::NoRewardsToClaim);
    }

    let final_rewards: u64 = if user_stake.ai_boost_active {
        proof {
            lemma_mul_upper_bound(
                total_rewards as int,
                u64::MAX as int,
                staking_pool.ai_boost_multiplier as int,
                10000,
            );
        }
        ((total_rewards as u128 * staking_pool.ai_boost_multiplier as u128) / 100) as u64
    } else {
        total_rewards
    };

    user_stake.pending_rewards = 0;
    user_stake.last_claim = now;
    user_stake.total_claimed = user_stake.total_claimed + final_rewards;

    staking_pool.total_rewards = staking_pool.total_rewards + final_rewards;

    Ok(
        RewardClaimEvent {
            user,
            amount: final_rewards,
            ai_boost_applied: user_stake.ai_boost_active,
            total_claimed: user_stake.total_claimed,
            timestamp: now,
        },
    )
}

/// Runs the scheduled rebalance: fails with `RebalanceTooFrequent` until a
/// full day has elapsed since the last one, otherwise applies the policy
/// under the simulated market signal, stamps the time and reports the new
/// table.
pub fn ai_rebalance(staking_pool: &mut StakingPool, now: i64) -> (r: Result<
    RebalanceEvent,
    StakingError,
>)
    requires
        pool_wf(*old(staking_pool)),
        old(staking_pool).last_rebalance <= now,
    ensures
        pool_wf(*final(staking_pool)),
        r is Err <==> now - old(staking_pool).last_rebalance < 86400,
        r is Err ==> r->Err_0 == StakingError::RebalanceTooFrequent && *final(staking_pool)
            == *old(staking_pool),
        r is Ok ==> ({
            &&& final(staking_pool).allocations@ == rebalanced(
                old(staking_pool).allocations@,
                SIMULATED_MARKET_VOLATILITY,
            )
            &&& *final(staking_pool) == (StakingPool {
                last_rebalance: now,
                allocations: final(staking_pool).allocations,
                ..*old(staking_pool)
            })
            &&& r->Ok_0.allocations@ == final(staking_pool).allocations@
            &&& r->Ok_0.timestamp == now
        }),
{
    if now - staking_pool.last_rebalance < 86400 {
        return Err(StakingError::RebalanceTooFrequent);
    }

    let signal = MarketSignal {
        volatility: SIMULATED_MARKET_VOLATILITY,
        liquidity_score: SIMULATED_LIQUIDITY_SCORE,
    };
    rebalance_allocations(staking_pool, &signal);
    staking_pool.last_rebalance = now;

    Ok(RebalanceEvent { allocations: staking_pool.allocations.clone(), timestamp: now })
}

} // verus!
