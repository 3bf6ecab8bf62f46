use vstd::prelude::*;
use crate::errors::Error;
use crate::ledger::{moved_balances, Ledger};
use crate::math::lemma_div_double;
use vstd::arithmetic::div_mod::lemma_div_pos_is_pos;
use vstd::arithmetic::mul::lemma_mul_nonnegative;

verus! {

/// Seconds in one day, the unit of the reward rate.
pub const SECONDS_PER_DAY: u64 = 86400;

/// The reward rate is expressed per mille per day: a rate of 10 is 1%
/// of the staked amount each day.
pub const RATE_DENOMINATOR: u64 = 1000;

/// One staker's record.  Created on first stake; `amount` grows on
/// further stakes; removed on full unstake.
#[derive(Clone, Copy, Debug, PartialEq, Eq, Structural)]
pub struct StakeInfo {
    pub amount: u64,
    pub start_time: u64,
    /// Time rewards were last claimed; never before `start_time` and
    /// non-decreasing over the record's life.
    pub last_claim_time: u64,
}

/// The staking pool's configuration: the minimum stake, the daily reward
/// rate, and the two ledger accounts it works through — the custody
/// account holding all staked tokens and the reserve that pays rewards.
#[derive(Clone, Copy, Debug, PartialEq, Eq, Structural)]
pub struct StakingPool {
    pub min_stake: u64,
    pub daily_rate_per_mille: u64,
    pub custody: usize,
    pub rewards_reserve: usize,
}

impl StakeInfo {
    pub open spec fn wf(self) -> bool {
        self.last_claim_time >= self.start_time
    }
}

impl StakingPool {
    /// The custody and reserve accounts must be distinct, or an unstake
    /// could pay rewards out of the tokens it is about to return.
    pub open spec fn wf(self) -> bool {
        self.custody != self.rewards_reserve
    }
}

/// Rewards accrued by `amount` staked units over `elapsed` seconds:
/// `floor(amount * rate * elapsed / (1000 * 86400))`, the single-record,
/// single-rate policy — a top-up accrues at the blended rate of the one
/// record rather than per tranche.
pub open spec fn accrued_amount(amount: u64, rate: u64, elapsed: u64) -> int {
    amount * rate * elapsed / ((RATE_DENOMINATOR * SECONDS_PER_DAY) as int)
}

/// The staked amount a record holds, 0 for an absent record.
pub open spec fn stake_amount_of(rec: Option<StakeInfo>) -> int {
    match rec {
        Some(r0) => r0.amount as int,
        None => 0,
    }
}

/// Total amount staked over a sequence of per-account records.
pub open spec fn stake_total(s: Seq<Option<StakeInfo>>) -> int
    decreases s.len(),
{
    if s.len() == 0 {
        0
    } else {
        stake_total(s.drop_last()) + stake_amount_of(s.last())
    }
}

pub proof fn lemma_stake_total_nonneg(s: Seq<Option<StakeInfo>>)
    ensures
        stake_total(s) >= 0,
    decreases s.len(),
{
    if s.len() > 0 {
        lemma_stake_total_nonneg(s.drop_last());
    }
}

/// Replacing one record changes the total by the difference of the
/// staked amounts.
pub proof fn lemma_stake_total_update(s: Seq<Option<StakeInfo>>, i: int, v: Option<StakeInfo>)
    requires
        0 <= i < s.len(),
    ensures
        stake_total(s.update(i, v)) == stake_total(s) - stake_amount_of(s[i]) + stake_amount_of(v),
    decreases s.len(),
{
    if i == s.len() - 1 {
        assert(s.update(i, v).drop_last() =~= s.drop_last());
    } else {
        lemma_stake_total_update(s.drop_last(), i, v);
        assert(s.update(i, v).drop_last() =~= s.drop_last().update(i, v));
    }
}

/// Every record's amount is bounded by the total.
pub proof fn lemma_stake_total_elem(s: Seq<Option<StakeInfo>>, i: int)
    requires
        0 <= i < s.len(),
    ensures
        stake_amount_of(s[i]) <= stake_total(s),
    decreases s.len(),
{
    lemma_stake_total_nonneg(s.drop_last());
    if i < s.len() - 1 {
        lemma_stake_total_elem(s.drop_last(), i);
    }
}

/// Appending a record adds its amount to the total.
pub proof fn lemma_stake_total_push(s: Seq<Option<StakeInfo>>, v: Option<StakeInfo>)
    ensures
        stake_total(s.push(v)) == stake_total(s) + stake_amount_of(v),
{
    assert(s.push(v).drop_last() =~= s);
}

/// Full description of what `stake` did.
pub open spec fn stake_post(
    pool: StakingPool,
    pre_rec: Option<StakeInfo>,
    post_rec: Option<StakeInfo>,
    pre_l: Ledger,
    post_l: Ledger,
    staker: int,
    amount: u64,
    now: u64,
    r: Result<(), Error>,
) -> bool {
    match r {
        Ok(_) => {
            &&& amount >= pool.min_stake
            &&& pre_l.balances@[staker] >= amount
            &&& post_l.balances@ == moved_balances(
                pre_l.balances@,
                staker,
                pool.custody as int,
                amount,
            )
            &&& (forall|a: int|
                0 <= a < pre_l.balances@.len() && a != staker && a != pool.custody
                    ==> post_l.balances@[a] == pre_l.balances@[a])
            &&& (staker != pool.custody ==> post_l.balances@[pool.custody as int]
                == pre_l.balances@[pool.custody as int] + amount)
            &&& (staker != pool.custody ==> post_l.balances@[staker]
                == pre_l.balances@[staker] - amount)
            &&& (staker == pool.custody ==> post_l.balances@[staker] == pre_l.balances@[staker])
            &&& post_l.issued == pre_l.issued
            &&& Ledger::config_unchanged(pre_l, post_l)
            &&& post_rec == (match pre_rec {
                Some(old_rec) => Some(
                    StakeInfo { amount: (old_rec.amount + amount) as u64, ..old_rec },
                ),
                None => Some(StakeInfo { amount, start_time: now, last_claim_time: now }),
            })
        },
        Err(e) => {
            &&& post_rec == pre_rec
            &&& post_l == pre_l
            &&& if amount < pool.min_stake {
                e == Error::BelowMinimum
            } else {
                e == Error::InsufficientBalance && pre_l.balances@[staker] < amount
            }
        },
    }
}

/// Full description of what `claim_rewards` did.
pub open spec fn claim_rewards_post(
    pool: StakingPool,
    pre_rec: StakeInfo,
    post_rec: StakeInfo,
    pre_l: Ledger,
    post_l: Ledger,
    staker: int,
    now: u64,
    r: Result<u64, Error>,
) -> bool {
    let acc = accrued_amount(
        pre_rec.amount,
        pool.daily_rate_per_mille,
        (now - pre_rec.last_claim_time) as u64,
    );
    let reserve_bal = pre_l.balances@[pool.rewards_reserve as int];
    match r {
        Ok(paid) => {
            &&& acc > 0
            &&& acc <= reserve_bal
            &&& paid == acc
            &&& post_rec == (StakeInfo { last_claim_time: now, ..pre_rec })
            &&& post_l.balances@ == moved_balances(
                pre_l.balances@,
                pool.rewards_reserve as int,
                staker,
                paid,
            )
            &&& (forall|a: int|
                0 <= a < pre_l.balances@.len() && a != staker && a != pool.rewards_reserve
                    ==> post_l.balances@[a] == pre_l.balances@[a])
            &&& (staker != pool.rewards_reserve ==> post_l.balances@[staker]
                == pre_l.balances@[staker] + paid)
            &&& (staker != pool.rewards_reserve ==> post_l.balances@[pool.rewards_reserve as int]
                == pre_l.balances@[pool.rewards_reserve as int] - paid)
            &&& (staker == pool.rewards_reserve ==> post_l.balances@[staker]
                == pre_l.balances@[staker])
            &&& post_l.issued == pre_l.issued
            &&& Ledger::config_unchanged(pre_l, post_l)
        },
        Err(e) => {
            &&& post_rec == pre_rec
            &&& post_l == pre_l
            &&& if acc == 0 {
                e == Error::NoRewards
            } else {
                e == Error::InsufficientBalance && acc > reserve_bal
            }
        },
    }
}

/// Full description of what `unstake` did.
pub open spec fn unstake_post(
    pool: StakingPool,
    pre_rec: StakeInfo,
    post_rec: Option<StakeInfo>,
    pre_l: Ledger,
    post_l: Ledger,
    staker: int,
    now: u64,
    r: Result<u64, Error>,
) -> bool {
    let acc = accrued_amount(
        pre_rec.amount,
        pool.daily_rate_per_mille,
        (now - pre_rec.last_claim_time) as u64,
    );
    let reserve = pool.rewards_reserve as int;
    let custody = pool.custody as int;
    match r {
        Ok(rewards) => {
            &&& rewards == acc
            &&& acc <= pre_l.balances@[reserve]
            &&& pre_l.balances@[custody] >= pre_rec.amount
            &&& post_rec is None
            &&& post_l.balances@ == moved_balances(
                moved_balances(pre_l.balances@, reserve, staker, rewards),
                custody,
                staker,
                pre_rec.amount,
            )
            &&& (forall|a: int|
                0 <= a < pre_l.balances@.len() && a != staker && a != reserve && a != custody
                    ==> post_l.balances@[a] == pre_l.balances@[a])
            &&& (staker != reserve && staker != custody && reserve != custody ==> {
                &&& post_l.balances@[staker] == pre_l.balances@[staker] + rewards
                    + pre_rec.amount
                &&& post_l.balances@[reserve] == pre_l.balances@[reserve] - rewards
                &&& post_l.balances@[custody] == pre_l.balances@[custody] - pre_rec.amount
            })
            &&& post_l.issued == pre_l.issued
            &&& Ledger::config_unchanged(pre_l, post_l)
        },
        Err(e) => {
            &&& e == Error::InsufficientBalance
            &&& (acc > pre_l.balances@[reserve] || pre_l.balances@[custody] < pre_rec.amount)
            &&& post_rec == Some(pre_rec)
            &&& post_l == pre_l
        },
    }
}

/// Stake `amount` from the staker's free balance into custody.  A first
/// stake creates the record with both times set to `now`; a further
/// stake only raises the amount, so the pre-existing portion keeps its
/// accrual clock.
pub fn stake(
    pool: &StakingPool,
    ledger: &mut Ledger,
    record: &mut Option<StakeInfo>,
    staker: usize,
    amount: u64,
    now: u64,
) -> (r: Result<(), Error>)
    requires
        old(ledger).wf(),
        staker < old(ledger).balances@.len(),
        pool.custody < old(ledger).balances@.len(),
        ((*old(record)) matches Some(rec) ==> rec.wf()),
        ((*old(record)) matches Some(rec) ==> ((amount >= pool.min_stake && old(
            ledger,
        ).balances@[staker as int] >= amount) ==> rec.amount + amount <= u64::MAX)),
    ensures
        final(ledger).wf(),
        final(ledger).balances@.len() == old(ledger).balances@.len(),
        ((*final(record)) matches Some(rec) ==> rec.wf()),
        stake_post(
            *pool,
            *old(record),
            *final(record),
            *old(ledger),
            *final(ledger),
            staker as int,
            amount,
            now,
            r,
        ),
{
    if amount < pool.min_stake {
        return Err(Error::BelowMinimum);
    }
    match ledger.move_untaxed(staker, pool.custody, amount) {
        Ok(()) => {
            match record {
                Some(rec) => {
                    rec.amount = rec.amount + amount;
                },
                None => {
                    *record = Some(StakeInfo { amount, start_time: now, last_claim_time: now });
                },
            }
            Ok(())
        },
        Err(e) => Err(e),
    }
}

/// Rewards accrued since the last claim; a pure read of the formula
/// `floor(amount * rate * elapsed / (1000 * 86400))`.
pub fn accrued_rewards(pool: &StakingPool, record: &StakeInfo, now: u64) -> (r: u64)
    requires
        record.wf(),
        now >= record.last_claim_time,
        record.amount * pool.daily_rate_per_mille * (now - record.last_claim_time) <= u128::MAX,
        accrued_amount(
            record.amount,
            pool.daily_rate_per_mille,
            (now - record.last_claim_time) as u64,
        ) <= u64::MAX,
    ensures
        r == accrued_amount(
            record.amount,
            pool.daily_rate_per_mille,
            (now - record.last_claim_time) as u64,
        ),
{
    let elapsed: u64 = now - record.last_claim_time;
    proof {
        assert((record.amount as int) * (pool.daily_rate_per_mille as int) <= (u64::MAX as int) * (
        u64::MAX as int)) by (nonlinear_arith)
            requires
                record.amount <= u64::MAX,
                pool.daily_rate_per_mille <= u64::MAX,
        ;
    }
    let num: u128 = (record.amount as u128) * (pool.daily_rate_per_mille as u128);
    let total: u128 = num * (elapsed as u128);
    let r128: u128 = total / ((RATE_DENOMINATOR * SECONDS_PER_DAY) as u128);
    r128 as u64
}

/// Claim the rewards accrued since `last_claim_time`: pays them from the
/// rewards reserve to the staker and advances the record's clock to
/// `now`.  Fails with `NoRewards` when nothing has accrued — in
/// particular when `now == last_claim_time` — and with
/// `InsufficientBalance` when the reserve is depleted below the accrued
/// amount.
pub fn claim_rewards(
    pool: &StakingPool,
    ledger: &mut Ledger,
    record: &mut StakeInfo,
    staker: usize,
    now: u64,
) -> (r: Result<u64, Error>)
    requires
        old(record).wf(),
        old(ledger).wf(),
        staker < old(ledger).balances@.len(),
        pool.rewards_reserve < old(ledger).balances@.len(),
        now >= old(record).last_claim_time,
        old(record).amount * pool.daily_rate_per_mille * (now - old(record).last_claim_time)
            <= u128::MAX,
    ensures
        final(record).wf(),
        final(ledger).wf(),
        final(ledger).balances@.len() == old(ledger).balances@.len(),
        claim_rewards_post(
            *pool,
            *old(record),
            *final(record),
            *old(ledger),
            *final(ledger),
            staker as int,
            now,
            r,
        ),
{
    let elapsed: u64 = now - record.last_claim_time;
    proof {
        assert((record.amount as int) * (pool.daily_rate_per_mille as int) <= (u64::MAX as int) * (
        u64::MAX as int)) by (nonlinear_arith)
            requires
                record.amount <= u64::MAX,
                pool.daily_rate_per_mille <= u64::MAX,
        ;
    }
    let num: u128 = (record.amount as u128) * (pool.daily_rate_per_mille as u128);
    let total: u128 = num * (elapsed as u128);
    let r128: u128 = total / ((RATE_DENOMINATOR * SECONDS_PER_DAY) as u128);
    if r128 == 0 {
        return Err(Error::NoRewards);
    }
    let reserve_bal = ledger.balances[pool.rewards_reserve];
    if r128 > reserve_bal as u128 {
        return Err(Error::InsufficientBalance);
    }
    let paid: u64 = r128 as u64;
    match ledger.move_untaxed(pool.rewards_reserve, staker, paid) {
        Ok(()) => {
            record.last_claim_time = now;
            Ok(paid)
        },
        Err(_) => {
            proof {
                assert(false);
            }
            Err(Error::InsufficientBalance)
        },
    }
}

/// Unstake everything: first settles accrued rewards (zero rewards is
/// not an error here), then returns the staked amount from custody to
/// the staker and removes the record.  All state moves commit together
/// or not at all: both the reserve and custody balances are checked
/// before anything is mutated.
pub fn unstake(
    pool: &StakingPool,
    ledger: &mut Ledger,
    record: &mut Option<StakeInfo>,
    staker: usize,
    now: u64,
) -> (r: Result<u64, Error>)
    requires
        old(ledger).wf(),
        pool.wf(),
        staker < old(ledger).balances@.len(),
        pool.custody < old(ledger).balances@.len(),
        pool.rewards_reserve < old(ledger).balances@.len(),
        staker != pool.custody,
        staker != pool.rewards_reserve,
        (*old(record)) matches Some(rec),
        ((*old(record)) matches Some(rec) ==> {
            &&& rec.wf()
            &&& now >= rec.last_claim_time
            &&& rec.amount * pool.daily_rate_per_mille * (now - rec.last_claim_time) <= u128::MAX
        }),
    ensures
        final(ledger).wf(),
        final(ledger).balances@.len() == old(ledger).balances@.len(),
        unstake_post(
            *pool,
            (*old(record))->Some_0,
            *final(record),
            *old(ledger),
            *final(ledger),
            staker as int,
            now,
            r,
        ),
{
    let rec: StakeInfo = match record {
        Some(r0) => *r0,
        None => {
            proof {
                assert(false);
            }
            StakeInfo { amount: 0, start_time: 0, last_claim_time: 0 }
        },
    };
    let elapsed: u64 = now - rec.last_claim_time;
    proof {
        assert((rec.amount as int) * (pool.daily_rate_per_mille as int) <= (u64::MAX as int) * (
        u64::MAX as int)) by (nonlinear_arith)
            requires
                rec.amount <= u64::MAX,
                pool.daily_rate_per_mille <= u64::MAX,
        ;
    }
    let num: u128 = (rec.amount as u128) * (pool.daily_rate_per_mille as u128);
    let total: u128 = num * (elapsed as u128);
    let r128: u128 = total / ((RATE_DENOMINATOR * SECONDS_PER_DAY) as u128);
    let reserve_bal = ledger.balances[pool.rewards_reserve];
    if r128 > reserve_bal as u128 {
        return Err(Error::InsufficientBalance);
    }
    let custody_bal = ledger.balances[pool.custody];
    if custody_bal < rec.amount {
        return Err(Error::InsufficientBalance);
    }
    let rewards: u64 = r128 as u64;
    match ledger.move_untaxed(pool.rewards_reserve, staker, rewards) {
        Ok(()) => {},
        Err(_) => {
            proof {
                assert(false);
            }
            return Err(Error::InsufficientBalance);
        },
    }
    match ledger.move_untaxed(pool.custody, staker, rec.amount) {
        Ok(()) => {},
        Err(_) => {
            proof {
                assert(false);
            }
            return Err(Error::InsufficientBalance);
        },
    }
    *record = None;
    Ok(rewards)
}

/// Accrued rewards are never negative.
pub proof fn lemma_rewards_nonneg(amount: u64, rate: u64, elapsed: u64)
    ensures
        accrued_amount(amount, rate, elapsed) >= 0,
{
    lemma_mul_nonnegative(amount as int, rate as int);
    lemma_mul_nonnegative(amount * rate, elapsed as int);
    lemma_div_pos_is_pos(amount * rate * elapsed, (RATE_DENOMINATOR * SECONDS_PER_DAY) as int);
}

/// No time elapsed, no rewards.
pub proof fn lemma_rewards_zero_elapsed(amount: u64, rate: u64)
    ensures
        accrued_amount(amount, rate, 0) == 0,
{
}

/// Doubling the elapsed time doubles the rewards, up to one unit of
/// integer rounding.
pub proof fn lemma_rewards_linear_elapsed(amount: u64, rate: u64, elapsed: u64, doubled: u64)
    requires
        doubled == 2 * elapsed,
    ensures
        2 * accrued_amount(amount, rate, elapsed) <= accrued_amount(amount, rate, doubled),
        accrued_amount(amount, rate, doubled) <= 2 * accrued_amount(amount, rate, elapsed) + 1,
{
    let x = amount * rate * elapsed;
    assert(amount * rate * doubled == 2 * x) by (nonlinear_arith)
        requires
            doubled == 2 * elapsed,
            x == amount * rate * elapsed,
    ;
    lemma_mul_nonnegative(amount as int, rate as int);
    lemma_mul_nonnegative(amount * rate, elapsed as int);
    lemma_div_double(x, (RATE_DENOMINATOR * SECONDS_PER_DAY) as int);
}

/// Doubling the staked amount doubles the rewards, up to one unit of
/// integer rounding.
pub proof fn lemma_rewards_linear_amount(amount: u64, doubled: u64, rate: u64, elapsed: u64)
    requires
        doubled == 2 * amount,
    ensures
        2 * accrued_amount(amount, rate, elapsed) <= accrued_amount(doubled, rate, elapsed),
        accrued_amount(doubled, rate, elapsed) <= 2 * accrued_amount(amount, rate, elapsed) + 1,
{
    let x = amount * rate * elapsed;
    assert(doubled * rate * elapsed == 2 * x) by (nonlinear_arith)
        requires
            doubled == 2 * amount,
            x == amount * rate * elapsed,
    ;
    lemma_mul_nonnegative(amount as int, rate as int);
    lemma_mul_nonnegative(amount * rate, elapsed as int);
    lemma_div_double(x, (RATE_DENOMINATOR * SECONDS_PER_DAY) as int);
}

} // verus!
