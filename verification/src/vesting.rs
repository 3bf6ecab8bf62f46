use vstd::prelude::*;
use crate::errors::Error;
use crate::ledger::{moved_balances, Ledger};
use crate::math::{lemma_muldiv_le, lemma_muldiv_mono};

verus! {

/// A vesting grant.  `total_amount` vests linearly over `duration`
/// seconds from `start_time`; nothing is claimable before the optional
/// cliff has passed.  Claims monotonically raise `claimed_amount`; the
/// grant is never deleted and is exhausted once
/// `claimed_amount == total_amount`.
#[derive(Clone, Copy, Debug, PartialEq, Eq)]
pub struct VestingInfo {
    /// Account credited by claims against this grant.
    pub beneficiary: usize,
    pub total_amount: u64,
    pub claimed_amount: u64,
    pub start_time: u64,
    /// Vesting duration in seconds; always positive.
    pub duration: u64,
    /// Seconds after `start_time` during which nothing is claimable;
    /// `None` means no cliff.
    pub cliff_period: Option<u64>,
}

/// The grant's cliff, with `None` read as 0.
pub open spec fn cliff_of(g: VestingInfo) -> int {
    match g.cliff_period {
        Some(c) => c as int,
        None => 0,
    }
}

/// Amount vested by `now`: zero before the cliff, then linear in the
/// elapsed time and capped at `total_amount` once `duration` has passed.
pub open spec fn vested_amount(g: VestingInfo, now: u64) -> int {
    if (now as int) < g.start_time + cliff_of(g) {
        0
    } else {
        let elapsed = if now - g.start_time <= g.duration {
            now - g.start_time
        } else {
            g.duration as int
        };
        g.total_amount * elapsed / (g.duration as int)
    }
}

/// Amount claimable at `now`: the vested amount less what was already
/// claimed, clamped at zero.
pub open spec fn claimable_amount(g: VestingInfo, now: u64) -> int {
    if vested_amount(g, now) > g.claimed_amount {
        vested_amount(g, now) - g.claimed_amount
    } else {
        0
    }
}

/// The grant's outstanding (not yet claimed) amount.
pub open spec fn unclaimed(g: VestingInfo) -> int {
    g.total_amount - g.claimed_amount
}

/// Full description of what `claim` did.
pub open spec fn claim_post(
    pre_g: VestingInfo,
    post_g: VestingInfo,
    pre_l: Ledger,
    post_l: Ledger,
    reserve: int,
    now: u64,
    r: Result<u64, Error>,
) -> bool {
    let c = claimable_amount(pre_g, now);
    match r {
        Ok(paid) => {
            &&& c > 0
            &&& pre_l.balances@[reserve] >= c
            &&& paid == c
            &&& post_g == (VestingInfo {
                claimed_amount: (pre_g.claimed_amount + c) as u64,
                ..pre_g
            })
            &&& post_l.balances@ == moved_balances(
                pre_l.balances@,
                reserve,
                pre_g.beneficiary as int,
                paid,
            )
            &&& (forall|a: int|
                0 <= a < pre_l.balances@.len() && a != reserve && a != pre_g.beneficiary
                    ==> post_l.balances@[a] == pre_l.balances@[a])
            &&& (pre_g.beneficiary != reserve ==> post_l.balances@[pre_g.beneficiary as int]
                == pre_l.balances@[pre_g.beneficiary as int] + paid)
            &&& (pre_g.beneficiary != reserve ==> post_l.balances@[reserve]
                == pre_l.balances@[reserve] - paid)
            &&& post_l.issued == pre_l.issued
            &&& Ledger::config_unchanged(pre_l, post_l)
        },
        Err(e) => {
            &&& post_g == pre_g
            &&& post_l == pre_l
            &&& if c == 0 {
                e == Error::NoRewards
            } else {
                e == Error::InsufficientBalance && pre_l.balances@[reserve] < c
            }
        },
    }
}

impl VestingInfo {
    /// Well-formedness: never over-claimed, and a positive duration.
    pub open spec fn wf(self) -> bool {
        &&& self.claimed_amount <= self.total_amount
        &&& self.duration > 0
    }
}

/// Amount claimable from `g` at time `now`; a pure read.
pub fn claimable(g: &VestingInfo, now: u64) -> (r: u64)
    requires
        g.wf(),
    ensures
        r == claimable_amount(*g, now),
        r <= g.total_amount - g.claimed_amount,
{
    proof {
        lemma_claimable_bounded(*g, now);
    }
    if now < g.start_time {
        return 0;
    }
    let since = now - g.start_time;
    let cliff = match g.cliff_period {
        Some(c) => c,
        None => 0,
    };
    if since < cliff {
        return 0;
    }
    let elapsed: u64 = if since <= g.duration {
        since
    } else {
        g.duration
    };
    proof {
        assert((g.total_amount as int) * (elapsed as int) <= (u64::MAX as int) * (u64::MAX as int))
            by (nonlinear_arith)
            requires
                g.total_amount <= u64::MAX,
                elapsed <= u64::MAX,
        ;
        lemma_muldiv_le(g.total_amount as int, elapsed as int, g.duration as int);
    }
    let vested128: u128 = (g.total_amount as u128) * (elapsed as u128) / (g.duration as u128);
    let vested: u64 = vested128 as u64;
    if vested > g.claimed_amount {
        vested - g.claimed_amount
    } else {
        0
    }
}

/// Claim everything claimable at `now`: raises `claimed_amount` by the
/// claimable amount and credits it, untaxed, from the `reserve` account
/// to the grant's beneficiary.  Fails with `NoRewards` when nothing is
/// claimable — in particular, immediately after a claim at the same
/// `now` — and with `InsufficientBalance` when the reserve cannot cover
/// the claim.
pub fn claim(g: &mut VestingInfo, ledger: &mut Ledger, reserve: usize, now: u64) -> (r: Result<
    u64,
    Error,
>)
    requires
        old(g).wf(),
        old(ledger).wf(),
        reserve < old(ledger).balances@.len(),
        old(g).beneficiary < old(ledger).balances@.len(),
    ensures
        final(g).wf(),
        final(ledger).wf(),
        final(ledger).balances@.len() == old(ledger).balances@.len(),
        claim_post(*old(g), *final(g), *old(ledger), *final(ledger), reserve as int, now, r),
{
    let c = claimable(g, now);
    if c == 0 {
        return Err(Error::NoRewards);
    }
    match ledger.move_untaxed(reserve, g.beneficiary, c) {
        Ok(()) => {
            g.claimed_amount = g.claimed_amount + c;
            Ok(c)
        },
        Err(e) => Err(e),
    }
}

/// The claimable amount never exceeds the grant's outstanding amount.
pub proof fn lemma_claimable_bounded(g: VestingInfo, now: u64)
    requires
        g.wf(),
    ensures
        0 <= claimable_amount(g, now) <= g.total_amount - g.claimed_amount,
{
    if (now as int) < g.start_time + cliff_of(g) {
    } else {
        let elapsed = if now - g.start_time <= g.duration {
            now - g.start_time
        } else {
            g.duration as int
        };
        lemma_muldiv_le(g.total_amount as int, elapsed, g.duration as int);
    }
}

/// The claimable amount is non-decreasing in `now`.
pub proof fn lemma_claimable_monotonic(g: VestingInfo, n1: u64, n2: u64)
    requires
        g.wf(),
        n1 <= n2,
    ensures
        claimable_amount(g, n1) <= claimable_amount(g, n2),
{
    lemma_claimable_bounded(g, n2);
    if (n1 as int) >= g.start_time + cliff_of(g) {
        let e1 = if n1 - g.start_time <= g.duration {
            n1 - g.start_time
        } else {
            g.duration as int
        };
        let e2 = if n2 - g.start_time <= g.duration {
            n2 - g.start_time
        } else {
            g.duration as int
        };
        lemma_muldiv_mono(g.total_amount as int, e1, e2, g.duration as int);
    }
}

/// Claiming is idempotent at a fixed instant: a claim consumes the whole
/// claimable amount, so immediately afterwards nothing more is claimable
/// at the same `now`.
pub proof fn lemma_claim_idempotent(g: VestingInfo, now: u64)
    requires
        g.wf(),
        claimable_amount(g, now) > 0,
    ensures
        ({
            let g2 = VestingInfo {
                claimed_amount: (g.claimed_amount + claimable_amount(g, now)) as u64,
                ..g
            };
            claimable_amount(g2, now) == 0
        }),
{
    lemma_claimable_bounded(g, now);
}

} // verus!
