use vstd::prelude::*;
use crate::bridge::{bridge_in_post, bridge_out_post, BridgeGateway, BridgeMessage, ProofStatus};
use crate::errors::Error;
use crate::ledger::{transfer_post, burn_post, Ledger, TransferEvent};
use crate::math::lemma_sum_pair;
use crate::staking::{
    claim_rewards_post, lemma_stake_total_elem, lemma_stake_total_push, lemma_stake_total_update,
    stake_post, stake_total, unstake_post, StakeInfo, StakingPool,
};
use crate::vesting::{claim_post, claimable_amount, lemma_claimable_bounded, unclaimed, VestingInfo};

verus! {

/// Total supply fixed at genesis, in base units.
pub const INITIAL_SUPPLY: u64 = 1_000_000_000;

/// Allocation to the liquidity/treasury account: 40%.
pub const LIQUIDITY_ALLOCATION: u64 = 400_000_000;

/// Allocation to the staking rewards reserve: 25%.
pub const STAKING_ALLOCATION: u64 = 250_000_000;

/// Allocation vested to the development wallet: 15%.
pub const DEVELOPMENT_ALLOCATION: u64 = 150_000_000;

/// Allocation vested to the marketing wallet: 10%.
pub const MARKETING_ALLOCATION: u64 = 100_000_000;

/// Allocation vested to the team wallet: 10%.
pub const TEAM_ALLOCATION: u64 = 100_000_000;

/// Team vesting duration: two years of seconds.
pub const TEAM_VESTING_DURATION: u64 = 63_072_000;

/// Team cliff: one year of seconds.
pub const TEAM_CLIFF_PERIOD: u64 = 31_536_000;

/// Development vesting duration: two years of seconds.
pub const DEVELOPMENT_VESTING_DURATION: u64 = 63_072_000;

/// Marketing vesting period: 90 days of seconds.
pub const MARKETING_VESTING_PERIOD: u64 = 7_776_000;

/// Per-transfer cap.
pub const MAX_TRANSFER_AMOUNT: u64 = 1_000_000;

/// Transfer tax, in whole percent.
pub const TRANSFER_TAX_RATE: u64 = 2;

/// Minimum stake, in token units.
pub const MIN_STAKE: u64 = 1000;

/// Staking reward rate: 10 per mille per day, i.e. 1% daily.
pub const DAILY_REWARD_RATE_PER_MILLE: u64 = 10;

/// Account receiving the liquidity allocation and the transfer tax.
pub const TREASURY_ACCOUNT: usize = 0;

/// Reserve the staking rewards are paid from.
pub const STAKING_RESERVE_ACCOUNT: usize = 1;

/// Beneficiary of the development grant.
pub const DEVELOPMENT_ACCOUNT: usize = 2;

/// Beneficiary of the marketing grant.
pub const MARKETING_ACCOUNT: usize = 3;

/// Beneficiary of the team grant.
pub const TEAM_ACCOUNT: usize = 4;

/// Custody pool holding all staked tokens.
pub const STAKE_CUSTODY_ACCOUNT: usize = 5;

/// Custody pool holding the not-yet-claimed vested allocations.
pub const VESTING_RESERVE_ACCOUNT: usize = 6;

/// First account id free for ordinary wallets.
pub const FIRST_USER_ACCOUNT: usize = 7;

/// Instantiation message from the adapter: token metadata and the
/// chain-native labels of the designated wallets.  The core keeps it as
/// metadata; mapping the labels onto account ids is the adapter's job.
#[derive(Debug, PartialEq, Eq)]
pub struct InstantiateMsg {
    pub name: String,
    pub symbol: String,
    pub decimals: u8,
    pub treasury_wallet: String,
    pub development_wallet: String,
    pub marketing_wallet: String,
    pub team_wallet: String,
}

/// Per-deployment tuning, passed at instantiation: the allocation split,
/// transfer limits and tax, staking parameters, vesting schedules and
/// the chain id of the hosting ledger.
#[derive(Clone, Copy, Debug, PartialEq, Eq, Structural)]
pub struct TokenConfig {
    pub total_supply: u64,
    pub liquidity_allocation: u64,
    pub staking_allocation: u64,
    pub development_allocation: u64,
    pub marketing_allocation: u64,
    pub team_allocation: u64,
    pub max_transfer: u64,
    pub tax_rate_percent: u64,
    pub min_stake: u64,
    pub daily_rate_per_mille: u64,
    pub team_vesting_duration: u64,
    pub team_cliff_period: u64,
    pub development_vesting_duration: u64,
    pub marketing_vesting_period: u64,
    pub chain_id: u64,
}

impl TokenConfig {
    /// Well-formedness: the five allocations split the total supply
    /// exactly, the tax rate is a percentage, and every vesting
    /// schedule has a positive duration.
    pub open spec fn wf(self) -> bool {
        &&& self.liquidity_allocation + self.staking_allocation + self.development_allocation
            + self.marketing_allocation + self.team_allocation == self.total_supply
        &&& self.tax_rate_percent <= 100
        &&& self.team_vesting_duration > 0
        &&& self.development_vesting_duration > 0
        &&& self.marketing_vesting_period > 0
    }

    /// The standard deployment: one billion units split 40/25/15/10/10,
    /// a 2% transfer tax, and the documented vesting schedules.
    pub fn standard(chain_id: u64) -> (r: TokenConfig)
        ensures
            r.wf(),
            r == (TokenConfig {
                total_supply: INITIAL_SUPPLY,
                liquidity_allocation: LIQUIDITY_ALLOCATION,
                staking_allocation: STAKING_ALLOCATION,
                development_allocation: DEVELOPMENT_ALLOCATION,
                marketing_allocation: MARKETING_ALLOCATION,
                team_allocation: TEAM_ALLOCATION,
                max_transfer: MAX_TRANSFER_AMOUNT,
                tax_rate_percent: TRANSFER_TAX_RATE,
                min_stake: MIN_STAKE,
                daily_rate_per_mille: DAILY_REWARD_RATE_PER_MILLE,
                team_vesting_duration: TEAM_VESTING_DURATION,
                team_cliff_period: TEAM_CLIFF_PERIOD,
                development_vesting_duration: DEVELOPMENT_VESTING_DURATION,
                marketing_vesting_period: MARKETING_VESTING_PERIOD,
                chain_id,
            }),
    {
        TokenConfig {
            total_supply: INITIAL_SUPPLY,
            liquidity_allocation: LIQUIDITY_ALLOCATION,
            staking_allocation: STAKING_ALLOCATION,
            development_allocation: DEVELOPMENT_ALLOCATION,
            marketing_allocation: MARKETING_ALLOCATION,
            team_allocation: TEAM_ALLOCATION,
            max_transfer: MAX_TRANSFER_AMOUNT,
            tax_rate_percent: TRANSFER_TAX_RATE,
            min_stake: MIN_STAKE,
            daily_rate_per_mille: DAILY_REWARD_RATE_PER_MILLE,
            team_vesting_duration: TEAM_VESTING_DURATION,
            team_cliff_period: TEAM_CLIFF_PERIOD,
            development_vesting_duration: DEVELOPMENT_VESTING_DURATION,
            marketing_vesting_period: MARKETING_VESTING_PERIOD,
            chain_id,
        }
    }
}

/// The whole token system of one hosting ledger: the balance ledger, the
/// staking pool and per-account stake records, the three vesting grants,
/// and the bridge gateway.
pub struct TokenState {
    /// Token metadata as supplied at instantiation.
    pub metadata: InstantiateMsg,
    pub ledger: Ledger,
    pub pool: StakingPool,
    pub gateway: BridgeGateway,
    pub team_grant: VestingInfo,
    pub development_grant: VestingInfo,
    pub marketing_grant: VestingInfo,
    /// Stake record of each account, indexed like `ledger.balances`.
    pub stakes: Vec<Option<StakeInfo>>,
}

/// Accounts an authenticated caller may act from: any account except
/// the three custody pools, which no key controls.
pub open spec fn wallet_account(a: int) -> bool {
    &&& a != STAKING_RESERVE_ACCOUNT as int
    &&& a != STAKE_CUSTODY_ACCOUNT as int
    &&& a != VESTING_RESERVE_ACCOUNT as int
}

impl TokenState {
    /// System-wide well-formedness: the ledger conserves supply, the
    /// pool and grants point at the designated accounts, every stake
    /// record is internally consistent, the stake custody covers the
    /// total staked, and the vesting reserve covers every grant's
    /// outstanding amount.
    pub open spec fn wf(self) -> bool {
        &&& self.ledger.wf()
        &&& self.ledger.balances@.len() >= FIRST_USER_ACCOUNT as int
        &&& self.ledger.tax_recipient == TREASURY_ACCOUNT
        &&& self.stakes@.len() == self.ledger.balances@.len()
        &&& self.pool.custody == STAKE_CUSTODY_ACCOUNT
        &&& self.pool.rewards_reserve == STAKING_RESERVE_ACCOUNT
        &&& self.gateway.wf()
        &&& self.team_grant.wf()
        &&& self.team_grant.beneficiary == TEAM_ACCOUNT
        &&& self.development_grant.wf()
        &&& self.development_grant.beneficiary == DEVELOPMENT_ACCOUNT
        &&& self.marketing_grant.wf()
        &&& self.marketing_grant.beneficiary == MARKETING_ACCOUNT
        &&& (forall|i: int|
            0 <= i < self.stakes@.len() ==> (#[trigger] self.stakes@[i] matches Some(r0)
                ==> r0.wf()))
        &&& self.ledger.balances@[STAKE_CUSTODY_ACCOUNT as int] >= stake_total(self.stakes@)
        &&& self.ledger.balances@[VESTING_RESERVE_ACCOUNT as int] >= unclaimed(self.team_grant)
            + unclaimed(self.development_grant) + unclaimed(self.marketing_grant)
    }

    /// Number of accounts the ledger tracks.
    pub open spec fn accounts_spec(self) -> int {
        self.ledger.balances@.len() as int
    }
}

/// Everything outside the ledger is untouched.
pub open spec fn frame_non_ledger(pre: TokenState, post: TokenState) -> bool {
    &&& post.metadata == pre.metadata
    &&& post.pool == pre.pool
    &&& post.gateway.chain_id == pre.gateway.chain_id
    &&& post.gateway.next_sequence == pre.gateway.next_sequence
    &&& post.gateway.consumed@ == pre.gateway.consumed@
    &&& post.team_grant == pre.team_grant
    &&& post.development_grant == pre.development_grant
    &&& post.marketing_grant == pre.marketing_grant
    &&& post.stakes@ == pre.stakes@
}

/// What `TokenState::transfer` did: exactly a ledger transfer, with
/// everything else untouched.
pub open spec fn token_transfer_post(
    pre: TokenState,
    post: TokenState,
    sender: int,
    recipient: int,
    amount: u64,
    r: Result<TransferEvent, Error>,
) -> bool {
    &&& transfer_post(pre.ledger, post.ledger, sender, recipient, amount, r)
    &&& frame_non_ledger(pre, post)
}

/// What `TokenState::burn` did: exactly a ledger burn, with everything
/// else untouched.
pub open spec fn token_burn_post(
    pre: TokenState,
    post: TokenState,
    sender: int,
    amount: u64,
    r: Result<(), Error>,
) -> bool {
    &&& burn_post(pre.ledger, post.ledger, sender, amount, r)
    &&& frame_non_ledger(pre, post)
}

impl TokenState {
    /// Pure read of an account's balance; never fails.
    pub fn balance_of(&self, account: usize) -> (r: u64)
        ensures
            r == self.ledger.balance_spec(account as int),
    {
        self.ledger.balance_of(account)
    }

    /// Pause or resume transfers and outbound bridging.
    pub fn set_paused(&mut self, paused: bool)
        requires
            old(self).wf(),
        ensures
            final(self).wf(),
            final(self).ledger == (Ledger { paused, ..old(self).ledger }),
            frame_non_ledger(*old(self), *final(self)),
    {
        self.ledger.set_paused(paused);
    }

    /// Register a fresh wallet account with zero balance and no stake
    /// record; returns its id.
    pub fn add_account(&mut self) -> (r: usize)
        requires
            old(self).wf(),
        ensures
            final(self).wf(),
            r == old(self).accounts_spec(),
            final(self).accounts_spec() == old(self).accounts_spec() + 1,
            final(self).ledger.balances@ == old(self).ledger.balances@.push(0),
            final(self).stakes@ == old(self).stakes@.push(None),
            final(self).ledger.issued == old(self).ledger.issued,
            Ledger::config_unchanged(old(self).ledger, final(self).ledger),
            final(self).metadata == old(self).metadata,
            final(self).pool == old(self).pool,
            final(self).gateway.chain_id == old(self).gateway.chain_id,
            final(self).gateway.next_sequence == old(self).gateway.next_sequence,
            final(self).gateway.consumed@ == old(self).gateway.consumed@,
            final(self).team_grant == old(self).team_grant,
            final(self).development_grant == old(self).development_grant,
            final(self).marketing_grant == old(self).marketing_grant,
    {
        proof {
            lemma_stake_total_push(self.stakes@, None);
        }
        let r = self.ledger.add_account();
        self.stakes.push(None);
        r
    }

    /// Taxed transfer between two accounts, as the ledger defines it.
    /// The sender must be a wallet account: no key controls the custody
    /// pools, so nothing is ever debited from them here.
    pub fn transfer(&mut self, sender: usize, recipient: usize, amount: u64) -> (r: Result<
        TransferEvent,
        Error,
    >)
        requires
            old(self).wf(),
            sender < old(self).accounts_spec(),
            recipient < old(self).accounts_spec(),
            wallet_account(sender as int),
        ensures
            final(self).wf(),
            final(self).accounts_spec() == old(self).accounts_spec(),
            token_transfer_post(
                *old(self),
                *final(self),
                sender as int,
                recipient as int,
                amount,
                r,
            ),
    {
        self.ledger.transfer(sender, recipient, amount)
    }

    /// Burn `amount` from a wallet account, lowering issuance.
    pub fn burn(&mut self, sender: usize, amount: u64) -> (r: Result<(), Error>)
        requires
            old(self).wf(),
            sender < old(self).accounts_spec(),
            wallet_account(sender as int),
        ensures
            final(self).wf(),
            final(self).accounts_spec() == old(self).accounts_spec(),
            token_burn_post(*old(self), *final(self), sender as int, amount, r),
    {
        self.ledger.burn(sender, amount)
    }

    /// Stake `amount` of the sender's free balance, moving it into the
    /// stake custody pool.  A first stake creates the record at `now`; a
    /// further stake only raises its amount.
    pub fn stake(&mut self, sender: usize, amount: u64, now: u64) -> (r: Result<(), Error>)
        requires
            old(self).wf(),
            sender < old(self).accounts_spec(),
            wallet_account(sender as int),
        ensures
            final(self).wf(),
            final(self).accounts_spec() == old(self).accounts_spec(),
            token_stake_post(*old(self), *final(self), sender as int, amount, now, r),
    {
        let mut rec: Option<StakeInfo> = self.stakes[sender];
        proof {
            lemma_stake_total_elem(self.stakes@, sender as int);
            lemma_sum_pair(self.ledger.balances@, sender as int, STAKE_CUSTODY_ACCOUNT as int);
        }
        let r = crate::staking::stake(&self.pool, &mut self.ledger, &mut rec, sender, amount, now);
        proof {
            lemma_stake_total_update(self.stakes@, sender as int, rec);
        }
        self.stakes.set(sender, rec);
        r
    }

    /// Claim the staking rewards accrued since the last claim; pays them
    /// from the staking reserve.  An account with no stake record has
    /// nothing accrued: `NoRewards`.
    pub fn claim_rewards(&mut self, sender: usize, now: u64) -> (r: Result<u64, Error>)
        requires
            old(self).wf(),
            sender < old(self).accounts_spec(),
            wallet_account(sender as int),
            (old(self).stakes@[sender as int] matches Some(rec) ==> {
                &&& now >= rec.last_claim_time
                &&& rec.amount * old(self).pool.daily_rate_per_mille * (now - rec.last_claim_time)
                    <= u128::MAX
            }),
        ensures
            final(self).wf(),
            final(self).accounts_spec() == old(self).accounts_spec(),
            token_claim_rewards_post(*old(self), *final(self), sender as int, now, r),
    {
        let rec_opt: Option<StakeInfo> = self.stakes[sender];
        match rec_opt {
            None => Err(Error::NoRewards),
            Some(mut rec) => {
                let r = crate::staking::claim_rewards(
                    &self.pool,
                    &mut self.ledger,
                    &mut rec,
                    sender,
                    now,
                );
                proof {
                    lemma_stake_total_update(self.stakes@, sender as int, Some(rec));
                }
                self.stakes.set(sender, Some(rec));
                r
            },
        }
    }

    /// Unstake everything: settles accrued rewards (zero is not an
    /// error), returns the staked amount from custody, and removes the
    /// record.  An account with no stake record has nothing to unstake:
    /// `NoRewards`.
    pub fn unstake(&mut self, sender: usize, now: u64) -> (r: Result<u64, Error>)
        requires
            old(self).wf(),
            sender < old(self).accounts_spec(),
            wallet_account(sender as int),
            (old(self).stakes@[sender as int] matches Some(rec) ==> {
                &&& now >= rec.last_claim_time
                &&& rec.amount * old(self).pool.daily_rate_per_mille * (now - rec.last_claim_time)
                    <= u128::MAX
            }),
        ensures
            final(self).wf(),
            final(self).accounts_spec() == old(self).accounts_spec(),
            token_unstake_post(*old(self), *final(self), sender as int, now, r),
    {
        let rec_opt: Option<StakeInfo> = self.stakes[sender];
        match rec_opt {
            None => Err(Error::NoRewards),
            Some(rec) => {
                let mut slot: Option<StakeInfo> = Some(rec);
                proof {
                    lemma_stake_total_elem(self.stakes@, sender as int);
                }
                let r = crate::staking::unstake(
                    &self.pool,
                    &mut self.ledger,
                    &mut slot,
                    sender,
                    now,
                );
                proof {
                    lemma_stake_total_update(self.stakes@, sender as int, slot);
                }
                self.stakes.set(sender, slot);
                r
            },
        }
    }
}

/// What `TokenState::stake` did: exactly a pool stake against the
/// sender's record, with everything else untouched.
pub open spec fn token_stake_post(
    pre: TokenState,
    post: TokenState,
    sender: int,
    amount: u64,
    now: u64,
    r: Result<(), Error>,
) -> bool {
    &&& stake_post(
        pre.pool,
        pre.stakes@[sender],
        post.stakes@[sender],
        pre.ledger,
        post.ledger,
        sender,
        amount,
        now,
        r,
    )
    &&& post.stakes@ == pre.stakes@.update(sender, post.stakes@[sender])
    &&& frame_non_stake(pre, post)
}

/// What `TokenState::claim_rewards` did.
pub open spec fn token_claim_rewards_post(
    pre: TokenState,
    post: TokenState,
    sender: int,
    now: u64,
    r: Result<u64, Error>,
) -> bool {
    &&& match pre.stakes@[sender] {
        Some(pre_rec) => {
            &&& (post.stakes@[sender] matches Some(post_rec) && claim_rewards_post(
                pre.pool,
                pre_rec,
                post_rec,
                pre.ledger,
                post.ledger,
                sender,
                now,
                r,
            ))
            &&& post.stakes@ == pre.stakes@.update(sender, post.stakes@[sender])
        },
        None => {
            &&& r == Err::<u64, Error>(Error::NoRewards)
            &&& post.stakes@ == pre.stakes@
            &&& post.ledger == pre.ledger
        },
    }
    &&& frame_non_stake(pre, post)
}

/// What `TokenState::unstake` did.
pub open spec fn token_unstake_post(
    pre: TokenState,
    post: TokenState,
    sender: int,
    now: u64,
    r: Result<u64, Error>,
) -> bool {
    &&& match pre.stakes@[sender] {
        Some(pre_rec) => {
            &&& unstake_post(
                pre.pool,
                pre_rec,
                post.stakes@[sender],
                pre.ledger,
                post.ledger,
                sender,
                now,
                r,
            )
            &&& post.stakes@ == pre.stakes@.update(sender, post.stakes@[sender])
        },
        None => {
            &&& r == Err::<u64, Error>(Error::NoRewards)
            &&& post.stakes@ == pre.stakes@
            &&& post.ledger == pre.ledger
        },
    }
    &&& frame_non_stake(pre, post)
}

/// Everything but the ledger and the stake records is untouched.
pub open spec fn frame_non_stake(pre: TokenState, post: TokenState) -> bool {
    &&& post.metadata == pre.metadata
    &&& post.pool == pre.pool
    &&& post.gateway.chain_id == pre.gateway.chain_id
    &&& post.gateway.next_sequence == pre.gateway.next_sequence
    &&& post.gateway.consumed@ == pre.gateway.consumed@
    &&& post.team_grant == pre.team_grant
    &&& post.development_grant == pre.development_grant
    &&& post.marketing_grant == pre.marketing_grant
}

/// Which vesting grant an operation addresses.
#[derive(Clone, Copy, Debug, PartialEq, Eq, Structural)]
pub enum VestingCategory {
    Team,
    Development,
    Marketing,
}

/// The grant a category names.
pub open spec fn grant_of(state: TokenState, category: VestingCategory) -> VestingInfo {
    match category {
        VestingCategory::Team => state.team_grant,
        VestingCategory::Development => state.development_grant,
        VestingCategory::Marketing => state.marketing_grant,
    }
}

/// What `TokenState::claim_vested` did: exactly a vesting claim against
/// the named grant out of the vesting reserve, the other two grants and
/// everything else untouched.
pub open spec fn token_claim_vested_post(
    pre: TokenState,
    post: TokenState,
    category: VestingCategory,
    now: u64,
    r: Result<u64, Error>,
) -> bool {
    &&& claim_post(
        grant_of(pre, category),
        grant_of(post, category),
        pre.ledger,
        post.ledger,
        VESTING_RESERVE_ACCOUNT as int,
        now,
        r,
    )
    &&& (category != VestingCategory::Team ==> post.team_grant == pre.team_grant)
    &&& (category != VestingCategory::Development ==> post.development_grant
        == pre.development_grant)
    &&& (category != VestingCategory::Marketing ==> post.marketing_grant == pre.marketing_grant)
    &&& post.metadata == pre.metadata
    &&& post.pool == pre.pool
    &&& post.gateway.chain_id == pre.gateway.chain_id
    &&& post.gateway.next_sequence == pre.gateway.next_sequence
    &&& post.gateway.consumed@ == pre.gateway.consumed@
    &&& post.stakes@ == pre.stakes@
}

/// What `TokenState::bridge_out` did: exactly a gateway outbound leg,
/// with everything else untouched.
pub open spec fn token_bridge_out_post(
    pre: TokenState,
    post: TokenState,
    sender: int,
    amount: u64,
    destination_chain_id: u64,
    recipient: usize,
    nonce: u64,
    r: Result<BridgeMessage, Error>,
) -> bool {
    &&& bridge_out_post(
        pre.gateway,
        post.gateway,
        pre.ledger,
        post.ledger,
        sender,
        amount,
        destination_chain_id,
        recipient,
        nonce,
        r,
    )
    &&& post.metadata == pre.metadata
    &&& post.pool == pre.pool
    &&& post.team_grant == pre.team_grant
    &&& post.development_grant == pre.development_grant
    &&& post.marketing_grant == pre.marketing_grant
    &&& post.stakes@ == pre.stakes@
}

/// What `TokenState::bridge_in` did: exactly a gateway inbound leg, with
/// everything else untouched.
pub open spec fn token_bridge_in_post(
    pre: TokenState,
    post: TokenState,
    msg: BridgeMessage,
    proof_status: ProofStatus,
    r: Result<(), Error>,
) -> bool {
    &&& bridge_in_post(pre.gateway, post.gateway, pre.ledger, post.ledger, msg, proof_status, r)
    &&& post.metadata == pre.metadata
    &&& post.pool == pre.pool
    &&& post.team_grant == pre.team_grant
    &&& post.development_grant == pre.development_grant
    &&& post.marketing_grant == pre.marketing_grant
    &&& post.stakes@ == pre.stakes@
}

impl TokenState {
    /// Claim everything claimable from the category's grant at `now`,
    /// credited untaxed from the vesting reserve to the grant's
    /// beneficiary.  The reserve always covers the outstanding grants,
    /// so the claim succeeds exactly when something is claimable.
    pub fn claim_vested(&mut self, category: VestingCategory, now: u64) -> (r: Result<u64, Error>)
        requires
            old(self).wf(),
        ensures
            final(self).wf(),
            final(self).accounts_spec() == old(self).accounts_spec(),
            token_claim_vested_post(*old(self), *final(self), category, now, r),
            r is Ok <==> claimable_amount(grant_of(*old(self), category), now) > 0,
    {
        proof {
            lemma_claimable_bounded(self.team_grant, now);
            lemma_claimable_bounded(self.development_grant, now);
            lemma_claimable_bounded(self.marketing_grant, now);
        }
        match category {
            VestingCategory::Team => crate::vesting::claim(
                &mut self.team_grant,
                &mut self.ledger,
                VESTING_RESERVE_ACCOUNT,
                now,
            ),
            VestingCategory::Development => crate::vesting::claim(
                &mut self.development_grant,
                &mut self.ledger,
                VESTING_RESERVE_ACCOUNT,
                now,
            ),
            VestingCategory::Marketing => crate::vesting::claim(
                &mut self.marketing_grant,
                &mut self.ledger,
                VESTING_RESERVE_ACCOUNT,
                now,
            ),
        }
    }

    /// Outbound bridge transfer: burns the amount from the sender,
    /// allocates the next sequence number, and returns the message for
    /// the adapter to relay to the destination chain.
    pub fn bridge_out(
        &mut self,
        sender: usize,
        amount: u64,
        destination_chain_id: u64,
        recipient: usize,
        nonce: u64,
    ) -> (r: Result<BridgeMessage, Error>)
        requires
            old(self).wf(),
            sender < old(self).accounts_spec(),
            wallet_account(sender as int),
            old(self).gateway.next_sequence < u64::MAX,
        ensures
            final(self).wf(),
            final(self).accounts_spec() == old(self).accounts_spec(),
            token_bridge_out_post(
                *old(self),
                *final(self),
                sender as int,
                amount,
                destination_chain_id,
                recipient,
                nonce,
                r,
            ),
    {
        self.gateway.bridge_out(
            &mut self.ledger,
            sender,
            amount,
            destination_chain_id,
            recipient,
            nonce,
        )
    }

    /// Inbound bridge transfer: consumes a message whose proof the
    /// adapter verified, records its identifier in the replay guard, and
    /// mints its amount to the recipient — all in one state transition.
    pub fn bridge_in(&mut self, msg: &BridgeMessage, proof_status: ProofStatus) -> (r: Result<
        (),
        Error,
    >)
        requires
            old(self).wf(),
            msg.recipient < old(self).accounts_spec(),
            old(self).ledger.issued + msg.amount <= u64::MAX,
        ensures
            final(self).wf(),
            final(self).accounts_spec() == old(self).accounts_spec(),
            token_bridge_in_post(*old(self), *final(self), *msg, proof_status, r),
    {
        self.gateway.bridge_in(&mut self.ledger, msg, proof_status)
    }
}

/// An instruction from the adapter, already authenticated: the adapter
/// has established that the caller controls the `sender` account that
/// `execute` is given alongside.
#[derive(Clone, Copy, Debug, PartialEq, Eq, Structural)]
pub enum ExecuteMsg {
    Transfer { recipient: usize, amount: u64 },
    Burn { amount: u64 },
    Stake { amount: u64 },
    Unstake {},
    ClaimRewards {},
    BridgeTransfer { destination_chain_id: u64, recipient: usize, nonce: u64, amount: u64 },
    ReceiveFromBridge { message: BridgeMessage, proof_status: ProofStatus },
    ClaimTeamTokens {},
    ClaimDevelopmentTokens {},
    ClaimMarketingTokens {},
}

/// What a successful operation returns to the adapter; the
/// `BridgeInitiated` message is the adapter's to relay.
#[derive(Clone, Copy, Debug, PartialEq, Eq, Structural)]
pub enum ExecuteResponse {
    Transferred(TransferEvent),
    Burned(u64),
    Staked(u64),
    Unstaked(u64),
    RewardsClaimed(u64),
    BridgeInitiated(BridgeMessage),
    BridgeCompleted(u64),
    VestedClaimed(u64),
}

/// What `execute` did: for each instruction, exactly the operation it
/// names, with the result wrapped in the matching response.
pub open spec fn execute_post(
    pre: TokenState,
    post: TokenState,
    sender: int,
    msg: ExecuteMsg,
    now: u64,
    r: Result<ExecuteResponse, Error>,
) -> bool {
    match msg {
        ExecuteMsg::Transfer { recipient, amount } => {
            match r {
                Ok(resp) => resp matches ExecuteResponse::Transferred(ev)
                    && token_transfer_post(pre, post, sender, recipient as int, amount, Ok(ev)),
                Err(e) => token_transfer_post(
                    pre,
                    post,
                    sender,
                    recipient as int,
                    amount,
                    Err(e),
                ),
            }
        },
        ExecuteMsg::Burn { amount } => {
            match r {
                Ok(resp) => resp == ExecuteResponse::Burned(amount) && token_burn_post(
                    pre,
                    post,
                    sender,
                    amount,
                    Ok(()),
                ),
                Err(e) => token_burn_post(pre, post, sender, amount, Err(e)),
            }
        },
        ExecuteMsg::Stake { amount } => {
            match r {
                Ok(resp) => resp == ExecuteResponse::Staked(amount) && token_stake_post(
                    pre,
                    post,
                    sender,
                    amount,
                    now,
                    Ok(()),
                ),
                Err(e) => token_stake_post(pre, post, sender, amount, now, Err(e)),
            }
        },
        ExecuteMsg::Unstake {  } => {
            match r {
                Ok(resp) => resp matches ExecuteResponse::Unstaked(rewards)
                    && token_unstake_post(pre, post, sender, now, Ok(rewards)),
                Err(e) => token_unstake_post(pre, post, sender, now, Err(e)),
            }
        },
        ExecuteMsg::ClaimRewards {  } => {
            match r {
                Ok(resp) => resp matches ExecuteResponse::RewardsClaimed(paid)
                    && token_claim_rewards_post(pre, post, sender, now, Ok(paid)),
                Err(e) => token_claim_rewards_post(pre, post, sender, now, Err(e)),
            }
        },
        ExecuteMsg::BridgeTransfer { destination_chain_id, recipient, nonce, amount } => {
            match r {
                Ok(resp) => resp matches ExecuteResponse::BridgeInitiated(m)
                    && token_bridge_out_post(
                    pre,
                    post,
                    sender,
                    amount,
                    destination_chain_id,
                    recipient,
                    nonce,
                    Ok(m),
                ),
                Err(e) => token_bridge_out_post(
                    pre,
                    post,
                    sender,
                    amount,
                    destination_chain_id,
                    recipient,
                    nonce,
                    Err(e),
                ),
            }
        },
        ExecuteMsg::ReceiveFromBridge { message, proof_status } => {
            match r {
                Ok(resp) => resp == ExecuteResponse::BridgeCompleted(message.amount)
                    && token_bridge_in_post(pre, post, message, proof_status, Ok(())),
                Err(e) => token_bridge_in_post(pre, post, message, proof_status, Err(e)),
            }
        },
        ExecuteMsg::ClaimTeamTokens {  } => {
            match r {
                Ok(resp) => resp matches ExecuteResponse::VestedClaimed(c)
                    && token_claim_vested_post(pre, post, VestingCategory::Team, now, Ok(c)),
                Err(e) => token_claim_vested_post(pre, post, VestingCategory::Team, now, Err(e)),
            }
        },
        ExecuteMsg::ClaimDevelopmentTokens {  } => {
            match r {
                Ok(resp) => resp matches ExecuteResponse::VestedClaimed(c)
                    && token_claim_vested_post(
                    pre,
                    post,
                    VestingCategory::Development,
                    now,
                    Ok(c),
                ),
                Err(e) => token_claim_vested_post(
                    pre,
                    post,
                    VestingCategory::Development,
                    now,
                    Err(e),
                ),
            }
        },
        ExecuteMsg::ClaimMarketingTokens {  } => {
            match r {
                Ok(resp) => resp matches ExecuteResponse::VestedClaimed(c)
                    && token_claim_vested_post(pre, post, VestingCategory::Marketing, now, Ok(c)),
                Err(e) => token_claim_vested_post(
                    pre,
                    post,
                    VestingCategory::Marketing,
                    now,
                    Err(e),
                ),
            }
        },
    }
}

/// Entry point for a validated instruction: dispatches to exactly one
/// core operation and reports what it did.  The adapter has
/// authenticated `sender`, mapped chain-native identifiers to account
/// ids, and supplies the host clock as `now`.
pub fn execute(state: &mut TokenState, sender: usize, msg: ExecuteMsg, now: u64) -> (r: Result<
    ExecuteResponse,
    Error,
>)
    requires
        old(state).wf(),
        sender < old(state).accounts_spec(),
        wallet_account(sender as int),
        (msg matches ExecuteMsg::Transfer { recipient, .. } ==> recipient < old(
            state,
        ).accounts_spec()),
        ((msg is Unstake || msg is ClaimRewards) ==> (old(state).stakes@[sender as int] matches Some(
            rec,
        ) ==> {
            &&& now >= rec.last_claim_time
            &&& rec.amount * old(state).pool.daily_rate_per_mille * (now - rec.last_claim_time)
                <= u128::MAX
        })),
        (msg is BridgeTransfer ==> old(state).gateway.next_sequence < u64::MAX),
        (msg matches ExecuteMsg::ReceiveFromBridge { message, .. } ==> {
            &&& message.recipient < old(state).accounts_spec()
            &&& old(state).ledger.issued + message.amount <= u64::MAX
        }),
    ensures
        final(state).wf(),
        final(state).accounts_spec() == old(state).accounts_spec(),
        execute_post(*old(state), *final(state), sender as int, msg, now, r),
{
    match msg {
        ExecuteMsg::Transfer { recipient, amount } => {
            match state.transfer(sender, recipient, amount) {
                Ok(ev) => Ok(ExecuteResponse::Transferred(ev)),
                Err(e) => Err(e),
            }
        },
        ExecuteMsg::Burn { amount } => {
            match state.burn(sender, amount) {
                Ok(()) => Ok(ExecuteResponse::Burned(amount)),
                Err(e) => Err(e),
            }
        },
        ExecuteMsg::Stake { amount } => {
            match state.stake(sender, amount, now) {
                Ok(()) => Ok(ExecuteResponse::Staked(amount)),
                Err(e) => Err(e),
            }
        },
        ExecuteMsg::Unstake {  } => {
            match state.unstake(sender, now) {
                Ok(rewards) => Ok(ExecuteResponse::Unstaked(rewards)),
                Err(e) => Err(e),
            }
        },
        ExecuteMsg::ClaimRewards {  } => {
            match state.claim_rewards(sender, now) {
                Ok(paid) => Ok(ExecuteResponse::RewardsClaimed(paid)),
                Err(e) => Err(e),
            }
        },
        ExecuteMsg::BridgeTransfer { destination_chain_id, recipient, nonce, amount } => {
            match state.bridge_out(sender, amount, destination_chain_id, recipient, nonce) {
                Ok(m) => Ok(ExecuteResponse::BridgeInitiated(m)),
                Err(e) => Err(e),
            }
        },
        ExecuteMsg::ReceiveFromBridge { message, proof_status } => {
            match state.bridge_in(&message, proof_status) {
                Ok(()) => Ok(ExecuteResponse::BridgeCompleted(message.amount)),
                Err(e) => Err(e),
            }
        },
        ExecuteMsg::ClaimTeamTokens {  } => {
            match state.claim_vested(VestingCategory::Team, now) {
                Ok(c) => Ok(ExecuteResponse::VestedClaimed(c)),
                Err(e) => Err(e),
            }
        },
        ExecuteMsg::ClaimDevelopmentTokens {  } => {
            match state.claim_vested(VestingCategory::Development, now) {
                Ok(c) => Ok(ExecuteResponse::VestedClaimed(c)),
                Err(e) => Err(e),
            }
        },
        ExecuteMsg::ClaimMarketingTokens {  } => {
            match state.claim_vested(VestingCategory::Marketing, now) {
                Ok(c) => Ok(ExecuteResponse::VestedClaimed(c)),
                Err(e) => Err(e),
            }
        },
    }
}

/// Instantiate the token system: mints the fixed total supply split into
/// the five allocations — liquidity to the treasury, the staking
/// allocation to the rewards reserve, and the three vested allocations
/// into the vesting reserve — and creates the three grants starting at
/// `now` with zero claimed.
pub fn instantiate(msg: InstantiateMsg, cfg: TokenConfig, now: u64) -> (r: TokenState)
    requires
        cfg.wf(),
    ensures
        r.wf(),
        r.metadata == msg,
        r.ledger.issued == cfg.total_supply,
        r.ledger.balances@.len() == FIRST_USER_ACCOUNT as int,
        r.stakes@.len() == FIRST_USER_ACCOUNT as int,
        r.ledger.balances@[TREASURY_ACCOUNT as int] == cfg.liquidity_allocation,
        r.ledger.balances@[STAKING_RESERVE_ACCOUNT as int] == cfg.staking_allocation,
        r.ledger.balances@[VESTING_RESERVE_ACCOUNT as int] == cfg.development_allocation
            + cfg.marketing_allocation + cfg.team_allocation,
        r.ledger.balances@[DEVELOPMENT_ACCOUNT as int] == 0,
        r.ledger.balances@[MARKETING_ACCOUNT as int] == 0,
        r.ledger.balances@[TEAM_ACCOUNT as int] == 0,
        r.ledger.balances@[STAKE_CUSTODY_ACCOUNT as int] == 0,
        !r.ledger.paused,
        r.ledger.tax_rate_percent == cfg.tax_rate_percent,
        r.ledger.max_transfer == cfg.max_transfer,
        r.team_grant == (VestingInfo {
            beneficiary: TEAM_ACCOUNT,
            total_amount: cfg.team_allocation,
            claimed_amount: 0,
            start_time: now,
            duration: cfg.team_vesting_duration,
            cliff_period: Some(cfg.team_cliff_period),
        }),
        r.development_grant == (VestingInfo {
            beneficiary: DEVELOPMENT_ACCOUNT,
            total_amount: cfg.development_allocation,
            claimed_amount: 0,
            start_time: now,
            duration: cfg.development_vesting_duration,
            cliff_period: None,
        }),
        r.marketing_grant == (VestingInfo {
            beneficiary: MARKETING_ACCOUNT,
            total_amount: cfg.marketing_allocation,
            claimed_amount: 0,
            start_time: now,
            duration: cfg.marketing_vesting_period,
            cliff_period: None,
        }),
        r.gateway.chain_id == cfg.chain_id,
        r.gateway.next_sequence == 0,
        r.gateway.consumed@.len() == 0,
        r.pool == (StakingPool {
            min_stake: cfg.min_stake,
            daily_rate_per_mille: cfg.daily_rate_per_mille,
            custody: STAKE_CUSTODY_ACCOUNT,
            rewards_reserve: STAKING_RESERVE_ACCOUNT,
        }),
        forall|i: int| 0 <= i < r.stakes@.len() ==> r.stakes@[i] is None,
{
    let mut ledger = Ledger::new(
        FIRST_USER_ACCOUNT,
        cfg.tax_rate_percent,
        cfg.max_transfer,
        TREASURY_ACCOUNT,
    );
    ledger.mint(TREASURY_ACCOUNT, cfg.liquidity_allocation);
    ledger.mint(STAKING_RESERVE_ACCOUNT, cfg.staking_allocation);
    let vested_total = cfg.development_allocation + cfg.marketing_allocation
        + cfg.team_allocation;
    ledger.mint(VESTING_RESERVE_ACCOUNT, vested_total);

    let mut stakes: Vec<Option<StakeInfo>> = Vec::new();
    let mut i: usize = 0;
    while i < FIRST_USER_ACCOUNT
        invariant
            i <= FIRST_USER_ACCOUNT,
            stakes@.len() == i,
            forall|j: int| 0 <= j < i ==> stakes@[j] is None,
            stake_total(stakes@) == 0,
        decreases FIRST_USER_ACCOUNT - i,
    {
        proof {
            lemma_stake_total_push(stakes@, None);
        }
        stakes.push(None);
        i = i + 1;
    }

    TokenState {
        metadata: msg,
        ledger,
        pool: StakingPool {
            min_stake: cfg.min_stake,
            daily_rate_per_mille: cfg.daily_rate_per_mille,
            custody: STAKE_CUSTODY_ACCOUNT,
            rewards_reserve: STAKING_RESERVE_ACCOUNT,
        },
        gateway: BridgeGateway::new(cfg.chain_id),
        team_grant: VestingInfo {
            beneficiary: TEAM_ACCOUNT,
            total_amount: cfg.team_allocation,
            claimed_amount: 0,
            start_time: now,
            duration: cfg.team_vesting_duration,
            cliff_period: Some(cfg.team_cliff_period),
        },
        development_grant: VestingInfo {
            beneficiary: DEVELOPMENT_ACCOUNT,
            total_amount: cfg.development_allocation,
            claimed_amount: 0,
            start_time: now,
            duration: cfg.development_vesting_duration,
            cliff_period: None,
        },
        marketing_grant: VestingInfo {
            beneficiary: MARKETING_ACCOUNT,
            total_amount: cfg.marketing_allocation,
            claimed_amount: 0,
            start_time: now,
            duration: cfg.marketing_vesting_period,
            cliff_period: None,
        },
        stakes,
    }
}

/// Conservation at the system level.  Every operation requires and
/// re-establishes well-formedness, and in a well-formed system the
/// ledger's balances — free balances, the custody pools and the
/// reserves included — sum to exactly the issued supply; the stake
/// custody covers the total staked, and the vesting reserve covers the
/// grants' outstanding amounts.
pub proof fn lemma_token_conservation(s: TokenState)
    requires
        s.wf(),
    ensures
        crate::math::sum(s.ledger.balances@) == s.ledger.issued as int,
        s.ledger.balances@[STAKE_CUSTODY_ACCOUNT as int] >= stake_total(s.stakes@),
        s.ledger.balances@[VESTING_RESERVE_ACCOUNT as int] >= unclaimed(s.team_grant) + unclaimed(
            s.development_grant,
        ) + unclaimed(s.marketing_grant),
{
}

} // verus!
