use capy_token::bridge::{BridgeMessage, ProofStatus};
use capy_token::errors::Error;
use capy_token::token::{
    execute, instantiate, ExecuteMsg, ExecuteResponse, InstantiateMsg, TokenConfig, TokenState,
    VestingCategory, INITIAL_SUPPLY, STAKE_CUSTODY_ACCOUNT, STAKING_RESERVE_ACCOUNT, TEAM_ACCOUNT,
    TREASURY_ACCOUNT, VESTING_RESERVE_ACCOUNT,
};
use capy_token::staking::{accrued_rewards, StakeInfo};
use capy_token::vesting::claimable;

fn test_msg() -> InstantiateMsg {
    InstantiateMsg {
        name: String::from("Capy Token"),
        symbol: String::from("CAPY"),
        decimals: 9,
        treasury_wallet: String::from("treasury"),
        development_wallet: String::from("development"),
        marketing_wallet: String::from("marketing"),
        team_wallet: String::from("team"),
    }
}

/// A standard deployment on `chain_id`, instantiated at time 0, with two
/// user wallets registered (ids 7 and 8).
fn fresh_state(chain_id: u64) -> TokenState {
    let mut state = instantiate(test_msg(), TokenConfig::standard(chain_id), 0);
    let a = state.add_account();
    let b = state.add_account();
    assert_eq!(a, 7);
    assert_eq!(b, 8);
    state
}

/// Fund wallet 7 from the treasury; the treasury is its own tax
/// recipient, so the wallet receives the net amount.
fn fund_user(state: &mut TokenState, amount: u64) -> u64 {
    let ev = state.transfer(TREASURY_ACCOUNT, 7, amount).unwrap();
    ev.net
}

#[test]
fn instantiate_splits_allocations() {
    let state = fresh_state(1);
    assert_eq!(state.balance_of(TREASURY_ACCOUNT), 400_000_000);
    assert_eq!(state.balance_of(STAKING_RESERVE_ACCOUNT), 250_000_000);
    assert_eq!(state.balance_of(VESTING_RESERVE_ACCOUNT), 350_000_000);
    assert_eq!(state.balance_of(2), 0);
    assert_eq!(state.balance_of(3), 0);
    assert_eq!(state.balance_of(TEAM_ACCOUNT), 0);
    assert_eq!(state.balance_of(STAKE_CUSTODY_ACCOUNT), 0);
    assert_eq!(state.ledger.issued, INITIAL_SUPPLY);
    assert_eq!(
        400_000_000u64 + 250_000_000 + 150_000_000 + 100_000_000 + 100_000_000,
        INITIAL_SUPPLY
    );
}

#[test]
fn instantiate_sets_grants() {
    let state = fresh_state(1);
    assert_eq!(state.team_grant.total_amount, 100_000_000);
    assert_eq!(state.team_grant.claimed_amount, 0);
    assert_eq!(state.team_grant.duration, 63_072_000);
    assert_eq!(state.team_grant.cliff_period, Some(31_536_000));
    assert_eq!(state.development_grant.total_amount, 150_000_000);
    assert_eq!(state.development_grant.cliff_period, None);
    assert_eq!(state.marketing_grant.total_amount, 100_000_000);
    assert_eq!(state.marketing_grant.duration, 7_776_000);
}

#[test]
fn transfer_applies_tax_exactly() {
    let mut state = fresh_state(1);
    let funded = fund_user(&mut state, 10_000);
    assert_eq!(funded, 9_800);
    let treasury_before = state.balance_of(TREASURY_ACCOUNT);

    let ev = state.transfer(7, 8, 1000).unwrap();
    assert_eq!(ev.amount, 1000);
    assert_eq!(ev.tax, 20);
    assert_eq!(ev.net, 980);
    assert_eq!(state.balance_of(7), 9_800 - 1000);
    assert_eq!(state.balance_of(8), 980);
    assert_eq!(state.balance_of(TREASURY_ACCOUNT), treasury_before + 20);
    assert_eq!(state.ledger.issued, INITIAL_SUPPLY);
}

#[test]
fn transfer_error_cases() {
    let mut state = fresh_state(1);
    fund_user(&mut state, 10_000);
    assert_eq!(state.transfer(7, 8, 0), Err(Error::ZeroAmount));
    assert_eq!(state.transfer(7, 8, 1_000_001), Err(Error::ExceedsMaximum));
    assert_eq!(state.transfer(8, 7, 5_000), Err(Error::InsufficientBalance));
    assert_eq!(state.balance_of(7), 9_800);
    assert_eq!(state.balance_of(8), 0);
}

#[test]
fn transfer_paused_refused() {
    let mut state = fresh_state(1);
    fund_user(&mut state, 10_000);
    state.set_paused(true);
    assert_eq!(state.transfer(7, 8, 100), Err(Error::Paused));
    state.set_paused(false);
    assert!(state.transfer(7, 8, 100).is_ok());
}

#[test]
fn burn_reduces_issuance() {
    let mut state = fresh_state(1);
    fund_user(&mut state, 10_000);
    state.burn(7, 800).unwrap();
    assert_eq!(state.balance_of(7), 9_000);
    assert_eq!(state.ledger.issued, INITIAL_SUPPLY - 800);
    assert_eq!(state.burn(7, 10_000), Err(Error::InsufficientBalance));
}

#[test]
fn vesting_cliff_schedule() {
    let mut state = fresh_state(1);
    let cliff = 31_536_000;
    let duration = 63_072_000;

    assert_eq!(claimable(&state.team_grant, cliff - 1), 0);
    assert_eq!(claimable(&state.team_grant, cliff), 50_000_000);

    let paid = state.claim_vested(VestingCategory::Team, cliff).unwrap();
    assert_eq!(paid, 50_000_000);
    assert_eq!(state.balance_of(TEAM_ACCOUNT), 50_000_000);
    assert_eq!(state.team_grant.claimed_amount, 50_000_000);

    // Idempotent at a fixed instant: a second claim at the same time
    // finds nothing claimable.
    assert_eq!(
        state.claim_vested(VestingCategory::Team, cliff),
        Err(Error::NoRewards)
    );

    assert_eq!(claimable(&state.team_grant, duration), 50_000_000);
    let rest = state.claim_vested(VestingCategory::Team, duration).unwrap();
    assert_eq!(rest, 50_000_000);
    assert_eq!(state.team_grant.claimed_amount, 100_000_000);
    assert_eq!(
        state.claim_vested(VestingCategory::Team, duration + 1_000_000),
        Err(Error::NoRewards)
    );
}

#[test]
fn vesting_claimable_monotonic_concrete() {
    let state = fresh_state(1);
    let g = &state.development_grant;
    let mut last = 0u64;
    for t in [0u64, 1, 6_307_200, 31_536_000, 63_071_999, 63_072_000, 100_000_000] {
        let c = claimable(g, t);
        assert!(c >= last);
        assert!(c <= g.total_amount - g.claimed_amount);
        last = c;
    }
    assert_eq!(claimable(g, 63_072_000), 150_000_000);
}

#[test]
fn vesting_no_cliff_linear() {
    let mut state = fresh_state(1);
    // Marketing: 100M over 90 days, no cliff; one third vested after 30 days.
    let third = 7_776_000 / 3;
    let paid = state
        .claim_vested(VestingCategory::Marketing, third)
        .unwrap();
    assert_eq!(paid, 33_333_333);
    assert_eq!(state.balance_of(3), 33_333_333);
}

#[test]
fn staking_one_day_reward() {
    let mut state = fresh_state(1);
    fund_user(&mut state, 10_000);
    state.stake(7, 1000, 100).unwrap();
    assert_eq!(state.balance_of(7), 8_800);
    assert_eq!(state.balance_of(STAKE_CUSTODY_ACCOUNT), 1000);

    let rewards = state.claim_rewards(7, 100 + 86_400).unwrap();
    assert_eq!(rewards, 10);
    assert_eq!(state.balance_of(7), 8_810);
    assert_eq!(
        state.balance_of(STAKING_RESERVE_ACCOUNT),
        250_000_000 - 10
    );
    let rec = state.stakes[7].unwrap();
    assert_eq!(rec.amount, 1000);
    assert_eq!(rec.last_claim_time, 100 + 86_400);
}

#[test]
fn staking_reward_linearity_concrete() {
    let mut one = fresh_state(1);
    fund_user(&mut one, 10_000);
    one.stake(7, 1000, 0).unwrap();
    assert_eq!(one.claim_rewards(7, 2 * 86_400).unwrap(), 20);

    let mut two = fresh_state(1);
    fund_user(&mut two, 10_000);
    two.stake(7, 2000, 0).unwrap();
    assert_eq!(two.claim_rewards(7, 86_400).unwrap(), 20);
}

#[test]
fn staking_zero_elapsed_no_rewards() {
    let mut state = fresh_state(1);
    fund_user(&mut state, 10_000);
    state.stake(7, 1000, 500).unwrap();
    assert_eq!(state.claim_rewards(7, 500), Err(Error::NoRewards));
    assert_eq!(state.claim_rewards(8, 500), Err(Error::NoRewards));
}

#[test]
fn staking_below_minimum() {
    let mut state = fresh_state(1);
    fund_user(&mut state, 10_000);
    assert_eq!(state.stake(7, 999, 0), Err(Error::BelowMinimum));
    assert!(state.stakes[7].is_none());
}

#[test]
fn staking_insufficient_balance() {
    let mut state = fresh_state(1);
    fund_user(&mut state, 2_000);
    assert_eq!(state.stake(7, 5_000, 0), Err(Error::InsufficientBalance));
    assert_eq!(state.balance_of(STAKE_CUSTODY_ACCOUNT), 0);
}

#[test]
fn stake_topup_keeps_clock() {
    let mut state = fresh_state(1);
    fund_user(&mut state, 10_000);
    state.stake(7, 1000, 100).unwrap();
    state.stake(7, 2000, 900).unwrap();
    let rec = state.stakes[7].unwrap();
    assert_eq!(rec.amount, 3000);
    assert_eq!(rec.start_time, 100);
    assert_eq!(rec.last_claim_time, 100);
    assert_eq!(state.balance_of(STAKE_CUSTODY_ACCOUNT), 3000);
}

#[test]
fn unstake_returns_stake_and_rewards() {
    let mut state = fresh_state(1);
    fund_user(&mut state, 10_000);
    state.stake(7, 1000, 0).unwrap();
    let balance_before = state.balance_of(7);

    let rewards = state.unstake(7, 2 * 86_400).unwrap();
    assert_eq!(rewards, 20);
    assert_eq!(state.balance_of(7), balance_before + 1000 + 20);
    assert_eq!(state.balance_of(STAKE_CUSTODY_ACCOUNT), 0);
    assert!(state.stakes[7].is_none());

    assert_eq!(state.unstake(7, 3 * 86_400), Err(Error::NoRewards));
}

#[test]
fn unstake_settles_zero_rewards_without_error() {
    let mut state = fresh_state(1);
    fund_user(&mut state, 10_000);
    state.stake(7, 1000, 0).unwrap();
    // No time has passed: zero rewards is not an error on unstake.
    let rewards = state.unstake(7, 0).unwrap();
    assert_eq!(rewards, 0);
    assert_eq!(state.balance_of(7), 8_800 + 1000);
}

#[test]
fn bridge_out_burns_and_numbers() {
    let mut state = fresh_state(1);
    fund_user(&mut state, 10_000);

    let m0 = state.bridge_out(7, 500, 2, 7, 11).unwrap();
    assert_eq!(m0.sequence_number, 0);
    assert_eq!(m0.source_chain_id, 1);
    assert_eq!(m0.destination_chain_id, 2);
    assert_eq!(m0.amount, 500);
    assert_eq!(state.balance_of(7), 9_300);
    assert_eq!(state.ledger.issued, INITIAL_SUPPLY - 500);

    let m1 = state.bridge_out(7, 300, 2, 8, 12).unwrap();
    assert_eq!(m1.sequence_number, 1);
    assert_eq!(state.ledger.issued, INITIAL_SUPPLY - 800);

    assert_eq!(
        state.bridge_out(7, 0, 2, 7, 13),
        Err(Error::ZeroAmount)
    );
    assert_eq!(
        state.bridge_out(8, 50, 2, 7, 14),
        Err(Error::InsufficientBalance)
    );
    state.set_paused(true);
    assert_eq!(state.bridge_out(7, 50, 2, 7, 15), Err(Error::Paused));
}

#[test]
fn bridge_roundtrip_mints_once() {
    let mut source = fresh_state(1);
    let mut destination = fresh_state(2);
    fund_user(&mut source, 10_000);

    let msg = source.bridge_out(7, 500, 2, 7, 42).unwrap();

    destination.bridge_in(&msg, ProofStatus::Verified).unwrap();
    assert_eq!(destination.balance_of(7), 500);
    assert_eq!(destination.ledger.issued, INITIAL_SUPPLY + 500);

    // The same message again: replay detected, nothing minted.
    assert_eq!(
        destination.bridge_in(&msg, ProofStatus::Verified),
        Err(Error::ReplayDetected)
    );
    // A forged message reusing the consumed sequence number fails
    // regardless of its payload.
    let forged = BridgeMessage {
        sequence_number: msg.sequence_number,
        source_chain_id: msg.source_chain_id,
        destination_chain_id: 2,
        recipient: 8,
        amount: 999_999,
        nonce: 777,
    };
    assert_eq!(
        destination.bridge_in(&forged, ProofStatus::Verified),
        Err(Error::ReplayDetected)
    );
    assert_eq!(destination.balance_of(7), 500);
    assert_eq!(destination.balance_of(8), 0);
    assert_eq!(destination.ledger.issued, INITIAL_SUPPLY + 500);
}

#[test]
fn bridge_in_rejects_unverified() {
    let mut source = fresh_state(1);
    let mut destination = fresh_state(2);
    fund_user(&mut source, 10_000);
    let msg = source.bridge_out(7, 500, 2, 7, 1).unwrap();

    assert_eq!(
        destination.bridge_in(&msg, ProofStatus::Rejected),
        Err(Error::ProofNotVerified)
    );
    assert_eq!(destination.balance_of(7), 0);
    // The identifier was not consumed by the rejection: a verified
    // delivery still goes through.
    destination.bridge_in(&msg, ProofStatus::Verified).unwrap();
    assert_eq!(destination.balance_of(7), 500);
}

#[test]
fn bridge_in_paused_refused() {
    let mut source = fresh_state(1);
    let mut destination = fresh_state(2);
    fund_user(&mut source, 10_000);
    let msg = source.bridge_out(7, 500, 2, 7, 1).unwrap();
    destination.set_paused(true);
    assert_eq!(
        destination.bridge_in(&msg, ProofStatus::Verified),
        Err(Error::Paused)
    );
}

#[test]
fn conservation_across_two_ledgers() {
    let mut source = fresh_state(1);
    let mut destination = fresh_state(2);
    fund_user(&mut source, 10_000);

    let msg = source.bridge_out(7, 500, 2, 7, 1).unwrap();
    // Burned on the source, not yet minted on the destination.
    assert_eq!(
        source.ledger.issued + destination.ledger.issued,
        2 * INITIAL_SUPPLY - 500
    );
    destination.bridge_in(&msg, ProofStatus::Verified).unwrap();
    // Conservation restored across both ledgers.
    assert_eq!(
        source.ledger.issued + destination.ledger.issued,
        2 * INITIAL_SUPPLY
    );
}

#[test]
fn execute_dispatches_operations() {
    let mut state = fresh_state(1);
    fund_user(&mut state, 10_000);

    let r = execute(
        &mut state,
        7,
        ExecuteMsg::Transfer { recipient: 8, amount: 1000 },
        0,
    )
    .unwrap();
    match r {
        ExecuteResponse::Transferred(ev) => {
            assert_eq!(ev.tax, 20);
            assert_eq!(ev.net, 980);
        }
        other => panic!("expected a transfer response, got {:?}", other),
    }

    let r = execute(&mut state, 7, ExecuteMsg::Stake { amount: 1000 }, 10).unwrap();
    assert_eq!(r, ExecuteResponse::Staked(1000));

    let r = execute(&mut state, 7, ExecuteMsg::ClaimRewards {}, 10 + 86_400).unwrap();
    assert_eq!(r, ExecuteResponse::RewardsClaimed(10));

    let r = execute(&mut state, 7, ExecuteMsg::Unstake {}, 10 + 86_400).unwrap();
    assert_eq!(r, ExecuteResponse::Unstaked(0));

    let r = execute(
        &mut state,
        7,
        ExecuteMsg::ClaimTeamTokens {},
        31_536_000,
    )
    .unwrap();
    assert_eq!(r, ExecuteResponse::VestedClaimed(50_000_000));

    let r = execute(
        &mut state,
        7,
        ExecuteMsg::BridgeTransfer {
            destination_chain_id: 2,
            recipient: 7,
            nonce: 1,
            amount: 250,
        },
        31_536_000,
    )
    .unwrap();
    match r {
        ExecuteResponse::BridgeInitiated(m) => assert_eq!(m.amount, 250),
        other => panic!("expected a bridge message, got {:?}", other),
    }

    let r = execute(
        &mut state,
        7,
        ExecuteMsg::Burn { amount: 100 },
        31_536_000,
    )
    .unwrap();
    assert_eq!(r, ExecuteResponse::Burned(100));
}

#[test]
fn execute_receive_from_bridge() {
    let mut source = fresh_state(1);
    let mut destination = fresh_state(2);
    fund_user(&mut source, 10_000);
    let msg = source.bridge_out(7, 500, 2, 8, 1).unwrap();

    let r = execute(
        &mut destination,
        7,
        ExecuteMsg::ReceiveFromBridge { message: msg, proof_status: ProofStatus::Verified },
        0,
    )
    .unwrap();
    assert_eq!(r, ExecuteResponse::BridgeCompleted(500));
    assert_eq!(destination.balance_of(8), 500);
    assert_eq!(
        execute(
            &mut destination,
            7,
            ExecuteMsg::ReceiveFromBridge { message: msg, proof_status: ProofStatus::Verified },
            0,
        ),
        Err(Error::ReplayDetected)
    );
}

#[test]
fn transfer_cap_boundary() {
    let mut state = fresh_state(1);
    // Exactly the cap is allowed; one unit more is not.
    let ev = state.transfer(TREASURY_ACCOUNT, 7, 1_000_000).unwrap();
    assert_eq!(ev.tax, 20_000);
    assert_eq!(ev.net, 980_000);
    assert_eq!(
        state.transfer(TREASURY_ACCOUNT, 7, 1_000_001),
        Err(Error::ExceedsMaximum)
    );
}

#[test]
fn stake_minimum_boundary() {
    let mut state = fresh_state(1);
    fund_user(&mut state, 10_000);
    assert!(state.stake(7, 1000, 0).is_ok());
}

#[test]
fn vesting_nothing_before_start() {
    let mut state = instantiate(test_msg(), TokenConfig::standard(1), 5_000);
    state.add_account();
    assert_eq!(claimable(&state.development_grant, 0), 0);
    assert_eq!(claimable(&state.development_grant, 4_999), 0);
    assert_eq!(
        state.claim_vested(VestingCategory::Development, 4_999),
        Err(Error::NoRewards)
    );
}

#[test]
fn balance_of_missing_account_is_zero() {
    let state = fresh_state(1);
    assert_eq!(state.balance_of(1234), 0);
}

#[test]
fn accrued_rewards_formula_view() {
    let state = fresh_state(1);
    let rec = StakeInfo { amount: 1000, start_time: 0, last_claim_time: 0 };
    assert_eq!(accrued_rewards(&state.pool, &rec, 0), 0);
    assert_eq!(accrued_rewards(&state.pool, &rec, 43_200), 5);
    assert_eq!(accrued_rewards(&state.pool, &rec, 86_400), 10);
    let bigger = StakeInfo { amount: 2000, start_time: 0, last_claim_time: 0 };
    assert_eq!(accrued_rewards(&state.pool, &bigger, 86_400), 20);
}

#[test]
fn replay_guard_membership() {
    let mut source = fresh_state(1);
    let mut destination = fresh_state(2);
    fund_user(&mut source, 10_000);
    let msg = source.bridge_out(7, 500, 2, 7, 1).unwrap();
    assert!(!destination
        .gateway
        .is_consumed(msg.source_chain_id, msg.sequence_number));
    destination.bridge_in(&msg, ProofStatus::Verified).unwrap();
    assert!(destination
        .gateway
        .is_consumed(msg.source_chain_id, msg.sequence_number));
}

#[test]
fn metadata_kept() {
    let state = fresh_state(1);
    assert_eq!(state.metadata.name, "Capy Token");
    assert_eq!(state.metadata.symbol, "CAPY");
    assert_eq!(state.metadata.decimals, 9);
}
