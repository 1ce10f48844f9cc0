use umay::errors::UmayError;
use umay::instructions::{
    create_pool, finalize, initialize_factory, invest, redeem_by_scenario, refund,
    release_to_company, set_fail_payout_active, set_success_payout_active,
};
use umay::math::{
    compute_scenario_payout, compute_stable_value, compute_tokens_for_deposit, POW10_18,
};
use umay::state::{AccountId, Factory, Pool, PoolStateKind};

fn admin() -> AccountId {
    AccountId::External(1)
}

fn usdt() -> AccountId {
    AccountId::External(2)
}

fn company() -> AccountId {
    AccountId::External(3)
}

fn setup(target_amount: u64, deadline: i64, token_price: u64) -> (Factory, Pool) {
    let mut factory = initialize_factory(admin(), usdt(), 255);
    let pool = create_pool(&mut factory, company(), target_amount, deadline, 8000, 8000, token_price, 254);
    (factory, pool)
}

#[test]
fn deposit_mints_floor_of_scaled_amount() {
    // price of 2 stablecoin units per whole token: 5 units buy 2.5, floored to 2
    assert_eq!(compute_tokens_for_deposit(5, 2 * POW10_18), 2);
    assert_eq!(compute_tokens_for_deposit(4, 2 * POW10_18), 2);
    assert_eq!(compute_tokens_for_deposit(500_000, POW10_18), 500_000);
    assert_eq!(compute_tokens_for_deposit(0, POW10_18), 0);
    // a sub-unit price scales the deposit up
    assert_eq!(compute_tokens_for_deposit(3, POW10_18 / 2), 6);
}

#[test]
fn investing_zero_fails_insufficient_funds() {
    let (_, mut pool) = setup(1_000_000, 100, POW10_18);
    assert_eq!(invest(&mut pool, 0, 50), Err(UmayError::InsufficientFunds));
    assert_eq!(pool.total_invested, 0);
}

#[test]
fn total_invested_accumulates_accepted_deposits() {
    let (_, mut pool) = setup(1_000_000, 100, POW10_18);
    assert_eq!(invest(&mut pool, 100, 10), Ok(100));
    assert_eq!(invest(&mut pool, 250, 20), Ok(250));
    assert_eq!(invest(&mut pool, 7, 30), Ok(7));
    assert_eq!(pool.total_invested, 357);
    // a rejected deposit adds nothing
    assert_eq!(invest(&mut pool, 0, 40), Err(UmayError::InsufficientFunds));
    assert_eq!(invest(&mut pool, 5, 100), Err(UmayError::DeadlinePassed));
    assert_eq!(pool.total_invested, 357);
}

#[test]
fn refund_pays_floor_of_value_at_par() {
    let (_, pool) = setup(1_000_000, 100, 3 * POW10_18 / 2);
    // 3 tokens at price 1.5: worth 4.5, floored to 4
    assert_eq!(refund(&pool, 3), Ok(4));
    assert_eq!(compute_stable_value(3, 3 * POW10_18 / 2), 4);
    assert_eq!(compute_stable_value(1, POW10_18), 1);
}

#[test]
fn refund_of_empty_balance_fails() {
    let (_, pool) = setup(1_000_000, 100, POW10_18);
    assert_eq!(refund(&pool, 0), Err(UmayError::InsufficientFunds));
}

#[test]
fn refund_is_available_in_every_state() {
    let (_, mut pool) = setup(10, 100, POW10_18);
    assert_eq!(invest(&mut pool, 10, 50), Ok(10));
    // still Funding
    assert_eq!(refund(&pool, 6), Ok(6));
    // Succeeded and finalized
    assert_eq!(finalize(&mut pool), Ok(()));
    assert_eq!(pool.state, PoolStateKind::Succeeded);
    assert_eq!(refund(&pool, 6), Ok(6));
    // Released
    assert_eq!(release_to_company(&mut pool, 10), Ok(10));
    assert_eq!(pool.state, PoolStateKind::Released);
    assert_eq!(refund(&pool, 6), Ok(6));
    // Failed
    let (_, mut failed) = setup(10, 100, POW10_18);
    assert_eq!(finalize(&mut failed), Ok(()));
    assert_eq!(failed.state, PoolStateKind::Failed);
    assert_eq!(refund(&failed, 6), Ok(6));
}

#[test]
fn redeem_pays_double_floored_ratio() {
    assert_eq!(compute_scenario_payout(500_000, POW10_18, 8000), 400_000);
    // base floors first: 3 tokens at price 1.5 give base 4, then 4·8000/10000 floors to 3
    assert_eq!(compute_scenario_payout(3, 3 * POW10_18 / 2, 8000), 3);
    // a tiny base floors to nothing
    assert_eq!(compute_scenario_payout(1, POW10_18, 1), 0);
    // a ratio above 10000 pays more than the base; nothing caps it
    assert_eq!(compute_scenario_payout(1000, POW10_18, 12000), 1200);
}

#[test]
fn redeem_requires_an_open_gate_and_a_known_scenario() {
    let (factory, mut pool) = setup(10, 100, POW10_18);
    assert_eq!(invest(&mut pool, 8, 50), Ok(8));
    // both gates closed
    assert_eq!(redeem_by_scenario(&pool, 0, None, 8, 8), Err(UmayError::InvalidScenario));
    assert_eq!(redeem_by_scenario(&pool, 1, None, 8, 8), Err(UmayError::InvalidScenario));
    // unknown selector, with both gates open
    assert_eq!(set_success_payout_active(&factory, admin(), &mut pool, true), Ok(()));
    assert_eq!(set_fail_payout_active(&factory, admin(), &mut pool, true), Ok(()));
    assert_eq!(redeem_by_scenario(&pool, 2, None, 8, 8), Err(UmayError::InvalidScenario));
    // open gates admit both scenarios, independent of the pool's outcome
    assert_eq!(redeem_by_scenario(&pool, 0, None, 8, 8), Ok((8, 6)));
    assert_eq!(redeem_by_scenario(&pool, 1, None, 8, 8), Ok((8, 6)));
}

#[test]
fn redeem_burns_the_request_or_the_whole_balance() {
    let (factory, mut pool) = setup(10, 100, POW10_18);
    assert_eq!(set_fail_payout_active(&factory, admin(), &mut pool, true), Ok(()));
    // an explicit request burns exactly that much
    assert_eq!(redeem_by_scenario(&pool, 1, Some(5), 8, 8), Ok((5, 4)));
    // no request burns the whole held balance
    assert_eq!(redeem_by_scenario(&pool, 1, None, 8, 8), Ok((8, 6)));
    // a zero burn is refused, requested or held
    assert_eq!(redeem_by_scenario(&pool, 1, Some(0), 8, 8), Err(UmayError::InsufficientFunds));
    assert_eq!(redeem_by_scenario(&pool, 1, None, 0, 8), Err(UmayError::InsufficientFunds));
}

#[test]
fn redeem_needs_the_vault_to_cover_the_payout() {
    let (factory, mut pool) = setup(10, 100, POW10_18);
    assert_eq!(set_fail_payout_active(&factory, admin(), &mut pool, true), Ok(()));
    // payout for 500,000 tokens at 8000 bps is 400,000
    assert_eq!(redeem_by_scenario(&pool, 1, Some(500_000), 500_000, 399_999), Err(UmayError::InsufficientFunds));
    assert_eq!(redeem_by_scenario(&pool, 1, Some(500_000), 500_000, 400_000), Ok((500_000, 400_000)));
}

#[test]
fn failed_pool_settles_by_fail_scenario() {
    // a campaign that misses a 1,000,000 target, with a unit price at the
    // 10^18 claim-token scale and an 8000 bps fail ratio
    let mut factory = initialize_factory(admin(), usdt(), 255);
    let mut pool = create_pool(&mut factory, company(), 1_000_000, 100, 8000, 8000, POW10_18, 254);
    let mut vault: u64 = 0;
    let minted = invest(&mut pool, 500_000, 50).unwrap();
    vault += 500_000;
    assert_eq!(minted, 500_000);
    assert_eq!(pool.total_invested, 500_000);
    assert_eq!(finalize(&mut pool), Ok(()));
    assert_eq!(pool.state, PoolStateKind::Failed);
    assert!(pool.finalized);
    assert_eq!(set_fail_payout_active(&factory, admin(), &mut pool, true), Ok(()));
    // a short vault refuses the redemption
    assert_eq!(
        redeem_by_scenario(&pool, 1, None, minted, 399_999),
        Err(UmayError::InsufficientFunds)
    );
    // the full vault covers it: base 500,000, payout 400,000
    let (burned, payout) = redeem_by_scenario(&pool, 1, None, minted, vault).unwrap();
    assert_eq!(burned, 500_000);
    assert_eq!(payout, 400_000);
    vault -= payout;
    assert_eq!(vault, 100_000);
}
