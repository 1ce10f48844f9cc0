use vstd::prelude::*;
use crate::errors::UmayError;
use crate::math::{
    compute_scenario_payout, compute_stable_value, compute_tokens_for_deposit, scenario_payout,
    stable_value, tokens_for_deposit,
};
use crate::state::{AccountId, Factory, Pool, PoolStateKind};

verus! {

/// Creates the singleton factory record: the given authorities, an empty
/// pool counter, and the environment-chosen derivation bump.
pub fn initialize_factory(admin: AccountId, usdt_mint: AccountId, bump: u8) -> (f: Factory)
    ensures
        f == (Factory { admin, usdt_mint, pool_count: 0, bump }),
{
    Factory { admin, usdt_mint, pool_count: 0, bump }
}

/// Spawns a new pool. The factory's counter becomes the pool's index and
/// the identities of the pool's record, claim-token mint and custody vault
/// are derived from that index; the counter then grows by exactly one.
/// The new pool is Funding, unlatched, with both payout gates closed and
/// nothing invested. Target, deadline and the bps ratios are stored without
/// validation; callers are responsible for sane values.
pub fn create_pool(
    factory: &mut Factory,
    company_wallet: AccountId,
    target_amount: u64,
    deadline: i64,
    success_return_bps: u16,
    fail_return_bps: u16,
    token_price: u64,
    bump: u8,
) -> (pool: Pool)
    requires
        // the counter increment must abort rather than wrap
        old(factory).pool_count < u64::MAX,
        // the price divides every deposit, so it must be positive
        token_price > 0,
    ensures
        final(factory).pool_count == old(factory).pool_count + 1,
        *final(factory) == old(factory).with_new_pool(),
        pool.index < final(factory).pool_count,
        pool == (Pool {
            factory: AccountId::FactoryAccount,
            company_wallet,
            share_mint: AccountId::ShareMint(old(factory).pool_count),
            usdt_vault: AccountId::UsdtVault(old(factory).pool_count),
            target_amount,
            deadline,
            success_return_bps,
            fail_return_bps,
            token_price,
            mint_decimals: 18,
            state: PoolStateKind::Funding,
            finalized: false,
            success_payout_active: false,
            fail_payout_active: false,
            total_invested: 0,
            index: old(factory).pool_count,
            bump,
        }),
        pool.wf(),
{
    let index = factory.pool_count;
    factory.pool_count = index + 1;
    Pool {
        factory: AccountId::FactoryAccount,
        company_wallet,
        share_mint: AccountId::ShareMint(index),
        usdt_vault: AccountId::UsdtVault(index),
        target_amount,
        deadline,
        success_return_bps,
        fail_return_bps,
        token_price,
        mint_decimals: 18,
        state: PoolStateKind::Funding,
        finalized: false,
        success_payout_active: false,
        fail_payout_active: false,
        total_invested: 0,
        index,
        bump,
    }
}

/// Admission control for a deposit, first failure winning: the amount must
/// be positive, the pool must still be Funding, and the clock must be
/// strictly before the deadline.
pub open spec fn invest_check(pool: Pool, amount: u64, now: i64) -> Result<(), UmayError> {
    if amount == 0 {
        Err(UmayError::InsufficientFunds)
    } else if pool.state != PoolStateKind::Funding {
        Err(UmayError::NotFunding)
    } else if now >= pool.deadline {
        Err(UmayError::DeadlinePassed)
    } else {
        Ok(())
    }
}

/// Accepts a stablecoin deposit: adds the amount to the raised total and
/// returns the claim tokens to mint for the depositor,
/// floor(amount · 10^18 / price). A rejected deposit names the first failed
/// check and leaves the pool untouched. The caller moves the stablecoin
/// into the vault and mints the returned amount under the pool's authority.
pub fn invest(pool: &mut Pool, amount: u64, now: i64) -> (r: Result<u64, UmayError>)
    requires
        old(pool).wf(),
        // narrowing the minted amount and growing the total abort rather than wrap
        invest_check(*old(pool), amount, now) is Ok ==> tokens_for_deposit(
            amount,
            old(pool).token_price,
        ) <= u64::MAX && old(pool).total_invested + amount <= u64::MAX,
    ensures
        match invest_check(*old(pool), amount, now) {
            Ok(()) => r matches Ok(minted) && minted as int == tokens_for_deposit(
                amount,
                old(pool).token_price,
            ) && *final(pool) == old(pool).with_deposit(amount),
            Err(e) => r == Err::<u64, UmayError>(e) && *final(pool) == *old(pool),
        },
{
    if amount == 0 {
        return Err(UmayError::InsufficientFunds);
    }
    if pool.state != PoolStateKind::Funding {
        return Err(UmayError::NotFunding);
    }
    if now >= pool.deadline {
        return Err(UmayError::DeadlinePassed);
    }
    let minted = compute_tokens_for_deposit(amount, pool.token_price);
    pool.total_invested = pool.total_invested + amount;
    Ok(minted)
}

/// Freezes the pool's outcome: sets the one-way latch and recomputes the
/// raised-total comparison — Succeeded exactly when the total reached the
/// target. No caller or deadline restriction is imposed, and a repeat call
/// recomputes the same comparison. Released is terminal: a pool whose vault
/// was already paid out keeps that stage, so finalization can never reopen
/// the release path.
pub fn finalize(pool: &mut Pool) -> (r: Result<(), UmayError>)
    ensures
        r is Ok,
        *final(pool) == old(pool).finalized_outcome(),
        final(pool).finalized,
        final(pool).state == (if old(pool).state == PoolStateKind::Released {
            PoolStateKind::Released
        } else if old(pool).total_invested >= old(pool).target_amount {
            PoolStateKind::Succeeded
        } else {
            PoolStateKind::Failed
        }),
{
    pool.finalized = true;
    if pool.state != PoolStateKind::Released {
        pool.state = if pool.total_invested >= pool.target_amount {
            PoolStateKind::Succeeded
        } else {
            PoolStateKind::Failed
        };
    }
    Ok(())
}

/// Admission control for the full release: the pool must be finalized and
/// Succeeded, and the vault must hold something.
pub open spec fn release_check(pool: Pool, vault_balance: u64) -> Result<(), UmayError> {
    if !pool.finalized {
        Err(UmayError::InvalidState)
    } else if pool.state != PoolStateKind::Succeeded {
        Err(UmayError::InvalidState)
    } else if vault_balance == 0 {
        Err(UmayError::InsufficientFunds)
    } else {
        Ok(())
    }
}

/// Pays the pool's entire current vault balance to the beneficiary wallet
/// and records the pool as Released; returns the amount to transfer. This
/// is the only path that empties the vault wholesale, and it runs at most
/// once: afterwards the state is no longer Succeeded, so every further
/// attempt fails the state check.
pub fn release_to_company(pool: &mut Pool, vault_balance: u64) -> (r: Result<u64, UmayError>)
    ensures
        match release_check(*old(pool), vault_balance) {
            Ok(()) => r == Ok::<u64, UmayError>(vault_balance) && *final(pool) == old(pool).released(),
            Err(e) => r == Err::<u64, UmayError>(e) && *final(pool) == *old(pool),
        },
{
    if !pool.finalized {
        return Err(UmayError::InvalidState);
    }
    if pool.state != PoolStateKind::Succeeded {
        return Err(UmayError::InvalidState);
    }
    if vault_balance == 0 {
        return Err(UmayError::InsufficientFunds);
    }
    pool.state = PoolStateKind::Released;
    Ok(vault_balance)
}

/// Admission control for a refund: only an empty held balance is refused.
/// The pool is a parameter to record that no field of it — in particular
/// neither `state` nor `finalized` — takes part in the decision.
pub open spec fn refund_check(pool: Pool, held_tokens: u64) -> Result<(), UmayError> {
    if held_tokens == 0 {
        Err(UmayError::InsufficientFunds)
    } else {
        Ok(())
    }
}

/// Exit at par: burns the caller's entire held claim-token balance back
/// into stablecoin at the original price, floor(held · price / 10^18), and
/// returns that amount to transfer out of the vault. Deliberately
/// indifferent to the pool's lifecycle: it is available in every state,
/// finalized or not. The caller burns the whole held balance and moves the
/// returned amount under the pool's custody authority.
pub fn refund(pool: &Pool, held_tokens: u64) -> (r: Result<u64, UmayError>)
    requires
        pool.wf(),
        // narrowing the refunded amount aborts rather than wraps
        held_tokens > 0 ==> stable_value(held_tokens, pool.token_price) <= u64::MAX,
    ensures
        match refund_check(*pool, held_tokens) {
            Ok(()) => r matches Ok(amount) && amount as int == stable_value(
                held_tokens,
                pool.token_price,
            ),
            Err(e) => r == Err::<u64, UmayError>(e),
        },
{
    if held_tokens == 0 {
        return Err(UmayError::InsufficientFunds);
    }
    let amount = compute_stable_value(held_tokens, pool.token_price);
    Ok(amount)
}

/// Moves stablecoin from the admin into a pool's vault outside the deposit
/// accounting — the raised total is untouched — so the vault can cover
/// scenario payouts. Only the factory's admin may call it; the accepted
/// amount is returned for the caller to transfer.
pub fn deposit_usdt(factory: &Factory, caller: AccountId, amount: u64) -> (r: Result<
    u64,
    UmayError,
>)
    ensures
        caller == factory.admin ==> r == Ok::<u64, UmayError>(amount),
        caller != factory.admin ==> r == Err::<u64, UmayError>(UmayError::Unauthorized),
{
    if caller == factory.admin {
        Ok(amount)
    } else {
        Err(UmayError::Unauthorized)
    }
}

/// Opens or closes the success-scenario payout gate, admin only; the pool's
/// lifecycle stage plays no part.
pub fn set_success_payout_active(
    factory: &Factory,
    caller: AccountId,
    pool: &mut Pool,
    active: bool,
) -> (r: Result<(), UmayError>)
    ensures
        caller == factory.admin ==> r is Ok && *final(pool) == old(pool).with_success_gate(active),
        caller != factory.admin ==> r == Err::<(), UmayError>(UmayError::Unauthorized) && *final(pool) == *old(pool),
{
    if caller == factory.admin {
        pool.success_payout_active = active;
        Ok(())
    } else {
        Err(UmayError::Unauthorized)
    }
}

/// Opens or closes the fail-scenario payout gate, admin only; the pool's
/// lifecycle stage plays no part.
pub fn set_fail_payout_active(
    factory: &Factory,
    caller: AccountId,
    pool: &mut Pool,
    active: bool,
) -> (r: Result<(), UmayError>)
    ensures
        caller == factory.admin ==> r is Ok && *final(pool) == old(pool).with_fail_gate(active),
        caller != factory.admin ==> r == Err::<(), UmayError>(UmayError::Unauthorized) && *final(pool) == *old(pool),
{
    if caller == factory.admin {
        pool.fail_payout_active = active;
        Ok(())
    } else {
        Err(UmayError::Unauthorized)
    }
}

/// The tokens a scenario redemption burns: the explicit request if one was
/// given, else the caller's whole held balance.
pub open spec fn redeem_burn_amount(token_amount: Option<u64>, held_tokens: u64) -> u64 {
    match token_amount {
        Some(t) => t,
        None => held_tokens,
    }
}

/// The basis-point ratio the given scenario pays: selector 0 is the
/// success scenario, 1 the fail scenario.
pub open spec fn redeem_bps(pool: Pool, scenario: u8) -> u16 {
    if scenario == 0 {
        pool.success_return_bps
    } else {
        pool.fail_return_bps
    }
}

/// Admission control for a scenario redemption, first failure winning: the
/// burn amount must be positive, the selector must name a known scenario
/// whose payout gate is open, and the vault must cover the payout.
pub open spec fn redeem_check(pool: Pool, scenario: u8, burn_amount: u64, vault_balance: u64) -> Result<
    (),
    UmayError,
> {
    if burn_amount == 0 {
        Err(UmayError::InsufficientFunds)
    } else if scenario == 0 && !pool.success_payout_active {
        Err(UmayError::InvalidScenario)
    } else if scenario == 1 && !pool.fail_payout_active {
        Err(UmayError::InvalidScenario)
    } else if scenario != 0 && scenario != 1 {
        Err(UmayError::InvalidScenario)
    } else if vault_balance < scenario_payout(burn_amount, pool.token_price, redeem_bps(pool, scenario)) {
        Err(UmayError::InsufficientFunds)
    } else {
        Ok(())
    }
}

/// Scenario-gated proportional redemption: burns the requested claim-token
/// amount (or the whole held balance when none is given) and pays
/// floor(floor(burn · price / 10^18) · bps / 10000) stablecoin, under the
/// bps ratio of the selected scenario. Returns the pair (tokens to burn,
/// payout to transfer). Independent of the pool's finalized outcome: only
/// the admin gates decide which scenario is open. The pool itself is not
/// changed.
pub fn redeem_by_scenario(
    pool: &Pool,
    scenario: u8,
    token_amount: Option<u64>,
    held_tokens: u64,
    vault_balance: u64,
) -> (r: Result<(u64, u64), UmayError>)
    requires
        pool.wf(),
        // narrowing the payout aborts rather than wraps
        redeem_burn_amount(token_amount, held_tokens) > 0 && (scenario == 0
            && pool.success_payout_active || scenario == 1 && pool.fail_payout_active)
            ==> scenario_payout(
            redeem_burn_amount(token_amount, held_tokens),
            pool.token_price,
            redeem_bps(*pool, scenario),
        ) <= u64::MAX,
    ensures
        match redeem_check(
            *pool,
            scenario,
            redeem_burn_amount(token_amount, held_tokens),
            vault_balance,
        ) {
            Ok(()) => r matches Ok(p) && p.0 == redeem_burn_amount(token_amount, held_tokens)
                && p.1 as int == scenario_payout(
                redeem_burn_amount(token_amount, held_tokens),
                pool.token_price,
                redeem_bps(*pool, scenario),
            ),
            Err(e) => r == Err::<(u64, u64), UmayError>(e),
        },
{
    let burn_amount: u64 = match token_amount {
        Some(t) => t,
        None => held_tokens,
    };
    if burn_amount == 0 {
        return Err(UmayError::InsufficientFunds);
    }
    let bps: u16 = if scenario == 0 {
        if !pool.success_payout_active {
            return Err(UmayError::InvalidScenario);
        }
        pool.success_return_bps
    } else if scenario == 1 {
        if !pool.fail_payout_active {
            return Err(UmayError::InvalidScenario);
        }
        pool.fail_return_bps
    } else {
        return Err(UmayError::InvalidScenario);
    };
    let payout = compute_scenario_payout(burn_amount, pool.token_price, bps);
    if vault_balance < payout {
        return Err(UmayError::InsufficientFunds);
    }
    Ok((burn_amount, payout))
}

} // verus!
