use vstd::prelude::*;
use crate::errors::UmayError;
use crate::instructions::{refund_check, release_check};
use crate::math::stable_value;
use crate::state::{Factory, Pool, PoolStateKind};

verus! {

/// The factory after a run of pool creations.
pub open spec fn with_new_pools(factory: Factory, n: nat) -> Factory
    decreases n,
{
    if n == 0 {
        factory
    } else {
        with_new_pools(factory, (n - 1) as nat).with_new_pool()
    }
}

/// Law: the pool counter is monotone. Over any run of creations it grows by
/// exactly one per call and is never decremented: after n creations it is
/// the starting count plus n, and nothing else of the factory has moved.
/// The k-th creation assigns the counter it read, starting count plus k, as
/// the new pool's index — the shape lemma_pool_indices_distinct starts from.
pub proof fn lemma_pool_count_monotone(factory: Factory, n: nat)
    requires
        factory.pool_count + n <= u64::MAX,
    ensures
        with_new_pools(factory, n) == (Factory {
            pool_count: (factory.pool_count + n) as u64,
            ..factory
        }),
    decreases n,
{
    if n > 0 {
        lemma_pool_count_monotone(factory, (n - 1) as nat);
    }
}

/// Law: pool indices are pairwise distinct. Each creation hands the
/// factory's current counter to the new pool as its index and then grows the
/// counter by one, so along any run of creations the k-th pool's index is
/// the starting counter plus k — and no two pools can share an index.
pub proof fn lemma_pool_indices_distinct(pools: Seq<Pool>, first_count: u64)
    requires
        forall|i: int| 0 <= i < pools.len() ==> #[trigger] pools[i].index == first_count + i,
    ensures
        forall|i: int, j: int| 0 <= i < j < pools.len() ==> pools[i].index != pools[j].index,
{
}

/// The sum of a run of deposit amounts.
pub open spec fn sum_of(amounts: Seq<u64>) -> int
    decreases amounts.len(),
{
    if amounts.len() == 0 {
        0
    } else {
        sum_of(amounts.drop_last()) + amounts.last()
    }
}

/// The pool after a run of accepted deposits, oldest first.
pub open spec fn with_deposits(pool: Pool, amounts: Seq<u64>) -> Pool
    decreases amounts.len(),
{
    if amounts.len() == 0 {
        pool
    } else {
        with_deposits(pool, amounts.drop_last()).with_deposit(amounts.last())
    }
}

/// A sum of unsigned amounts cannot be negative.
pub proof fn lemma_sum_of_nonneg(amounts: Seq<u64>)
    ensures
        sum_of(amounts) >= 0,
    decreases amounts.len(),
{
    if amounts.len() > 0 {
        lemma_sum_of_nonneg(amounts.drop_last());
    }
}

/// Law: the raised total accounts for every accepted deposit. After any run
/// of accepted deposits whose sum still fits the counter's width, the
/// raised total is the starting total plus the sum of the amounts, and no
/// other field of the pool has moved.
pub proof fn lemma_total_invested_is_sum(pool: Pool, amounts: Seq<u64>)
    requires
        pool.total_invested + sum_of(amounts) <= u64::MAX,
    ensures
        with_deposits(pool, amounts) == (Pool {
            total_invested: (pool.total_invested + sum_of(amounts)) as u64,
            ..pool
        }),
    decreases amounts.len(),
{
    if amounts.len() > 0 {
        lemma_sum_of_nonneg(amounts.drop_last());
        lemma_total_invested_is_sum(pool, amounts.drop_last());
    }
}

/// Law: the finalization latch is one-way. Every step of the protocol that
/// changes a pool keeps `finalized` once it is set — a deposit, another
/// finalization, a release, and either gate toggle all preserve it.
pub proof fn lemma_finalized_latch(pool: Pool, amount: u64, active: bool)
    requires
        pool.finalized,
    ensures
        pool.with_deposit(amount).finalized,
        pool.finalized_outcome().finalized,
        pool.released().finalized,
        pool.with_success_gate(active).finalized,
        pool.with_fail_gate(active).finalized,
{
}

/// Law: Released is terminal. Every step of the protocol that changes a
/// pool keeps the Released stage once it is reached — in particular a later
/// finalization does not reopen the raised-total comparison.
pub proof fn lemma_released_is_terminal(pool: Pool, amount: u64, active: bool)
    requires
        pool.state == PoolStateKind::Released,
    ensures
        pool.with_deposit(amount).state == PoolStateKind::Released,
        pool.finalized_outcome().state == PoolStateKind::Released,
        pool.released().state == PoolStateKind::Released,
        pool.with_success_gate(active).state == PoolStateKind::Released,
        pool.with_fail_gate(active).state == PoolStateKind::Released,
{
}

/// Law: release runs at most once per pool. A release that was admitted
/// leaves the pool Released, and against a Released pool every further
/// release attempt fails the state check with InvalidState, whatever the
/// vault holds by then — also after a finalization in between, which keeps
/// the Released stage.
pub proof fn lemma_release_only_once(pool: Pool, vault_balance: u64, later_balance: u64)
    requires
        release_check(pool, vault_balance) is Ok,
    ensures
        release_check(pool.released(), later_balance) == Err::<(), UmayError>(
            UmayError::InvalidState,
        ),
        release_check(pool.released().finalized_outcome(), later_balance) == Err::<(), UmayError>(
            UmayError::InvalidState,
        ),
{
}

/// Law: refund is indifferent to the pool's lifecycle. Whether a refund is
/// admitted, and what it pays, depend only on the held balance and the
/// pool's fixed price: two pools that agree on the price give the same
/// answer even when their state, latch or gates differ — in particular a
/// Succeeded or Released pool refuses a refund no more than a Funding one.
pub proof fn lemma_refund_ignores_lifecycle(a: Pool, b: Pool, held_tokens: u64)
    requires
        a.token_price == b.token_price,
    ensures
        refund_check(a, held_tokens) == refund_check(b, held_tokens),
        stable_value(held_tokens, a.token_price) == stable_value(held_tokens, b.token_price),
{
}

} // verus!
