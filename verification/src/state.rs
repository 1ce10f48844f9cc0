use vstd::prelude::*;

verus! {

/// An account identity on the hosting ledger.
///
/// A pool's own record, its claim-token mint and its custody vault are
/// derived deterministically from the pool's index (the factory itself is a
/// singleton), so distinct indices yield distinct resources and no directory
/// of created accounts is needed. Identities that the environment hands in
/// (wallets, the stablecoin mint) are carried as opaque tags.
#[derive(Clone, Copy, Debug, PartialEq, Eq, Structural)]
pub enum AccountId {
    /// An identity supplied by the environment: a wallet or an existing mint.
    External(u64),
    /// The singleton factory record.
    FactoryAccount,
    /// The record of the pool with the given index.
    PoolAccount(u64),
    /// The claim-token mint dedicated to the pool with the given index.
    ShareMint(u64),
    /// The stablecoin custody vault of the pool with the given index.
    UsdtVault(u64),
}

/// The singleton registry. It holds the admin authority, the accepted
/// stablecoin mint, and the number of pools created so far; that counter is
/// also the index the next pool will receive.
#[derive(Clone, Copy, Debug, PartialEq, Eq, Structural)]
pub struct Factory {
    /// The authority allowed to run privileged operations.
    pub admin: AccountId,
    /// The accepted deposit currency; immutable after creation.
    pub usdt_mint: AccountId,
    /// Strictly increasing count of pools created; never decremented.
    pub pool_count: u64,
    /// The derivation bump byte of the factory record, chosen by the environment.
    pub bump: u8,
}

impl Factory {
    /// The factory after one pool creation: only the counter moves, up by one.
    pub open spec fn with_new_pool(self) -> Factory {
        Factory { pool_count: (self.pool_count + 1) as u64, ..self }
    }
}

/// The lifecycle stage of a pool. A pool starts Funding; finalization
/// freezes it to Succeeded or Failed by comparing the raised total against
/// the target; Released records that a succeeded pool's vault was paid out.
#[derive(Clone, Copy, Debug, PartialEq, Eq, Structural)]
pub enum PoolStateKind {
    Funding,
    Succeeded,
    Failed,
    Released,
}

impl PoolStateKind {
    /// The byte under which this stage is persisted.
    pub open spec fn code_spec(self) -> u8 {
        match self {
            PoolStateKind::Funding => 0,
            PoolStateKind::Succeeded => 1,
            PoolStateKind::Failed => 2,
            PoolStateKind::Released => 3,
        }
    }

    /// Encodes the stage as its persisted byte.
    pub fn code(&self) -> (c: u8)
        ensures
            c == self.code_spec(),
    {
        match self {
            PoolStateKind::Funding => 0,
            PoolStateKind::Succeeded => 1,
            PoolStateKind::Failed => 2,
            PoolStateKind::Released => 3,
        }
    }
}

impl From<u8> for PoolStateKind {
    /// Decodes a persisted state byte; any unknown byte reads as Funding.
    fn from(v: u8) -> (r: Self) {
        match v {
            1 => PoolStateKind::Succeeded,
            2 => PoolStateKind::Failed,
            3 => PoolStateKind::Released,
            _ => PoolStateKind::Funding,
        }
    }
}

impl vstd::std_specs::convert::FromSpecImpl<u8> for PoolStateKind {
    open spec fn obeys_from_spec() -> bool {
        true
    }

    open spec fn from_spec(v: u8) -> Self {
        if v == 1 {
            PoolStateKind::Succeeded
        } else if v == 2 {
            PoolStateKind::Failed
        } else if v == 3 {
            PoolStateKind::Released
        } else {
            PoolStateKind::Funding
        }
    }
}

/// One funding campaign: its deposit target and deadline, its pricing
/// parameters, its lifecycle state, and references to its dedicated
/// claim-token mint and custody vault.
#[derive(Clone, Copy, Debug, PartialEq, Eq, Structural)]
pub struct Pool {
    /// Back-reference to the factory; immutable.
    pub factory: AccountId,
    /// Destination wallet for the full release on success; immutable.
    pub company_wallet: AccountId,
    /// This pool's dedicated claim-token mint; immutable.
    pub share_mint: AccountId,
    /// This pool's stablecoin custody vault; immutable.
    pub usdt_vault: AccountId,
    /// The deposit goal the raised total is compared against at finalization.
    pub target_amount: u64,
    /// Timestamp at and after which deposits are rejected.
    pub deadline: i64,
    /// Basis-point ratio paid in a success-scenario redemption.
    pub success_return_bps: u16,
    /// Basis-point ratio paid in a fail-scenario redemption.
    pub fail_return_bps: u16,
    /// Stablecoin amount per whole claim token; positive, fixed at creation.
    pub token_price: u64,
    /// Fixed-point scale of the claim token; always 18.
    pub mint_decimals: u8,
    /// Current lifecycle stage.
    pub state: PoolStateKind,
    /// One-way latch set by finalization; never cleared.
    pub finalized: bool,
    /// Admin-controlled gate for success-scenario redemption.
    pub success_payout_active: bool,
    /// Admin-controlled gate for fail-scenario redemption.
    pub fail_payout_active: bool,
    /// Running sum of accepted deposits; grows only, only through invest.
    pub total_invested: u64,
    /// Unique index assigned from the factory's counter at creation; immutable.
    pub index: u64,
    /// The derivation bump byte of the pool record, chosen by the environment.
    pub bump: u8,
}

impl Pool {
    /// Structural soundness of a pool record: the price is usable as a
    /// division operand and the claim-token scale is the fixed 18.
    pub open spec fn wf(self) -> bool {
        &&& self.token_price > 0
        &&& self.mint_decimals == 18
    }

    /// The pool after a deposit of `amount` is accepted: the raised total
    /// grows by the amount and nothing else moves.
    pub open spec fn with_deposit(self, amount: u64) -> Pool {
        Pool { total_invested: (self.total_invested + amount) as u64, ..self }
    }

    /// The pool after finalization: the latch is set and the outcome is the
    /// raised-total comparison. Released is terminal — transitions run
    /// forward only — so a pool that has already paid out keeps that stage.
    pub open spec fn finalized_outcome(self) -> Pool {
        Pool {
            finalized: true,
            state: if self.state == PoolStateKind::Released {
                PoolStateKind::Released
            } else if self.total_invested >= self.target_amount {
                PoolStateKind::Succeeded
            } else {
                PoolStateKind::Failed
            },
            ..self
        }
    }

    /// The pool after its vault was released to the beneficiary.
    pub open spec fn released(self) -> Pool {
        Pool { state: PoolStateKind::Released, ..self }
    }

    /// The pool with its success-scenario gate set to `active`.
    pub open spec fn with_success_gate(self, active: bool) -> Pool {
        Pool { success_payout_active: active, ..self }
    }

    /// The pool with its fail-scenario gate set to `active`.
    pub open spec fn with_fail_gate(self, active: bool) -> Pool {
        Pool { fail_payout_active: active, ..self }
    }
}

} // verus!
