use vstd::prelude::*;

use crate::bank::BankView;
use crate::errors::ErrorCode;
use crate::state::VaultState;

verus! {

/// Initializing a fresh owner and then looking the owner up finds the
/// newly written record carrying exactly the bumps that were handed in,
/// and the owner's vault holds exactly the minimum reserve.
pub proof fn lemma_initialize_then_find(v: BankView, owner: u64, vault_bump: u8, state_bump: u8)
    requires
        v.step_initialize(owner, vault_bump, state_bump).1 is Ok,
    ensures
        ({
            let v1 = v.step_initialize(owner, vault_bump, state_bump).0;
            &&& v1.spec_find(owner) == Ok::<VaultState, ErrorCode>(
                VaultState { vault_bump, state_bump },
            )
            &&& v1.vaults[owner].balance == v.reserve
        }),
{
}

/// A second `initialize` for the same owner fails with
/// `AlreadyInitialized` and moves no funds: the system after the second
/// call is exactly the system before it.
pub proof fn lemma_initialize_twice(
    v: BankView,
    owner: u64,
    vault_bump: u8,
    state_bump: u8,
    vault_bump2: u8,
    state_bump2: u8,
)
    requires
        v.step_initialize(owner, vault_bump, state_bump).1 is Ok,
    ensures
        ({
            let v1 = v.step_initialize(owner, vault_bump, state_bump).0;
            &&& v1.step_initialize(owner, vault_bump2, state_bump2).1 == Err::<(), ErrorCode>(
                ErrorCode::AlreadyInitialized,
            )
            &&& v1.step_initialize(owner, vault_bump2, state_bump2).0 == v1
        }),
{
}

/// Any withdrawal of at most `balance - reserve` succeeds and leaves
/// the vault holding exactly `balance - amount`.
pub proof fn lemma_withdraw_allowed(v: BankView, owner: u64, amount: u64)
    requires
        v.vaults.contains_key(owner),
        0 < amount,
        amount <= v.vaults[owner].balance - v.reserve,
    ensures
        v.step_withdraw(owner, amount).1 is Ok,
        v.step_withdraw(owner, amount).0.vaults[owner].balance == v.vaults[owner].balance - amount,
{
}

/// A withdrawal above `balance - reserve` but within the balance is
/// refused for breaching the reserve floor, and nothing changes.
pub proof fn lemma_withdraw_below_reserve(v: BankView, owner: u64, amount: u64)
    requires
        v.vaults.contains_key(owner),
        v.vaults[owner].balance - v.reserve < amount,
        amount <= v.vaults[owner].balance,
    ensures
        v.step_withdraw(owner, amount).1 == Err::<(), ErrorCode>(ErrorCode::BelowRentExemption),
        v.step_withdraw(owner, amount).0 == v,
{
}

/// A withdrawal above the vault's balance is refused as an overdraw,
/// and nothing changes.
pub proof fn lemma_withdraw_overdraw(v: BankView, owner: u64, amount: u64)
    requires
        v.vaults.contains_key(owner),
        amount > v.vaults[owner].balance,
    ensures
        v.step_withdraw(owner, amount).1 == Err::<(), ErrorCode>(
            ErrorCode::InsufficientVaultBalance,
        ),
        v.step_withdraw(owner, amount).0 == v,
{
}

/// Round trip: a deposit followed by a withdrawal of the same amount
/// succeeds — the reserve was already covered before the deposit — and
/// returns the vault to its prior balance.
pub proof fn lemma_deposit_withdraw_round_trip(v: BankView, owner: u64, amount: u64)
    requires
        v.wf(),
        v.vaults.contains_key(owner),
        0 < amount,
        v.vaults[owner].balance + amount <= u64::MAX,
        v.step_deposit(owner, amount).1 is Ok,
    ensures
        ({
            let v1 = v.step_deposit(owner, amount).0;
            &&& v1.step_withdraw(owner, amount).1 is Ok
            &&& v1.step_withdraw(owner, amount).0.vaults[owner].balance == v.vaults[owner].balance
        }),
{
}

/// `close` succeeds whenever a state record exists — whatever the
/// vault's balance, even below the reserve — and afterwards the owner
/// is no longer found.
pub proof fn lemma_close_then_find(v: BankView, owner: u64)
    requires
        v.vaults.contains_key(owner),
    ensures
        v.step_close(owner).1 is Ok,
        v.step_close(owner).0.spec_find(owner) == Err::<VaultState, ErrorCode>(ErrorCode::NotFound),
{
}

/// `initialize` preserves the reserve invariant: the new vault opens at
/// exactly the reserve, and every other vault is untouched.
pub proof fn lemma_initialize_preserves_wf(v: BankView, owner: u64, vault_bump: u8, state_bump: u8)
    requires
        v.wf(),
    ensures
        v.step_initialize(owner, vault_bump, state_bump).0.wf(),
{
    let v1 = v.step_initialize(owner, vault_bump, state_bump).0;
    assert forall|o: u64| #[trigger] v1.vaults.contains_key(o) implies v1.vaults[o].balance
        >= v1.reserve by {
        if o != owner {
            assert(v.vaults.contains_key(o));
        }
    }
}

/// `deposit` preserves the reserve invariant: a vault's balance only
/// grows, and every other vault is untouched.
pub proof fn lemma_deposit_preserves_wf(v: BankView, owner: u64, amount: u64)
    requires
        v.wf(),
        v.vaults.contains_key(owner) ==> v.vaults[owner].balance + amount <= u64::MAX,
    ensures
        v.step_deposit(owner, amount).0.wf(),
{
    let v1 = v.step_deposit(owner, amount).0;
    assert forall|o: u64| #[trigger] v1.vaults.contains_key(o) implies v1.vaults[o].balance
        >= v1.reserve by {
        if o != owner {
            assert(v.vaults.contains_key(o));
        }
    }
}

/// `withdraw` preserves the reserve invariant: an allowed withdrawal
/// stops at the reserve floor, a refused one changes nothing.
pub proof fn lemma_withdraw_preserves_wf(v: BankView, owner: u64, amount: u64)
    requires
        v.wf(),
    ensures
        v.step_withdraw(owner, amount).0.wf(),
{
    let v1 = v.step_withdraw(owner, amount).0;
    assert forall|o: u64| #[trigger] v1.vaults.contains_key(o) implies v1.vaults[o].balance
        >= v1.reserve by {
        if o != owner {
            assert(v.vaults.contains_key(o));
        }
    }
}

/// `close` preserves the reserve invariant: it only removes a vault.
pub proof fn lemma_close_preserves_wf(v: BankView, owner: u64)
    requires
        v.wf(),
    ensures
        v.step_close(owner).0.wf(),
{
    let v1 = v.step_close(owner).0;
    assert forall|o: u64| #[trigger] v1.vaults.contains_key(o) implies v1.vaults[o].balance
        >= v1.reserve by {
        assert(v.vaults.contains_key(o));
    }
}

} // verus!
