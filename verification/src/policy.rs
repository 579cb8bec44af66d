use vstd::prelude::*;

use crate::errors::ErrorCode;
use crate::state::VaultState;

verus! {

/// The withdrawal rule, checked in this order: an amount above the
/// current balance is an overdraw; an amount above `balance - reserve`
/// would strand the vault below its minimum reserve; anything else is
/// allowed. The boundary is inclusive: withdrawing exactly
/// `balance - reserve` succeeds.
pub open spec fn spec_check_withdraw(balance: u64, reserve: u64, amount: u64) -> Result<
    (),
    ErrorCode,
> {
    if amount > balance {
        Err(ErrorCode::InsufficientVaultBalance)
    } else if amount > balance - reserve {
        Err(ErrorCode::BelowRentExemption)
    } else {
        Ok(())
    }
}

/// Decides whether a withdrawal of `amount` from a vault holding
/// `balance` is allowed under a minimum reserve of `reserve`.
pub fn check_withdraw(balance: u64, reserve: u64, amount: u64) -> (r: Result<(), ErrorCode>)
    ensures
        r == spec_check_withdraw(balance, reserve, amount),
{
    if amount > balance {
        Err(ErrorCode::InsufficientVaultBalance)
    } else if balance - amount < reserve {
        Err(ErrorCode::BelowRentExemption)
    } else {
        Ok(())
    }
}

/// The largest amount `check_withdraw` allows: everything above the
/// reserve, or nothing when the balance is already at or below it.
pub fn max_withdrawal(balance: u64, reserve: u64) -> (r: u64)
    ensures
        r == (if balance >= reserve {
            (balance - reserve) as u64
        } else {
            0u64
        }),
        forall|amount: u64| 0 < amount <= r ==> spec_check_withdraw(balance, reserve, amount) is Ok,
        forall|amount: u64| amount > r ==> spec_check_withdraw(balance, reserve, amount) is Err,
{
    if balance >= reserve {
        balance - reserve
    } else {
        0
    }
}

/// Whether a freshly derived pair of bumps matches the pair stored in
/// the state record.
pub open spec fn spec_authorized(
    state: VaultState,
    derived_state_bump: u8,
    derived_vault_bump: u8,
) -> bool {
    derived_state_bump == state.state_bump && derived_vault_bump == state.vault_bump
}

/// Re-verifies a derivation proof against the stored bumps before any
/// vault-side transfer: the host re-derives the owner's addresses and
/// the result must match what `initialize` recorded. A mismatch is a
/// fatal authorization failure.
pub fn authorize(state: &VaultState, derived_state_bump: u8, derived_vault_bump: u8) -> (r: Result<
    (),
    ErrorCode,
>)
    ensures
        r is Ok <==> spec_authorized(*state, derived_state_bump, derived_vault_bump),
        r is Err ==> r == Err::<(), ErrorCode>(ErrorCode::AuthorizationFailure),
{
    if derived_state_bump == state.state_bump && derived_vault_bump == state.vault_bump {
        Ok(())
    } else {
        Err(ErrorCode::AuthorizationFailure)
    }
}

} // verus!
