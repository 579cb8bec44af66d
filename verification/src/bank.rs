use vstd::prelude::*;

use std::collections::HashMap;

use crate::errors::ErrorCode;
use crate::policy::spec_check_withdraw;
use crate::state::VaultState;

verus! {

/// One owner's vault as the ledger sees it: the stored state record and
/// the vault address's current balance.
#[derive(Clone, Copy, Debug, PartialEq, Eq, Structural)]
pub struct VaultAccount {
    pub state: VaultState,
    pub balance: u64,
}

/// The mathematical model of a [`VaultBank`]: the two host-supplied
/// cost parameters, the registry of state records with their vault
/// balances, and each owner's external funds. Owners are plain `u64`
/// identities; an owner absent from `funds` holds nothing.
#[verifier::ext_equal]
pub ghost struct BankView {
    /// Minimum balance a vault must retain to keep its storage valid.
    pub reserve: u64,
    /// Storage cost of one state record, paid at `initialize` and
    /// reclaimed at `close`.
    pub state_cost: u64,
    pub vaults: Map<u64, VaultAccount>,
    pub funds: Map<u64, u64>,
}

impl BankView {
    /// An owner's external funds; an owner the ledger has never seen
    /// holds nothing.
    pub open spec fn funds_of(self, owner: u64) -> u64 {
        if self.funds.contains_key(owner) {
            self.funds[owner]
        } else {
            0u64
        }
    }

    /// The reserve invariant: every vault that exists holds at least
    /// the minimum reserve. Only `close` may drain below it, and it
    /// destroys the vault in the same step.
    pub open spec fn wf(self) -> bool {
        forall|owner: u64|
            #[trigger] self.vaults.contains_key(owner) ==> self.vaults[owner].balance
                >= self.reserve
    }

    /// What `find` returns: the stored record, or `NotFound`.
    pub open spec fn spec_find(self, owner: u64) -> Result<VaultState, ErrorCode> {
        if self.vaults.contains_key(owner) {
            Ok(self.vaults[owner].state)
        } else {
            Err(ErrorCode::NotFound)
        }
    }

    /// The `initialize` transition. A fresh owner pays the state
    /// record's storage cost plus the vault's minimum reserve out of
    /// external funds; the new vault opens holding exactly the reserve.
    /// An owner that already has a record is rejected, and an owner
    /// whose funds cannot cover the two costs is rejected, unchanged
    /// either way.
    pub open spec fn step_initialize(
        self,
        owner: u64,
        vault_bump: u8,
        state_bump: u8,
    ) -> (BankView, Result<(), ErrorCode>) {
        if self.vaults.contains_key(owner) {
            (self, Err(ErrorCode::AlreadyInitialized))
        } else if self.funds_of(owner) < self.reserve + self.state_cost {
            (self, Err(ErrorCode::InsufficientFunds))
        } else {
            (
                BankView {
                    vaults: self.vaults.insert(
                        owner,
                        VaultAccount {
                            state: VaultState { vault_bump, state_bump },
                            balance: self.reserve,
                        },
                    ),
                    funds: self.funds.insert(
                        owner,
                        (self.funds_of(owner) - self.reserve - self.state_cost) as u64,
                    ),
                    ..self
                },
                Ok(()),
            )
        }
    }

    /// The `deposit` transition: move `amount` from the owner's
    /// external funds into the owner's vault. Rejected when no record
    /// exists or the owner's funds fall short, unchanged either way.
    pub open spec fn step_deposit(self, owner: u64, amount: u64) -> (
        BankView,
        Result<(), ErrorCode>,
    ) {
        if !self.vaults.contains_key(owner) {
            (self, Err(ErrorCode::NotFound))
        } else if self.funds_of(owner) < amount {
            (self, Err(ErrorCode::InsufficientFunds))
        } else {
            (
                BankView {
                    vaults: self.vaults.insert(
                        owner,
                        VaultAccount {
                            state: self.vaults[owner].state,
                            balance: (self.vaults[owner].balance + amount) as u64,
                        },
                    ),
                    funds: self.funds.insert(owner, (self.funds_of(owner) - amount) as u64),
                    ..self
                },
                Ok(()),
            )
        }
    }

    /// The `withdraw` transition: when the withdrawal rule allows it,
    /// move `amount` from the vault back to the owner's external funds;
    /// otherwise reject with the rule's error, unchanged.
    pub open spec fn step_withdraw(self, owner: u64, amount: u64) -> (
        BankView,
        Result<(), ErrorCode>,
    ) {
        if !self.vaults.contains_key(owner) {
            (self, Err(ErrorCode::NotFound))
        } else {
            match spec_check_withdraw(self.vaults[owner].balance, self.reserve, amount) {
                Err(e) => (self, Err(e)),
                Ok(()) => (
                    BankView {
                        vaults: self.vaults.insert(
                            owner,
                            VaultAccount {
                                state: self.vaults[owner].state,
                                balance: (self.vaults[owner].balance - amount) as u64,
                            },
                        ),
                        funds: self.funds.insert(owner, (self.funds_of(owner) + amount) as u64),
                        ..self
                    },
                    Ok(()),
                ),
            }
        }
    }

    /// The `close` transition: drain the vault's entire balance —
    /// reserve included — back to the owner, reclaim the state record's
    /// storage cost, and destroy the record. Fails only when no record
    /// exists.
    pub open spec fn step_close(self, owner: u64) -> (BankView, Result<(), ErrorCode>) {
        if !self.vaults.contains_key(owner) {
            (self, Err(ErrorCode::NotFound))
        } else {
            (
                BankView {
                    vaults: self.vaults.remove(owner),
                    funds: self.funds.insert(
                        owner,
                        (self.funds_of(owner) + self.vaults[owner].balance + self.state_cost) as u64,
                    ),
                    ..self
                },
                Ok(()),
            )
        }
    }

    /// The `fund` transition: external income credits the owner's
    /// funds; the vaults are untouched.
    pub open spec fn step_fund(self, owner: u64, amount: u64) -> BankView {
        BankView { funds: self.funds.insert(owner, (self.funds_of(owner) + amount) as u64), ..self }
    }
}

/// The vault system: one registry of per-owner state records together
/// with an in-memory ledger of balances. The host environment hands in
/// the two cost parameters and the derivation bumps, authenticates
/// callers — an `owner` argument is an already-authenticated identity —
/// and serializes invocations per owner; every operation here is atomic
/// and either applies fully or leaves the system unchanged.
pub struct VaultBank {
    reserve: u64,
    state_cost: u64,
    vaults: HashMap<u64, VaultAccount>,
    funds: HashMap<u64, u64>,
}

impl View for VaultBank {
    type V = BankView;

    closed spec fn view(&self) -> BankView {
        BankView {
            reserve: self.reserve,
            state_cost: self.state_cost,
            vaults: self.vaults@,
            funds: self.funds@,
        }
    }
}

impl VaultBank {
    /// An empty system with the host-supplied minimum reserve for a
    /// vault address and storage cost for a state record.
    pub fn new(reserve: u64, state_cost: u64) -> (bank: VaultBank)
        ensures
            bank@.reserve == reserve,
            bank@.state_cost == state_cost,
            bank@.vaults == Map::<u64, VaultAccount>::empty(),
            bank@.funds == Map::<u64, u64>::empty(),
    {
        VaultBank { reserve, state_cost, vaults: HashMap::new(), funds: HashMap::new() }
    }

    /// The minimum balance every open vault must retain.
    pub fn minimum_reserve(&self) -> (r: u64)
        ensures
            r == self@.reserve,
    {
        self.reserve
    }

    /// An owner's external funds.
    pub fn funds_balance(&self, owner: u64) -> (r: u64)
        ensures
            r == self@.funds_of(owner),
    {
        match self.funds.get(&owner) {
            Some(v) => *v,
            None => 0,
        }
    }

    /// The balance of an owner's vault, or `None` when the owner has no
    /// vault.
    pub fn vault_balance(&self, owner: u64) -> (r: Option<u64>)
        ensures
            r == (if self@.vaults.contains_key(owner) {
                Some(self@.vaults[owner].balance)
            } else {
                None::<u64>
            }),
    {
        match self.vaults.get(&owner) {
            Some(acct) => Some(acct.balance),
            None => None,
        }
    }

    /// Looks up an owner's state record.
    pub fn find(&self, owner: u64) -> (r: Result<VaultState, ErrorCode>)
        ensures
            r == self@.spec_find(owner),
    {
        match self.vaults.get(&owner) {
            Some(acct) => Ok(acct.state),
            None => Err(ErrorCode::NotFound),
        }
    }

    /// Credits an owner's external funds: income arriving from outside
    /// the vault system.
    pub fn fund(&mut self, owner: u64, amount: u64)
        requires
            old(self)@.funds_of(owner) + amount <= u64::MAX,
        ensures
            final(self)@ == old(self)@.step_fund(owner, amount),
    {
        let have = self.funds_balance(owner);
        self.funds.insert(owner, have + amount);
    }

    /// Opens a vault for `owner` with the bumps the host derived for
    /// it, funding the new vault with exactly the minimum reserve and
    /// paying the state record's storage cost.
    pub fn initialize(&mut self, owner: u64, vault_bump: u8, state_bump: u8) -> (r: Result<
        (),
        ErrorCode,
    >)
        ensures
            final(self)@ == old(self)@.step_initialize(owner, vault_bump, state_bump).0,
            r == old(self)@.step_initialize(owner, vault_bump, state_bump).1,
    {
        if self.vaults.contains_key(&owner) {
            return Err(ErrorCode::AlreadyInitialized);
        }
        let needed = match self.reserve.checked_add(self.state_cost) {
            Some(n) => n,
            None => {
                return Err(ErrorCode::InsufficientFunds);
            },
        };
        let have = self.funds_balance(owner);
        if have < needed {
            return Err(ErrorCode::InsufficientFunds);
        }
        self.funds.insert(owner, have - needed);
        self.vaults.insert(
            owner,
            VaultAccount { state: VaultState { vault_bump, state_bump }, balance: self.reserve },
        );
        Ok(())
    }

    /// Moves `amount` of the owner's external funds into the owner's
    /// vault.
    pub fn deposit(&mut self, owner: u64, amount: u64) -> (r: Result<(), ErrorCode>)
        requires
            amount > 0,
            old(self)@.vaults.contains_key(owner) ==> old(self)@.vaults[owner].balance + amount
                <= u64::MAX,
        ensures
            final(self)@ == old(self)@.step_deposit(owner, amount).0,
            r == old(self)@.step_deposit(owner, amount).1,
    {
        let acct = match self.vaults.get(&owner) {
            Some(a) => *a,
            None => {
                return Err(ErrorCode::NotFound);
            },
        };
        let have = self.funds_balance(owner);
        if have < amount {
            return Err(ErrorCode::InsufficientFunds);
        }
        self.funds.insert(owner, have - amount);
        self.vaults.insert(
            owner,
            VaultAccount { state: acct.state, balance: acct.balance + amount },
        );
        Ok(())
    }

    /// Moves `amount` out of the owner's vault back to the owner's
    /// external funds, refusing any amount that would overdraw the
    /// vault or strand it below the minimum reserve.
    pub fn withdraw(&mut self, owner: u64, amount: u64) -> (r: Result<(), ErrorCode>)
        requires
            amount > 0,
            old(self)@.funds_of(owner) + amount <= u64::MAX,
        ensures
            final(self)@ == old(self)@.step_withdraw(owner, amount).0,
            r == old(self)@.step_withdraw(owner, amount).1,
    {
        let acct = match self.vaults.get(&owner) {
            Some(a) => *a,
            None => {
                return Err(ErrorCode::NotFound);
            },
        };
        if amount > acct.balance {
            return Err(ErrorCode::InsufficientVaultBalance);
        }
        if acct.balance - amount < self.reserve {
            return Err(ErrorCode::BelowRentExemption);
        }
        let have = self.funds_balance(owner);
        self.vaults.insert(
            owner,
            VaultAccount { state: acct.state, balance: acct.balance - amount },
        );
        self.funds.insert(owner, have + amount);
        Ok(())
    }

    /// Drains the owner's vault completely — reserve included — back to
    /// the owner, reclaims the state record's storage cost, and
    /// destroys the record.
    pub fn close(&mut self, owner: u64) -> (r: Result<(), ErrorCode>)
        requires
            old(self)@.vaults.contains_key(owner) ==> old(self)@.funds_of(owner)
                + old(self)@.vaults[owner].balance + old(self)@.state_cost <= u64::MAX,
        ensures
            final(self)@ == old(self)@.step_close(owner).0,
            r == old(self)@.step_close(owner).1,
    {
        let acct = match self.vaults.remove(&owner) {
            Some(a) => a,
            None => {
                return Err(ErrorCode::NotFound);
            },
        };
        let have = self.funds_balance(owner);
        self.funds.insert(owner, have + acct.balance + self.state_cost);
        Ok(())
    }
}

} // verus!
