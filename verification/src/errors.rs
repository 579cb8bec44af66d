use vstd::prelude::*;

verus! {

/// The reasons a vault operation can fail. Every operation is atomic:
/// a failed call leaves the whole system exactly as it was.
#[derive(Clone, Copy, Debug, PartialEq, Eq, Structural)]
pub enum ErrorCode {
    /// `initialize` was called while a state record already exists for
    /// the owner; not retryable without a `close` first.
    AlreadyInitialized,
    /// The operation referenced an owner that has no state record;
    /// the caller must `initialize` first.
    NotFound,
    /// The owner's external funds cannot cover a required transfer;
    /// retryable after funding.
    InsufficientFunds,
    /// A withdrawal asked for more than the vault holds.
    InsufficientVaultBalance,
    /// A withdrawal would leave the vault below the minimum reserve its
    /// storage needs to stay valid.
    BelowRentExemption,
    /// A derivation proof did not match the stored bumps; fatal, never
    /// retried.
    AuthorizationFailure,
}

} // verus!
