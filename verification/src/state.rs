use vstd::prelude::*;

verus! {

/// The per-owner state record. It stores the two derivation bumps that
/// make the owner's addresses deterministic: `state_bump` disambiguates
/// the state record's own address, `vault_bump` the fund-holding vault
/// address derived from it. The two are independent values and must
/// never be conflated.
#[derive(Clone, Copy, Debug, PartialEq, Eq, Structural)]
pub struct VaultState {
    pub vault_bump: u8,
    pub state_bump: u8,
}

} // verus!
