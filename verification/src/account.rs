//! Account records, request payloads and the error taxonomy.

use vstd::prelude::*;

verus! {

/// The funding account: holds the value pool to be claimed.
///
/// Its address is always derived from `seed` plus the disambiguation byte
/// `bump`, so a stored record can be re-verified against its own claimed
/// derivation (see `address::chest_address_matches`). `authority` is the
/// sole identity permitted to authorize outbound transfers.
#[derive(Clone, Copy, PartialEq, Eq, Debug)]
pub struct ChestAccount {
    pub bump: u8,
    pub seed: [u8; 8],
    pub authority: [u8; 32],
}

/// The per-participant record tracking whether that participant has claimed.
///
/// `visited_chest` is monotonic: `false` at creation, set to `true` exactly
/// once by a successful transfer, never reset.
#[derive(Clone, Copy, PartialEq, Eq, Debug)]
pub struct UserAccount {
    pub bump: u8,
    pub seed: [[u8; 32]; 2],
    pub visited_chest: bool,
}

/// Request payload for the native-currency transfer operation.
#[derive(Clone, Copy, PartialEq, Eq, Debug)]
pub struct TransferDTO {
    pub lamports: u64,
}

/// Request payload for chest creation.
#[derive(Clone, Copy, PartialEq, Eq, Debug)]
pub struct InitializeChestDTO {
    pub bump: u8,
    pub seed: [u8; 8],
    pub initial_lamports: u64,
}

/// Request payload for claimant-account creation.
#[derive(Clone, Copy, PartialEq, Eq, Debug)]
pub struct InitializeUserAccountDTO {
    pub bump: u8,
    pub seed: [[u8; 32]; 2],
}

/// The failure taxonomy of the claim mechanism.
#[derive(Clone, Copy, PartialEq, Eq, Debug)]
pub enum ErrorType {
    /// Attempted creation at an address already occupied.
    AlreadyInitialized,
    /// Signer does not match the chest's recorded authority.
    Unauthorized,
    /// The claimant has already claimed: the one-time-claim gate.
    AlreadyFound,
    /// Chest balance insufficient for the requested debit.
    InsufficientFunds,
    /// Crediting the destination would exceed the representable balance.
    Overflow,
    /// The delegated token-transfer collaborator rejected the movement.
    DelegatedTransferFailure,
}

/// Byte-for-byte equality of two 32-byte identifiers.
pub fn keys_equal(a: &[u8; 32], b: &[u8; 32]) -> (r: bool)
    ensures
        r == (a@ == b@),
{
    let mut i: usize = 0;
    while i < 32
        invariant
            i <= 32,
            forall|j: int| 0 <= j < i ==> a@[j] == b@[j],
        decreases 32 - i,
    {
        if a[i] != b[i] {
            return false;
        }
        i += 1;
    }
    proof {
        assert(a@ =~= b@);
    }
    true
}

} // verus!
