//! The laws of the claim mechanism, stated and proved over the same
//! mathematical transitions that specify the operations.

use crate::account::ErrorType;
use crate::account::InitializeChestDTO;
use crate::account::InitializeUserAccountDTO;
use crate::address::derivation_matches;
use crate::ops::initialize_chest_next;
use crate::ops::initialize_chest_result;
use crate::ops::initialize_user_account_next;
use crate::ops::initialize_user_account_result;
use crate::ops::settle_token_transfer_next;
use crate::ops::settle_token_transfer_result;
use crate::ops::transfer_next;
use crate::ops::transfer_result;
use crate::ops::transfer_token_result;
use crate::ops::InitializeChest;
use crate::ops::InitializeUserAccount;
use crate::ops::TokenTransferOrder;
use crate::ops::Transfer;
use crate::ops::TransferToken;
use vstd::prelude::*;

verus! {

/// Determinism of address derivation: the derivation contract pins its
/// result, so any two results obtained for the same seed views under the
/// same program identity are equal.
pub proof fn lemma_derive_deterministic(
    r1: Option<([u8; 32], u8)>,
    r2: Option<([u8; 32], u8)>,
    seeds: Seq<Seq<u8>>,
    program_id: Seq<u8>,
)
    requires
        derivation_matches(r1, seeds, program_id),
        derivation_matches(r2, seeds, program_id),
    ensures
        r1 == r2,
{
    match (r1, r2) {
        (Option::Some((a1, b1)), Option::Some((a2, b2))) => {
            assert(a1@ == a2@);
            assert(a1 =~= a2);
        },
        _ => {},
    }
}

/// One-time claim: after a successful native transfer, any second
/// transfer attempt against the same claimant fails with `AlreadyFound`
/// and leaves the chest and destination balances unchanged from after the
/// first transfer.
pub proof fn lemma_one_time_claim(s: Transfer, first: u64, second: u64)
    requires
        transfer_result(s, first) is Ok,
    ensures
        transfer_result(transfer_next(s, first), second) == Err::<(), ErrorType>(
            ErrorType::AlreadyFound,
        ),
        transfer_next(transfer_next(s, first), second) == transfer_next(s, first),
{
}

/// Atomic balance conservation: a successful native transfer of `lamports`
/// debits the chest and credits the destination by exactly that amount,
/// conserving their sum; an amount that would violate the checked
/// arithmetic bounds on either side fails the whole operation with no
/// balance change, as does any other failure.
pub proof fn lemma_balance_conservation(s: Transfer, lamports: u64)
    ensures
        transfer_result(s, lamports) is Ok ==> transfer_next(s, lamports).from_lamports + lamports
            == s.from_lamports && transfer_next(s, lamports).to_deposit_lamports
            == s.to_deposit_lamports + lamports,
        transfer_result(s, lamports) is Ok ==> transfer_next(s, lamports).from_lamports
            + transfer_next(s, lamports).to_deposit_lamports == s.from_lamports
            + s.to_deposit_lamports,
        s.from_lamports < lamports ==> transfer_result(s, lamports) is Err,
        s.to_deposit_lamports + lamports > u64::MAX ==> transfer_result(s, lamports) is Err,
        transfer_result(s, lamports) is Err ==> transfer_next(s, lamports) == s,
{
}

/// Authority gating: a transfer signed by any identity other than the
/// chest's recorded authority fails with `Unauthorized` and produces no
/// state change.
pub proof fn lemma_authority_gating(s: Transfer, lamports: u64)
    requires
        s.signer@ != s.from.authority@,
    ensures
        transfer_result(s, lamports) == Err::<(), ErrorType>(ErrorType::Unauthorized),
        transfer_next(s, lamports) == s,
{
}

/// Idempotent failure: creating a chest at an already-occupied address
/// fails with `AlreadyInitialized` and never mutates the existing record.
pub proof fn lemma_reinitialize_chest_fails(s: InitializeChest, dto: InitializeChestDTO)
    requires
        s.chest_account is Some,
    ensures
        initialize_chest_result(s, dto) == Err::<(), ErrorType>(ErrorType::AlreadyInitialized),
        initialize_chest_next(s, dto) == s,
{
}

/// Idempotent failure: creating a claimant record at an already-occupied
/// address fails with `AlreadyInitialized` and never mutates the existing
/// record.
pub proof fn lemma_reinitialize_user_account_fails(
    s: InitializeUserAccount,
    dto: InitializeUserAccountDTO,
)
    requires
        s.user_account is Some,
    ensures
        initialize_user_account_result(s, dto) == Err::<(), ErrorType>(
            ErrorType::AlreadyInitialized,
        ),
        initialize_user_account_next(s, dto) == s,
{
}

/// One-time claim on the token path: once a delegated movement has been
/// settled successfully, any further token claim for the same claimant is
/// rejected with `AlreadyFound`.
pub proof fn lemma_token_one_time_claim(s: TransferToken, amount: u64)
    requires
        !s.user.visited_chest,
    ensures
        transfer_token_result(settle_token_transfer_next(s, true), amount) == Err::<
            TokenTransferOrder,
            ErrorType,
        >(ErrorType::AlreadyFound),
{
}

/// Token settlement atomicity: a failed delegated movement leaves the
/// claim flag — and the whole context — untouched.
pub proof fn lemma_token_failure_keeps_flag(s: TransferToken)
    ensures
        settle_token_transfer_result(s, false) is Err,
        settle_token_transfer_next(s, false) == s,
{
}

/// The claim flag is monotonic: no transition, on either transfer path,
/// ever resets a set flag.
pub proof fn lemma_claim_flag_monotonic(
    s: Transfer,
    t: TransferToken,
    lamports: u64,
    delivered: bool,
)
    ensures
        s.to.visited_chest ==> transfer_next(s, lamports).to.visited_chest,
        t.user.visited_chest ==> settle_token_transfer_next(t, delivered).user.visited_chest,
{
}

} // verus!
