//! The caller-facing operations: chest and claimant initialization and the
//! two transfer paths, each a single atomic state transition over the
//! accounts it names. Every validation is part of the same transition as
//! the mutation: an operation either performs its whole effect or, on any
//! failure, changes nothing.

use crate::account::keys_equal;
use crate::account::ChestAccount;
use crate::account::ErrorType;
use crate::account::InitializeChestDTO;
use crate::account::InitializeUserAccountDTO;
use crate::account::TransferDTO;
use crate::account::UserAccount;
use vstd::prelude::*;

verus! {

/// Call context of `initialize_chest`: the storage slot at the derived
/// chest address together with its native balance, and the authenticated
/// funding identity with its balance. The execution environment has
/// already checked that the slot is the one derived from the request's
/// seed and bump.
#[derive(Clone, Copy, PartialEq, Eq, Debug)]
pub struct InitializeChest {
    /// The record stored at the derived address; `None` while unoccupied.
    pub chest_account: Option<ChestAccount>,
    /// Native balance held at the chest address.
    pub chest_lamports: u64,
    /// The authenticated funding identity (the signer).
    pub authority: [u8; 32],
    /// Native balance held by the funding identity.
    pub authority_lamports: u64,
}

/// The outcome `initialize_chest` owes for a given context and request.
pub open spec fn initialize_chest_result(s: InitializeChest, dto: InitializeChestDTO) -> Result<
    (),
    ErrorType,
> {
    if s.chest_account is Some {
        Err(ErrorType::AlreadyInitialized)
    } else if s.authority_lamports < dto.initial_lamports {
        Err(ErrorType::InsufficientFunds)
    } else if s.chest_lamports + dto.initial_lamports > u64::MAX {
        Err(ErrorType::Overflow)
    } else {
        Ok(())
    }
}

/// The context after `initialize_chest`: on success the slot holds the
/// new record and the initial funds have moved from the funding identity
/// to the chest address; on any failure nothing has changed.
pub open spec fn initialize_chest_next(s: InitializeChest, dto: InitializeChestDTO) -> InitializeChest {
    if initialize_chest_result(s, dto) is Ok {
        InitializeChest {
            chest_account: Some(
                ChestAccount { bump: dto.bump, seed: dto.seed, authority: s.authority },
            ),
            chest_lamports: (s.chest_lamports + dto.initial_lamports) as u64,
            authority: s.authority,
            authority_lamports: (s.authority_lamports - dto.initial_lamports) as u64,
        }
    } else {
        s
    }
}

/// Create a new chest: record the request's bump and seed and the funding
/// identity as the immutable authority, and move the initial funds into
/// the chest address, atomically with the creation.
pub fn initialize_chest(ctx: &mut InitializeChest, dto: &InitializeChestDTO) -> (r: Result<
    (),
    ErrorType,
>)
    ensures
        r == initialize_chest_result(*old(ctx), *dto),
        *final(ctx) == initialize_chest_next(*old(ctx), *dto),
        r is Err ==> *final(ctx) == *old(ctx),
{
    if ctx.chest_account.is_some() {
        return Err(ErrorType::AlreadyInitialized);
    }
    if ctx.authority_lamports < dto.initial_lamports {
        return Err(ErrorType::InsufficientFunds);
    }
    if ctx.chest_lamports > u64::MAX - dto.initial_lamports {
        return Err(ErrorType::Overflow);
    }
    ctx.authority_lamports = ctx.authority_lamports - dto.initial_lamports;
    ctx.chest_lamports = ctx.chest_lamports + dto.initial_lamports;
    ctx.chest_account = Some(
        ChestAccount { bump: dto.bump, seed: dto.seed, authority: ctx.authority },
    );
    Ok(())
}

/// Call context of `initialize_user_account`: the storage slot at the
/// derived claimant address. The execution environment has already checked
/// the derivation and funds the record's storage.
#[derive(Clone, Copy, PartialEq, Eq, Debug)]
pub struct InitializeUserAccount {
    /// The record stored at the derived address; `None` while unoccupied.
    pub user_account: Option<UserAccount>,
}

/// The outcome `initialize_user_account` owes for a given context.
pub open spec fn initialize_user_account_result(
    s: InitializeUserAccount,
    dto: InitializeUserAccountDTO,
) -> Result<(), ErrorType> {
    if s.user_account is Some {
        Err(ErrorType::AlreadyInitialized)
    } else {
        Ok(())
    }
}

/// The context after `initialize_user_account`: on success the slot holds
/// a fresh record with the claim flag unset; on failure nothing changed.
pub open spec fn initialize_user_account_next(
    s: InitializeUserAccount,
    dto: InitializeUserAccountDTO,
) -> InitializeUserAccount {
    if s.user_account is Some {
        s
    } else {
        InitializeUserAccount {
            user_account: Some(
                UserAccount { bump: dto.bump, seed: dto.seed, visited_chest: false },
            ),
        }
    }
}

/// Create a new claimant record, initialized to "unclaimed". Binding to a
/// chest is conventional, established by how the caller built the seeds.
pub fn initialize_user_account(
    ctx: &mut InitializeUserAccount,
    dto: &InitializeUserAccountDTO,
) -> (r: Result<(), ErrorType>)
    ensures
        r == initialize_user_account_result(*old(ctx), *dto),
        *final(ctx) == initialize_user_account_next(*old(ctx), *dto),
        r is Err ==> *final(ctx) == *old(ctx),
        r is Ok ==> final(ctx).user_account == Some(
            UserAccount { bump: dto.bump, seed: dto.seed, visited_chest: false },
        ),
{
    if ctx.user_account.is_some() {
        return Err(ErrorType::AlreadyInitialized);
    }
    ctx.user_account = Some(UserAccount { bump: dto.bump, seed: dto.seed, visited_chest: false });
    Ok(())
}

/// Call context of the native-currency transfer: the chest record and its
/// balance, the claimant record, the destination address's balance, and
/// the authenticated identity that signed the request. The execution
/// environment has already checked both records against their derived
/// addresses.
#[derive(Clone, Copy, PartialEq, Eq, Debug)]
pub struct Transfer {
    /// The chest record funds are drawn from.
    pub from: ChestAccount,
    /// Native balance held at the chest address.
    pub from_lamports: u64,
    /// The claimant record gating the one-time claim.
    pub to: UserAccount,
    /// Native balance held at the destination address.
    pub to_deposit_lamports: u64,
    /// The authenticated identity that signed the request.
    pub signer: [u8; 32],
}

/// Whether the request was signed by the chest's recorded authority.
pub open spec fn transfer_authorized(s: Transfer) -> bool {
    s.signer@ == s.from.authority@
}

/// The outcome the native transfer owes for a given context and amount:
/// success exactly when the signer is the recorded authority, the
/// claimant has not yet claimed, the chest holds the amount, and the
/// destination can absorb it.
pub open spec fn transfer_result(s: Transfer, lamports: u64) -> Result<(), ErrorType> {
    if !transfer_authorized(s) {
        Err(ErrorType::Unauthorized)
    } else if s.to.visited_chest {
        Err(ErrorType::AlreadyFound)
    } else if s.from_lamports < lamports {
        Err(ErrorType::InsufficientFunds)
    } else if s.to_deposit_lamports + lamports > u64::MAX {
        Err(ErrorType::Overflow)
    } else {
        Ok(())
    }
}

/// The context after the native transfer: on success the amount has moved
/// from the chest to the destination and the claim flag is set, as one
/// step; on any failure nothing has changed.
pub open spec fn transfer_next(s: Transfer, lamports: u64) -> Transfer {
    if transfer_result(s, lamports) is Ok {
        Transfer {
            from: s.from,
            from_lamports: (s.from_lamports - lamports) as u64,
            to: UserAccount { bump: s.to.bump, seed: s.to.seed, visited_chest: true },
            to_deposit_lamports: (s.to_deposit_lamports + lamports) as u64,
            signer: s.signer,
        }
    } else {
        s
    }
}

/// Move `dto.lamports` of native currency from the chest to the
/// destination and mark the claimant as having claimed, as a single
/// atomic step: the debit, the credit and the flag flip all happen, or
/// none does.
pub fn transfer(ctx: &mut Transfer, dto: &TransferDTO) -> (r: Result<(), ErrorType>)
    ensures
        r == transfer_result(*old(ctx), dto.lamports),
        *final(ctx) == transfer_next(*old(ctx), dto.lamports),
        r is Ok ==> final(ctx).from_lamports + dto.lamports == old(ctx).from_lamports
            && final(ctx).to_deposit_lamports == old(ctx).to_deposit_lamports + dto.lamports
            && final(ctx).to.visited_chest,
        r is Err ==> *final(ctx) == *old(ctx),
{
    if !keys_equal(&ctx.signer, &ctx.from.authority) {
        return Err(ErrorType::Unauthorized);
    }
    if ctx.to.visited_chest {
        return Err(ErrorType::AlreadyFound);
    }
    if ctx.from_lamports < dto.lamports {
        return Err(ErrorType::InsufficientFunds);
    }
    if ctx.to_deposit_lamports > u64::MAX - dto.lamports {
        return Err(ErrorType::Overflow);
    }
    ctx.from_lamports = ctx.from_lamports - dto.lamports;
    ctx.to_deposit_lamports = ctx.to_deposit_lamports + dto.lamports;
    ctx.to.visited_chest = true;
    Ok(())
}

/// Call context of the token transfer: the mint, the two token-holding
/// sub-accounts, the claimant record and the delegated signer. Ownership
/// and mint membership of the sub-accounts are environment-enforced.
#[derive(Clone, Copy, PartialEq, Eq, Debug)]
pub struct TransferToken {
    /// The token mint both sub-accounts belong to.
    pub mint: [u8; 32],
    /// The chest's token-holding sub-account.
    pub chest_associated_account: [u8; 32],
    /// The claimant's destination token-holding sub-account.
    pub user_associated_account: [u8; 32],
    /// The claimant record gating the one-time claim.
    pub user: UserAccount,
    /// The chest authority, acting as delegated signer for this one call.
    pub authority: [u8; 32],
}

/// The one movement an approved token claim delegates to the external
/// token-transfer collaborator.
#[derive(Clone, Copy, PartialEq, Eq, Debug)]
pub struct TokenTransferOrder {
    /// The sub-account debited.
    pub source: [u8; 32],
    /// The sub-account credited.
    pub destination: [u8; 32],
    /// The identity authorizing the movement.
    pub authority: [u8; 32],
    /// Token units to move.
    pub amount: u64,
}

/// The outcome the token-claim validation owes: the movement to delegate,
/// or the one-time-claim rejection.
pub open spec fn transfer_token_result(s: TransferToken, amount: u64) -> Result<
    TokenTransferOrder,
    ErrorType,
> {
    if s.user.visited_chest {
        Err(ErrorType::AlreadyFound)
    } else {
        Ok(
            TokenTransferOrder {
                source: s.chest_associated_account,
                destination: s.user_associated_account,
                authority: s.authority,
                amount: amount,
            },
        )
    }
}

/// Validate a token claim and, if the claimant has not yet claimed,
/// return the exact movement to delegate to the token-transfer
/// collaborator. The amount is passed through unchecked: rejecting an
/// invalid amount is left to the collaborator, which fails without
/// partial effect.
pub fn transfer_token(ctx: &TransferToken, amount: u64) -> (r: Result<
    TokenTransferOrder,
    ErrorType,
>)
    ensures
        r == transfer_token_result(*ctx, amount),
{
    if ctx.user.visited_chest {
        return Err(ErrorType::AlreadyFound);
    }
    Ok(
        TokenTransferOrder {
            source: ctx.chest_associated_account,
            destination: ctx.user_associated_account,
            authority: ctx.authority,
            amount: amount,
        },
    )
}

/// The outcome the settlement owes once the delegated movement has been
/// attempted: `delivered` reports whether the collaborator performed it.
pub open spec fn settle_token_transfer_result(s: TransferToken, delivered: bool) -> Result<
    (),
    ErrorType,
> {
    if s.user.visited_chest {
        Err(ErrorType::AlreadyFound)
    } else if !delivered {
        Err(ErrorType::DelegatedTransferFailure)
    } else {
        Ok(())
    }
}

/// The context after settlement: the claim flag is set exactly when the
/// delegated movement was performed for a claimant that had not claimed.
pub open spec fn settle_token_transfer_next(s: TransferToken, delivered: bool) -> TransferToken {
    if settle_token_transfer_result(s, delivered) is Ok {
        TransferToken {
            mint: s.mint,
            chest_associated_account: s.chest_associated_account,
            user_associated_account: s.user_associated_account,
            user: UserAccount { bump: s.user.bump, seed: s.user.seed, visited_chest: true },
            authority: s.authority,
        }
    } else {
        s
    }
}

/// Record the outcome of the delegated token movement: set the claim flag
/// on success; on collaborator failure propagate it and leave the flag —
/// and everything else — untouched, so the whole operation aborts without
/// partial effect.
pub fn settle_token_transfer(ctx: &mut TransferToken, delivered: bool) -> (r: Result<
    (),
    ErrorType,
>)
    ensures
        r == settle_token_transfer_result(*old(ctx), delivered),
        *final(ctx) == settle_token_transfer_next(*old(ctx), delivered),
        r is Err ==> *final(ctx) == *old(ctx),
        !delivered ==> r is Err && final(ctx).user.visited_chest == old(ctx).user.visited_chest,
{
    if ctx.user.visited_chest {
        return Err(ErrorType::AlreadyFound);
    }
    if !delivered {
        return Err(ErrorType::DelegatedTransferFailure);
    }
    ctx.user.visited_chest = true;
    Ok(())
}

} // verus!
