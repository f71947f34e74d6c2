//! A model of the external token ledger.
//!
//! The ledger owns the asset class's authority slots and every holder's token
//! account. The protocol consumes it through a small interface — mint, freeze,
//! authority transfer, transfer, burn — and the ledger enforces, independently
//! of the core, that the signer of each call currently holds the relevant
//! authority and that frozen accounts stay untouched. This module states those
//! rules as spec-level transitions and implements them over the model state.

use vstd::prelude::*;
use crate::identity::Identity;

verus! {

/// Which authority slot of an asset class an authority transfer addresses.
#[derive(Clone, Copy, Debug, PartialEq, Eq)]
pub enum AuthorityKind {
    MintTokens,
    FreezeAccount,
}

/// The failures the ledger reports; the core surfaces them unmodified.
#[derive(Clone, Copy, Debug, PartialEq, Eq)]
pub enum LedgerError {
    /// The signer does not hold the authority the call needs.
    AuthorityMismatch,
    /// The touched token account is frozen.
    AccountFrozen,
    /// A balance or the supply would overflow.
    ArithmeticOverflow,
    /// A debit exceeds the account's balance.
    InsufficientFunds,
}

/// The ledger-side state of one asset class: who may mint, who may freeze,
/// and how many units exist.
pub struct MintState {
    pub mint_authority: Identity,
    pub freeze_authority: Identity,
    pub supply: u64,
}

/// The ledger-side state of one holder's token account for one asset class.
pub struct TokenAccountState {
    /// The identity entitled to spend from this account.
    pub owner: Identity,
    pub amount: u64,
    pub frozen: bool,
}

/// Mathematical view of an asset class.
#[verifier::ext_equal]
pub struct MintStateView {
    pub mint_authority: Seq<u8>,
    pub freeze_authority: Seq<u8>,
    pub supply: u64,
}

/// Mathematical view of a holder's token account.
#[verifier::ext_equal]
pub struct TokenAccountStateView {
    pub owner: Seq<u8>,
    pub amount: u64,
    pub frozen: bool,
}

impl View for MintState {
    type V = MintStateView;

    open spec fn view(&self) -> MintStateView {
        MintStateView {
            mint_authority: self.mint_authority@,
            freeze_authority: self.freeze_authority@,
            supply: self.supply,
        }
    }
}

impl View for TokenAccountState {
    type V = TokenAccountStateView;

    open spec fn view(&self) -> TokenAccountStateView {
        TokenAccountStateView {
            owner: self.owner@,
            amount: self.amount,
            frozen: self.frozen,
        }
    }
}

/// What a mint call does: credits the account and the supply, provided the
/// signer holds the mint authority and the account is not frozen.
pub open spec fn mint_to_spec(
    mint: MintStateView,
    token: TokenAccountStateView,
    amount: u64,
    signer: Seq<u8>,
) -> Result<(MintStateView, TokenAccountStateView), LedgerError> {
    if signer != mint.mint_authority {
        Err(LedgerError::AuthorityMismatch)
    } else if token.frozen {
        Err(LedgerError::AccountFrozen)
    } else if mint.supply + amount > u64::MAX {
        Err(LedgerError::ArithmeticOverflow)
    } else if token.amount + amount > u64::MAX {
        Err(LedgerError::ArithmeticOverflow)
    } else {
        Ok((
            MintStateView {
                mint_authority: mint.mint_authority,
                freeze_authority: mint.freeze_authority,
                supply: (mint.supply + amount) as u64,
            },
            TokenAccountStateView {
                owner: token.owner,
                amount: (token.amount + amount) as u64,
                frozen: token.frozen,
            },
        ))
    }
}

/// What a freeze call does: marks the account frozen, provided the signer
/// holds the freeze authority and the account is not frozen already.
pub open spec fn freeze_spec(
    token: TokenAccountStateView,
    mint: MintStateView,
    signer: Seq<u8>,
) -> Result<TokenAccountStateView, LedgerError> {
    if signer != mint.freeze_authority {
        Err(LedgerError::AuthorityMismatch)
    } else if token.frozen {
        Err(LedgerError::AccountFrozen)
    } else {
        Ok(TokenAccountStateView {
            owner: token.owner,
            amount: token.amount,
            frozen: true,
        })
    }
}

/// What an authority transfer does: rewrites the addressed slot, provided the
/// signer currently holds it.
pub open spec fn set_authority_spec(
    mint: MintStateView,
    kind: AuthorityKind,
    signer: Seq<u8>,
    new_authority: Seq<u8>,
) -> Result<MintStateView, LedgerError> {
    match kind {
        AuthorityKind::MintTokens => {
            if signer != mint.mint_authority {
                Err(LedgerError::AuthorityMismatch)
            } else {
                Ok(MintStateView {
                    mint_authority: new_authority,
                    freeze_authority: mint.freeze_authority,
                    supply: mint.supply,
                })
            }
        },
        AuthorityKind::FreezeAccount => {
            if signer != mint.freeze_authority {
                Err(LedgerError::AuthorityMismatch)
            } else {
                Ok(MintStateView {
                    mint_authority: mint.mint_authority,
                    freeze_authority: new_authority,
                    supply: mint.supply,
                })
            }
        },
    }
}

/// What a transfer does: moves units between two accounts, provided neither
/// is frozen and the signer owns the debited account.
pub open spec fn transfer_spec(
    from: TokenAccountStateView,
    to: TokenAccountStateView,
    amount: u64,
    signer: Seq<u8>,
) -> Result<(TokenAccountStateView, TokenAccountStateView), LedgerError> {
    if from.frozen || to.frozen {
        Err(LedgerError::AccountFrozen)
    } else if signer != from.owner {
        Err(LedgerError::AuthorityMismatch)
    } else if amount > from.amount {
        Err(LedgerError::InsufficientFunds)
    } else if to.amount + amount > u64::MAX {
        Err(LedgerError::ArithmeticOverflow)
    } else {
        Ok((
            TokenAccountStateView {
                owner: from.owner,
                amount: (from.amount - amount) as u64,
                frozen: from.frozen,
            },
            TokenAccountStateView {
                owner: to.owner,
                amount: (to.amount + amount) as u64,
                frozen: to.frozen,
            },
        ))
    }
}

/// What a burn does: debits the account and the supply, provided the account
/// is not frozen and the signer owns it.
pub open spec fn burn_spec(
    token: TokenAccountStateView,
    mint: MintStateView,
    amount: u64,
    signer: Seq<u8>,
) -> Result<(TokenAccountStateView, MintStateView), LedgerError> {
    if token.frozen {
        Err(LedgerError::AccountFrozen)
    } else if signer != token.owner {
        Err(LedgerError::AuthorityMismatch)
    } else if amount > token.amount {
        Err(LedgerError::InsufficientFunds)
    } else if amount > mint.supply {
        Err(LedgerError::InsufficientFunds)
    } else {
        Ok((
            TokenAccountStateView {
                owner: token.owner,
                amount: (token.amount - amount) as u64,
                frozen: token.frozen,
            },
            MintStateView {
                mint_authority: mint.mint_authority,
                freeze_authority: mint.freeze_authority,
                supply: (mint.supply - amount) as u64,
            },
        ))
    }
}

/// Mints `amount` units into `token`, signing as `signer`.
pub fn ledger_mint_to(
    mint: &mut MintState,
    token: &mut TokenAccountState,
    amount: u64,
    signer: &Identity,
) -> (r: Result<(), LedgerError>)
    ensures
        match mint_to_spec(old(mint)@, old(token)@, amount, signer@) {
            Ok((m2, t2)) => r is Ok && final(mint)@ == m2 && final(token)@ == t2,
            Err(e) => r == Err::<(), LedgerError>(e)
                && *final(mint) == *old(mint)
                && *final(token) == *old(token),
        },
{
    if !signer.equals(&mint.mint_authority) {
        return Err(LedgerError::AuthorityMismatch);
    }
    if token.frozen {
        return Err(LedgerError::AccountFrozen);
    }
    if amount > u64::MAX - mint.supply {
        return Err(LedgerError::ArithmeticOverflow);
    }
    if amount > u64::MAX - token.amount {
        return Err(LedgerError::ArithmeticOverflow);
    }
    mint.supply = mint.supply + amount;
    token.amount = token.amount + amount;
    Ok(())
}

/// Freezes `token`, signing as `signer`.
pub fn ledger_freeze(
    token: &mut TokenAccountState,
    mint: &MintState,
    signer: &Identity,
) -> (r: Result<(), LedgerError>)
    ensures
        match freeze_spec(old(token)@, mint@, signer@) {
            Ok(t2) => r is Ok && final(token)@ == t2,
            Err(e) => r == Err::<(), LedgerError>(e) && *final(token) == *old(token),
        },
{
    if !signer.equals(&mint.freeze_authority) {
        return Err(LedgerError::AuthorityMismatch);
    }
    if token.frozen {
        return Err(LedgerError::AccountFrozen);
    }
    token.frozen = true;
    Ok(())
}

/// Moves the addressed authority slot of `mint` to `new_authority`, signing
/// as `signer`.
pub fn ledger_set_authority(
    mint: &mut MintState,
    kind: AuthorityKind,
    signer: &Identity,
    new_authority: &Identity,
) -> (r: Result<(), LedgerError>)
    ensures
        match set_authority_spec(old(mint)@, kind, signer@, new_authority@) {
            Ok(m2) => r is Ok && final(mint)@ == m2,
            Err(e) => r == Err::<(), LedgerError>(e) && *final(mint) == *old(mint),
        },
{
    match kind {
        AuthorityKind::MintTokens => {
            if !signer.equals(&mint.mint_authority) {
                return Err(LedgerError::AuthorityMismatch);
            }
            mint.mint_authority = new_authority.dup();
        },
        AuthorityKind::FreezeAccount => {
            if !signer.equals(&mint.freeze_authority) {
                return Err(LedgerError::AuthorityMismatch);
            }
            mint.freeze_authority = new_authority.dup();
        },
    }
    Ok(())
}

/// Moves `amount` units from `from` to `to`, signing as `signer`.
pub fn ledger_transfer(
    from: &mut TokenAccountState,
    to: &mut TokenAccountState,
    amount: u64,
    signer: &Identity,
) -> (r: Result<(), LedgerError>)
    ensures
        match transfer_spec(old(from)@, old(to)@, amount, signer@) {
            Ok((f2, t2)) => r is Ok && final(from)@ == f2 && final(to)@ == t2,
            Err(e) => r == Err::<(), LedgerError>(e)
                && *final(from) == *old(from)
                && *final(to) == *old(to),
        },
{
    if from.frozen || to.frozen {
        return Err(LedgerError::AccountFrozen);
    }
    if !signer.equals(&from.owner) {
        return Err(LedgerError::AuthorityMismatch);
    }
    if amount > from.amount {
        return Err(LedgerError::InsufficientFunds);
    }
    if amount > u64::MAX - to.amount {
        return Err(LedgerError::ArithmeticOverflow);
    }
    from.amount = from.amount - amount;
    to.amount = to.amount + amount;
    Ok(())
}

/// Burns `amount` units out of `token`, signing as `signer`.
pub fn ledger_burn(
    token: &mut TokenAccountState,
    mint: &mut MintState,
    amount: u64,
    signer: &Identity,
) -> (r: Result<(), LedgerError>)
    ensures
        match burn_spec(old(token)@, old(mint)@, amount, signer@) {
            Ok((t2, m2)) => r is Ok && final(token)@ == t2 && final(mint)@ == m2,
            Err(e) => r == Err::<(), LedgerError>(e)
                && *final(token) == *old(token)
                && *final(mint) == *old(mint),
        },
{
    if token.frozen {
        return Err(LedgerError::AccountFrozen);
    }
    if !signer.equals(&token.owner) {
        return Err(LedgerError::AuthorityMismatch);
    }
    if amount > token.amount {
        return Err(LedgerError::InsufficientFunds);
    }
    if amount > mint.supply {
        return Err(LedgerError::InsufficientFunds);
    }
    token.amount = token.amount - amount;
    mint.supply = mint.supply - amount;
    Ok(())
}

} // verus!
