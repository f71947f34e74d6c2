//! The three operations of the custody protocol.
//!
//! Delegation (`give_authority`) moves an asset class's mint and freeze
//! authority from the issuer to a derived identity and records the issuer as
//! principal in a fresh Authority Record. Issuance (`mint_to_self`) mints the
//! single indivisible unit into a holder's account and freezes it, signing as
//! the derived identity, at most once per account. Reclaim
//! (`reclaim_authority`) hands both authorities back to the recorded
//! principal and retires the record.
//!
//! Each operation is stated as a spec-level transition over the ledger views;
//! the executable operation is proved to apply the transition exactly, and to
//! leave every state untouched when it fails (the enclosing transaction is
//! atomic, so a failed operation must have no visible effect).

use vstd::prelude::*;
use crate::derivation::{derive_identity, derived_identity, find_identity, found_identity};
use crate::identity::Identity;
use crate::ledger::{
    freeze_spec, ledger_freeze, ledger_mint_to, ledger_set_authority, mint_to_spec,
    AuthorityKind, LedgerError, MintState, MintStateView, TokenAccountState,
    TokenAccountStateView,
};

verus! {

/// The number of units issuance mints: the whole, indivisible asset.
pub const MINT_AMOUNT: u64 = 8007320330;

/// The fixed derivation tag, as a byte sequence: the bytes of `"idk"`.
pub open spec fn tag_spec() -> Seq<u8> {
    seq![105u8, 100u8, 107u8]
}

/// The fixed derivation tag shared by every operation.
pub fn tag() -> (r: Vec<u8>)
    ensures
        r@ == tag_spec(),
{
    let mut v: Vec<u8> = Vec::new();
    v.push(105);
    v.push(100);
    v.push(107);
    proof {
        assert(v@ =~= tag_spec());
    }
    v
}

/// The Authority Record: the one persisted entity of the protocol, one per
/// asset class, stored at the identity derived from the fixed tag, the asset
/// identifier and `bump`.
pub struct StreamAuthority {
    /// The derivation nonce of the record's own identity. Immutable.
    pub bump: u8,
    /// The principal: the identity entitled to reclaim the delegated
    /// authority. Set once, at creation, to the delegator.
    pub authority: Identity,
}

/// Mathematical view of an Authority Record.
#[verifier::ext_equal]
pub struct StreamAuthorityView {
    pub bump: u8,
    pub authority: Seq<u8>,
}

impl View for StreamAuthority {
    type V = StreamAuthorityView;

    open spec fn view(&self) -> StreamAuthorityView {
        StreamAuthorityView { bump: self.bump, authority: self.authority@ }
    }
}

/// View of the record store's slot at the derived identity: `None` while no
/// record exists there.
pub open spec fn record_slot_view(slot: Option<StreamAuthority>) -> Option<StreamAuthorityView> {
    match slot {
        Some(record) => Some(record@),
        None => None,
    }
}

/// The record invariant: the record's own identity equals the value derived
/// from the fixed tag, the asset identifier and the record's nonce. Delegation
/// establishes it, and any caller can re-check it without trusting the
/// record's stored content.
pub open spec fn record_valid(
    record: StreamAuthorityView,
    record_key: Seq<u8>,
    mint_key: Seq<u8>,
    program: Seq<u8>,
) -> bool {
    derived_identity(tag_spec(), mint_key, record.bump, program) == Some(record_key)
}

/// The two error kinds the core itself defines.
#[derive(Clone, Copy, Debug, PartialEq, Eq)]
pub enum ErrorCode {
    /// Issuance was attempted against a holder account with nonzero balance.
    AlreadyMinted,
    /// Reclaim was attempted by an identity other than the recorded principal.
    UnathorizedReclaim,
}

/// Everything an operation can fail with: the core's two own checks, the
/// ledger's errors surfaced unmodified, and the record store's and the
/// deriver's refusals.
#[derive(Clone, Copy, Debug, PartialEq, Eq)]
pub enum OpError {
    /// One of the core's own checks failed.
    Core(ErrorCode),
    /// The ledger refused a call; surfaced unmodified.
    Ledger(LedgerError),
    /// Delegation found an Authority Record already in place.
    RecordExists,
    /// Reclaim found no Authority Record (it was already retired).
    RecordNotFound,
    /// The supplied record identity does not re-derive from the record's
    /// nonce: the record invariant fails.
    RecordKeyMismatch,
    /// No nonce yields a derived identity for this asset class.
    NoViableNonce,
}

/// The Delegation transition. On success it yields the asset class with both
/// authority slots moved to the derived identity, the created record, and the
/// record's own identity.
pub open spec fn delegation_spec(
    mint: MintStateView,
    slot: Option<StreamAuthorityView>,
    payer: Seq<u8>,
    mint_key: Seq<u8>,
    program: Seq<u8>,
) -> Result<(MintStateView, StreamAuthorityView, Seq<u8>), OpError> {
    if slot is Some {
        Err(OpError::RecordExists)
    } else {
        match found_identity(tag_spec(), mint_key, program) {
            None => Err(OpError::NoViableNonce),
            Some((key, bump)) => {
                if payer != mint.mint_authority {
                    Err(OpError::Ledger(LedgerError::AuthorityMismatch))
                } else if payer != mint.freeze_authority {
                    Err(OpError::Ledger(LedgerError::AuthorityMismatch))
                } else {
                    Ok((
                        MintStateView {
                            mint_authority: key,
                            freeze_authority: key,
                            supply: mint.supply,
                        },
                        StreamAuthorityView { bump, authority: payer },
                        key,
                    ))
                }
            },
        }
    }
}

/// The Issuance transition: the exactly-once guard, then the ledger's mint
/// and freeze in that order, all or nothing.
pub open spec fn issuance_spec(
    token: TokenAccountStateView,
    mint: MintStateView,
    record: StreamAuthorityView,
    record_key: Seq<u8>,
    mint_key: Seq<u8>,
    program: Seq<u8>,
) -> Result<(TokenAccountStateView, MintStateView), OpError> {
    if !record_valid(record, record_key, mint_key, program) {
        Err(OpError::RecordKeyMismatch)
    } else if token.amount != 0 {
        Err(OpError::Core(ErrorCode::AlreadyMinted))
    } else {
        match mint_to_spec(mint, token, MINT_AMOUNT, record_key) {
            Err(e) => Err(OpError::Ledger(e)),
            Ok((mint2, token2)) => match freeze_spec(token2, mint2, record_key) {
                Err(e) => Err(OpError::Ledger(e)),
                Ok(token3) => Ok((token3, mint2)),
            },
        }
    }
}

/// The Reclaim transition. On success it yields the asset class with both
/// authority slots moved back to the caller; the record is retired.
pub open spec fn reclaim_spec(
    mint: MintStateView,
    slot: Option<StreamAuthorityView>,
    record_key: Seq<u8>,
    user: Seq<u8>,
    mint_key: Seq<u8>,
    program: Seq<u8>,
) -> Result<MintStateView, OpError> {
    match slot {
        None => Err(OpError::RecordNotFound),
        Some(record) => {
            if !record_valid(record, record_key, mint_key, program) {
                Err(OpError::RecordKeyMismatch)
            } else if user != record.authority {
                Err(OpError::Core(ErrorCode::UnathorizedReclaim))
            } else if record_key != mint.mint_authority {
                Err(OpError::Ledger(LedgerError::AuthorityMismatch))
            } else if record_key != mint.freeze_authority {
                Err(OpError::Ledger(LedgerError::AuthorityMismatch))
            } else {
                Ok(MintStateView {
                    mint_authority: user,
                    freeze_authority: user,
                    supply: mint.supply,
                })
            }
        },
    }
}

/// Delegation: creates the Authority Record for the asset class `mint_key`,
/// recording `payer` as principal, and moves the class's mint and freeze
/// authority from `payer` to the record's derived identity. Returns that
/// identity.
pub fn give_authority(
    mint: &mut MintState,
    mint_key: &Identity,
    record: &mut Option<StreamAuthority>,
    payer: &Identity,
    program: &Identity,
) -> (r: Result<Identity, OpError>)
    requires
        mint_key.wf(),
        program.wf(),
    ensures
        match delegation_spec(
            old(mint)@,
            record_slot_view(*old(record)),
            payer@,
            mint_key@,
            program@,
        ) {
            Ok((mint2, record2, key)) => {
                &&& r is Ok
                &&& r->Ok_0@ == key
                &&& r->Ok_0.wf()
                &&& final(mint)@ == mint2
                &&& record_slot_view(*final(record)) == Some(record2)
                &&& record_valid(record2, key, mint_key@, program@)
            },
            Err(e) => {
                &&& r == Err::<Identity, OpError>(e)
                &&& *final(mint) == *old(mint)
                &&& *final(record) == *old(record)
            },
        },
{
    if record.is_some() {
        return Err(OpError::RecordExists);
    }
    let t = tag();
    let (key, bump) = match find_identity(&t, mint_key, program) {
        None => {
            return Err(OpError::NoViableNonce);
        },
        Some(found) => found,
    };
    if !payer.equals(&mint.mint_authority) {
        return Err(OpError::Ledger(LedgerError::AuthorityMismatch));
    }
    if !payer.equals(&mint.freeze_authority) {
        return Err(OpError::Ledger(LedgerError::AuthorityMismatch));
    }
    match ledger_set_authority(mint, AuthorityKind::MintTokens, payer, &key) {
        Err(e) => {
            return Err(OpError::Ledger(e));
        },
        Ok(()) => {},
    }
    match ledger_set_authority(mint, AuthorityKind::FreezeAccount, payer, &key) {
        Err(e) => {
            return Err(OpError::Ledger(e));
        },
        Ok(()) => {},
    }
    *record = Some(StreamAuthority { bump, authority: payer.dup() });
    Ok(key)
}

/// Issuance: mints the single unit of the asset class `mint_key` into
/// `token` and freezes it, signing as the Authority Record's derived
/// identity. Rejects with `AlreadyMinted` any account whose balance is not
/// zero, so at most one issuance per holder account ever succeeds.
pub fn mint_to_self(
    token: &mut TokenAccountState,
    mint: &mut MintState,
    mint_key: &Identity,
    record: &StreamAuthority,
    record_key: &Identity,
    program: &Identity,
) -> (r: Result<(), OpError>)
    requires
        mint_key.wf(),
        program.wf(),
    ensures
        match issuance_spec(
            old(token)@,
            old(mint)@,
            record@,
            record_key@,
            mint_key@,
            program@,
        ) {
            Ok((token2, mint2)) => r is Ok && final(token)@ == token2 && final(mint)@ == mint2,
            Err(e) => {
                &&& r == Err::<(), OpError>(e)
                &&& *final(token) == *old(token)
                &&& *final(mint) == *old(mint)
            },
        },
{
    let t = tag();
    let key_ok = match derive_identity(&t, mint_key, record.bump, program) {
        Some(id) => id.equals(record_key),
        None => false,
    };
    if !key_ok {
        return Err(OpError::RecordKeyMismatch);
    }
    if token.amount != 0 {
        return Err(OpError::Core(ErrorCode::AlreadyMinted));
    }
    if !record_key.equals(&mint.mint_authority) {
        return Err(OpError::Ledger(LedgerError::AuthorityMismatch));
    }
    if token.frozen {
        return Err(OpError::Ledger(LedgerError::AccountFrozen));
    }
    if MINT_AMOUNT > u64::MAX - mint.supply {
        return Err(OpError::Ledger(LedgerError::ArithmeticOverflow));
    }
    if !record_key.equals(&mint.freeze_authority) {
        return Err(OpError::Ledger(LedgerError::AuthorityMismatch));
    }
    match ledger_mint_to(mint, token, MINT_AMOUNT, record_key) {
        Err(e) => {
            return Err(OpError::Ledger(e));
        },
        Ok(()) => {},
    }
    match ledger_freeze(token, mint, record_key) {
        Err(e) => {
            return Err(OpError::Ledger(e));
        },
        Ok(()) => {},
    }
    Ok(())
}

/// Reclaim: verifies that `user` is the recorded principal, moves the asset
/// class's mint and freeze authority from the derived identity back to
/// `user`, and retires the Authority Record.
pub fn reclaim_authority(
    mint: &mut MintState,
    mint_key: &Identity,
    record: &mut Option<StreamAuthority>,
    record_key: &Identity,
    user: &Identity,
    program: &Identity,
) -> (r: Result<(), OpError>)
    requires
        mint_key.wf(),
        program.wf(),
    ensures
        match reclaim_spec(
            old(mint)@,
            record_slot_view(*old(record)),
            record_key@,
            user@,
            mint_key@,
            program@,
        ) {
            Ok(mint2) => {
                &&& r is Ok
                &&& final(mint)@ == mint2
                &&& *final(record) is None
            },
            Err(e) => {
                &&& r == Err::<(), OpError>(e)
                &&& *final(mint) == *old(mint)
                &&& *final(record) == *old(record)
            },
        },
{
    let (bump, principal) = match record {
        None => {
            return Err(OpError::RecordNotFound);
        },
        Some(rec) => (rec.bump, rec.authority.dup()),
    };
    let t = tag();
    let key_ok = match derive_identity(&t, mint_key, bump, program) {
        Some(id) => id.equals(record_key),
        None => false,
    };
    if !key_ok {
        return Err(OpError::RecordKeyMismatch);
    }
    if !user.equals(&principal) {
        return Err(OpError::Core(ErrorCode::UnathorizedReclaim));
    }
    if !record_key.equals(&mint.mint_authority) {
        return Err(OpError::Ledger(LedgerError::AuthorityMismatch));
    }
    if !record_key.equals(&mint.freeze_authority) {
        return Err(OpError::Ledger(LedgerError::AuthorityMismatch));
    }
    match ledger_set_authority(mint, AuthorityKind::MintTokens, record_key, user) {
        Err(e) => {
            return Err(OpError::Ledger(e));
        },
        Ok(()) => {},
    }
    match ledger_set_authority(mint, AuthorityKind::FreezeAccount, record_key, user) {
        Err(e) => {
            return Err(OpError::Ledger(e));
        },
        Ok(()) => {},
    }
    *record = None;
    Ok(())
}

} // verus!
