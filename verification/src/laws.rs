//! The protocol's guarantees, proved over the spec-level transitions.

use vstd::prelude::*;
use crate::ledger::{burn_spec, mint_to_spec, transfer_spec, MintStateView, TokenAccountStateView};
use crate::ops::{
    delegation_spec, issuance_spec, reclaim_spec, record_valid, ErrorCode, OpError,
    StreamAuthorityView, MINT_AMOUNT,
};

verus! {

/// Exactly-once mint, pairwise: once an issuance has succeeded against a
/// holder account, the next issuance against it fails with `AlreadyMinted`
/// (and so, the executable operation leaving failed states untouched, does
/// every later one).
pub proof fn lemma_issuance_exactly_once(
    token: TokenAccountStateView,
    mint: MintStateView,
    record: StreamAuthorityView,
    record_key: Seq<u8>,
    mint_key: Seq<u8>,
    program: Seq<u8>,
    token2: TokenAccountStateView,
    mint2: MintStateView,
)
    requires
        issuance_spec(token, mint, record, record_key, mint_key, program)
            == Ok::<(TokenAccountStateView, MintStateView), OpError>((token2, mint2)),
    ensures
        issuance_spec(token2, mint2, record, record_key, mint_key, program)
            == Err::<(TokenAccountStateView, MintStateView), OpError>(
                OpError::Core(ErrorCode::AlreadyMinted),
            ),
        token2.amount == MINT_AMOUNT,
        token2.frozen,
        mint2.mint_authority == mint.mint_authority,
        mint2.freeze_authority == mint.freeze_authority,
{
}

/// The state after `n` issuance attempts against one holder account, and how
/// many of them succeeded. A failed attempt changes nothing, as the
/// executable operation guarantees.
pub open spec fn issuance_attempts(
    token: TokenAccountStateView,
    mint: MintStateView,
    record: StreamAuthorityView,
    record_key: Seq<u8>,
    mint_key: Seq<u8>,
    program: Seq<u8>,
    n: nat,
) -> (TokenAccountStateView, MintStateView, nat)
    decreases n,
{
    if n == 0 {
        (token, mint, 0nat)
    } else {
        let (token1, mint1, successes) = issuance_attempts(
            token,
            mint,
            record,
            record_key,
            mint_key,
            program,
            (n - 1) as nat,
        );
        match issuance_spec(token1, mint1, record, record_key, mint_key, program) {
            Ok((token2, mint2)) => (token2, mint2, successes + 1),
            Err(_) => (token1, mint1, successes),
        }
    }
}

/// Exactly-once mint: of any sequence of issuance calls against the same
/// holder account, at most one succeeds; once one has, the account holds the
/// fixed amount, is frozen, and every further call fails with
/// `AlreadyMinted`.
pub proof fn lemma_issuance_at_most_once(
    token: TokenAccountStateView,
    mint: MintStateView,
    record: StreamAuthorityView,
    record_key: Seq<u8>,
    mint_key: Seq<u8>,
    program: Seq<u8>,
    n: nat,
)
    ensures
        ({
            let (token_n, mint_n, successes) = issuance_attempts(
                token,
                mint,
                record,
                record_key,
                mint_key,
                program,
                n,
            );
            &&& successes <= 1
            &&& successes == 1 ==> token_n.amount == MINT_AMOUNT && token_n.frozen
            &&& successes == 1 ==> issuance_spec(token_n, mint_n, record, record_key, mint_key, program)
                == Err::<(TokenAccountStateView, MintStateView), OpError>(
                    OpError::Core(ErrorCode::AlreadyMinted),
                )
        }),
    decreases n,
{
    if n > 0 {
        lemma_issuance_at_most_once(
            token,
            mint,
            record,
            record_key,
            mint_key,
            program,
            (n - 1) as nat,
        );
    }
}

/// Freeze permanence: after a successful issuance the holder account is
/// frozen, and every ledger mint, transfer or burn touching it fails,
/// whoever signs it.
pub proof fn lemma_freeze_permanence(
    token: TokenAccountStateView,
    mint: MintStateView,
    record: StreamAuthorityView,
    record_key: Seq<u8>,
    mint_key: Seq<u8>,
    program: Seq<u8>,
    token2: TokenAccountStateView,
    mint2: MintStateView,
    mint_any: MintStateView,
    other: TokenAccountStateView,
    amount: u64,
    signer: Seq<u8>,
)
    requires
        issuance_spec(token, mint, record, record_key, mint_key, program)
            == Ok::<(TokenAccountStateView, MintStateView), OpError>((token2, mint2)),
    ensures
        token2.frozen,
        mint_to_spec(mint_any, token2, amount, signer) is Err,
        transfer_spec(token2, other, amount, signer) is Err,
        transfer_spec(other, token2, amount, signer) is Err,
        burn_spec(token2, mint_any, amount, signer) is Err,
{
}

/// Authority round-trip: Delegation followed by Reclaim by the original
/// principal restores the asset class's mint and freeze authority to exactly
/// the pre-Delegation identity. (The record is retired on the way:
/// `reclaim_authority` leaves `None` in its slot.) The second `requires` is
/// the record invariant, which `give_authority` establishes for the record
/// it creates.
pub proof fn lemma_authority_round_trip(
    mint: MintStateView,
    payer: Seq<u8>,
    mint_key: Seq<u8>,
    program: Seq<u8>,
    mint2: MintStateView,
    record2: StreamAuthorityView,
    key: Seq<u8>,
)
    requires
        delegation_spec(mint, None, payer, mint_key, program)
            == Ok::<(MintStateView, StreamAuthorityView, Seq<u8>), OpError>((mint2, record2, key)),
        record_valid(record2, key, mint_key, program),
    ensures
        record2.authority == payer,
        mint.mint_authority == payer && mint.freeze_authority == payer,
        reclaim_spec(mint2, Some(record2), key, payer, mint_key, program)
            == Ok::<MintStateView, OpError>(
                (MintStateView {
                    mint_authority: payer,
                    freeze_authority: payer,
                    supply: mint.supply,
                }),
            ),
{
}

/// Reclaim rejection: against a record that satisfies the record invariant,
/// a Reclaim by any identity other than the recorded principal fails with
/// `UnathorizedReclaim` (and the executable operation then changes nothing).
pub proof fn lemma_reclaim_rejection(
    mint: MintStateView,
    record: StreamAuthorityView,
    record_key: Seq<u8>,
    caller: Seq<u8>,
    mint_key: Seq<u8>,
    program: Seq<u8>,
)
    requires
        record_valid(record, record_key, mint_key, program),
        caller != record.authority,
    ensures
        reclaim_spec(mint, Some(record), record_key, caller, mint_key, program)
            == Err::<MintStateView, OpError>(OpError::Core(ErrorCode::UnathorizedReclaim)),
{
}

} // verus!
