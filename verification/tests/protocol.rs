use stream::identity::Identity;
use stream::ledger::{
    ledger_burn, ledger_freeze, ledger_mint_to, ledger_set_authority, ledger_transfer,
    AuthorityKind, LedgerError, MintState, TokenAccountState,
};
use stream::ops::{
    give_authority, mint_to_self, reclaim_authority, ErrorCode, OpError, StreamAuthority,
    MINT_AMOUNT,
};

fn ident(b: u8) -> Identity {
    Identity::from_bytes(vec![b; 32])
}

fn mint_owned_by(owner: u8) -> MintState {
    MintState {
        mint_authority: ident(owner),
        freeze_authority: ident(owner),
        supply: 0,
    }
}

fn empty_account(owner: u8) -> TokenAccountState {
    TokenAccountState {
        owner: ident(owner),
        amount: 0,
        frozen: false,
    }
}

#[test]
fn full_scenario() {
    let issuer: u8 = 1;
    let mint_key = ident(2);
    let program = ident(3);
    let mut mint = mint_owned_by(issuer);
    let mut slot: Option<StreamAuthority> = None;

    // Delegation: the record is created, the issuer is recorded as principal,
    // and both authority slots move to the derived identity.
    let key = give_authority(&mut mint, &mint_key, &mut slot, &ident(issuer), &program)
        .expect("delegation by the current authority succeeds");
    let record_bump = slot.as_ref().expect("record exists").bump;
    assert_eq!(slot.as_ref().unwrap().authority.bytes, ident(issuer).bytes);
    assert_eq!(mint.mint_authority.bytes, key.bytes);
    assert_eq!(mint.freeze_authority.bytes, key.bytes);

    // Issuance: the holder receives the fixed amount and is frozen.
    let mut token = empty_account(4);
    let record = StreamAuthority {
        bump: record_bump,
        authority: slot.as_ref().unwrap().authority.dup(),
    };
    mint_to_self(&mut token, &mut mint, &mint_key, &record, &key, &program)
        .expect("first issuance succeeds");
    assert_eq!(token.amount, MINT_AMOUNT);
    assert_eq!(token.amount, 8007320330);
    assert!(token.frozen);
    assert_eq!(mint.supply, MINT_AMOUNT);

    // A second issuance against the same account fails and changes nothing.
    let again = mint_to_self(&mut token, &mut mint, &mint_key, &record, &key, &program);
    assert_eq!(again, Err(OpError::Core(ErrorCode::AlreadyMinted)));
    assert_eq!(token.amount, MINT_AMOUNT);
    assert_eq!(mint.supply, MINT_AMOUNT);

    // A stranger cannot reclaim; the authorities stay with the derived identity.
    let stranger = ident(5);
    let refused = reclaim_authority(&mut mint, &mint_key, &mut slot, &key, &stranger, &program);
    assert_eq!(refused, Err(OpError::Core(ErrorCode::UnathorizedReclaim)));
    assert!(slot.is_some());
    assert_eq!(mint.mint_authority.bytes, key.bytes);
    assert_eq!(mint.freeze_authority.bytes, key.bytes);

    // The principal reclaims: authorities return, the record is retired.
    reclaim_authority(&mut mint, &mint_key, &mut slot, &key, &ident(issuer), &program)
        .expect("reclaim by the recorded principal succeeds");
    assert_eq!(mint.mint_authority.bytes, ident(issuer).bytes);
    assert_eq!(mint.freeze_authority.bytes, ident(issuer).bytes);
    assert_eq!(mint.supply, MINT_AMOUNT);
    assert!(slot.is_none());

    // A second reclaim finds no record.
    let gone = reclaim_authority(&mut mint, &mint_key, &mut slot, &key, &ident(issuer), &program);
    assert_eq!(gone, Err(OpError::RecordNotFound));
}

#[test]
fn delegation_is_deterministic() {
    let mint_key = ident(2);
    let program = ident(3);

    let mut mint_a = mint_owned_by(1);
    let mut slot_a: Option<StreamAuthority> = None;
    let key_a = give_authority(&mut mint_a, &mint_key, &mut slot_a, &ident(1), &program).unwrap();

    let mut mint_b = mint_owned_by(1);
    let mut slot_b: Option<StreamAuthority> = None;
    let key_b = give_authority(&mut mint_b, &mint_key, &mut slot_b, &ident(1), &program).unwrap();

    // Identical inputs derive an identical identity and nonce.
    assert_eq!(key_a.bytes, key_b.bytes);
    assert_eq!(slot_a.as_ref().unwrap().bump, slot_b.as_ref().unwrap().bump);

    // The derived identity is a digest, not any of its inputs.
    assert_ne!(key_a.bytes, mint_key.bytes);
    assert_ne!(key_a.bytes, ident(1).bytes);
    assert_ne!(key_a.bytes, program.bytes);
}

#[test]
fn delegation_requires_both_authorities() {
    let mint_key = ident(2);
    let program = ident(3);

    // The payer holds neither slot.
    let mut mint = mint_owned_by(1);
    let mut slot: Option<StreamAuthority> = None;
    let r = give_authority(&mut mint, &mint_key, &mut slot, &ident(9), &program);
    assert_eq!(r, Err(OpError::Ledger(LedgerError::AuthorityMismatch)));
    assert_eq!(mint.mint_authority.bytes, ident(1).bytes);
    assert!(slot.is_none());

    // The payer holds the mint slot but not the freeze slot.
    let mut mint = MintState {
        mint_authority: ident(9),
        freeze_authority: ident(1),
        supply: 0,
    };
    let r = give_authority(&mut mint, &mint_key, &mut slot, &ident(9), &program);
    assert_eq!(r, Err(OpError::Ledger(LedgerError::AuthorityMismatch)));
    assert_eq!(mint.mint_authority.bytes, ident(9).bytes);
    assert_eq!(mint.freeze_authority.bytes, ident(1).bytes);
    assert!(slot.is_none());
}

#[test]
fn delegation_refuses_existing_record() {
    let mint_key = ident(2);
    let program = ident(3);
    let mut mint = mint_owned_by(1);
    let mut slot: Option<StreamAuthority> = None;
    give_authority(&mut mint, &mint_key, &mut slot, &ident(1), &program).unwrap();

    let mut mint2 = mint_owned_by(1);
    let r = give_authority(&mut mint2, &mint_key, &mut slot, &ident(1), &program);
    assert_eq!(r, Err(OpError::RecordExists));
    assert_eq!(mint2.mint_authority.bytes, ident(1).bytes);
}

#[test]
fn issuance_rejects_wrong_record_key() {
    let mint_key = ident(2);
    let program = ident(3);
    let mut mint = mint_owned_by(1);
    let mut slot: Option<StreamAuthority> = None;
    give_authority(&mut mint, &mint_key, &mut slot, &ident(1), &program).unwrap();
    let record = slot.take().unwrap();

    // The supplied record identity does not re-derive from the record's nonce.
    let mut token = empty_account(4);
    let wrong_key = ident(7);
    let r = mint_to_self(&mut token, &mut mint, &mint_key, &record, &wrong_key, &program);
    assert_eq!(r, Err(OpError::RecordKeyMismatch));
    assert_eq!(token.amount, 0);
    assert!(!token.frozen);
}

#[test]
fn issuance_requires_delegated_authority() {
    let mint_key = ident(2);
    let program = ident(3);

    // Derive a genuine record on a scratch asset class.
    let mut scratch = mint_owned_by(1);
    let mut slot: Option<StreamAuthority> = None;
    let key = give_authority(&mut scratch, &mint_key, &mut slot, &ident(1), &program).unwrap();
    let record = slot.take().unwrap();

    // The class below was never delegated: the ledger refuses the mint.
    let mut mint = mint_owned_by(1);
    let mut token = empty_account(4);
    let r = mint_to_self(&mut token, &mut mint, &mint_key, &record, &key, &program);
    assert_eq!(r, Err(OpError::Ledger(LedgerError::AuthorityMismatch)));
    assert_eq!(token.amount, 0);
}

#[test]
fn issuance_refuses_frozen_account() {
    let mint_key = ident(2);
    let program = ident(3);
    let mut mint = mint_owned_by(1);
    let mut slot: Option<StreamAuthority> = None;
    let key = give_authority(&mut mint, &mint_key, &mut slot, &ident(1), &program).unwrap();
    let record = slot.take().unwrap();

    let mut token = TokenAccountState {
        owner: ident(4),
        amount: 0,
        frozen: true,
    };
    let r = mint_to_self(&mut token, &mut mint, &mint_key, &record, &key, &program);
    assert_eq!(r, Err(OpError::Ledger(LedgerError::AccountFrozen)));
    assert_eq!(token.amount, 0);
}

#[test]
fn issuance_refuses_supply_overflow() {
    let mint_key = ident(2);
    let program = ident(3);
    let mut mint = mint_owned_by(1);
    let mut slot: Option<StreamAuthority> = None;
    let key = give_authority(&mut mint, &mint_key, &mut slot, &ident(1), &program).unwrap();
    let record = slot.take().unwrap();

    mint.supply = u64::MAX;
    let mut token = empty_account(4);
    let r = mint_to_self(&mut token, &mut mint, &mint_key, &record, &key, &program);
    assert_eq!(r, Err(OpError::Ledger(LedgerError::ArithmeticOverflow)));
    assert_eq!(token.amount, 0);
    assert_eq!(mint.supply, u64::MAX);
}

#[test]
fn reclaim_rejects_wrong_record_key() {
    let mint_key = ident(2);
    let program = ident(3);
    let mut mint = mint_owned_by(1);
    let mut slot: Option<StreamAuthority> = None;
    give_authority(&mut mint, &mint_key, &mut slot, &ident(1), &program).unwrap();

    let wrong_key = ident(7);
    let r = reclaim_authority(&mut mint, &mint_key, &mut slot, &wrong_key, &ident(1), &program);
    assert_eq!(r, Err(OpError::RecordKeyMismatch));
    assert!(slot.is_some());
}

#[test]
fn ledger_mint_requires_mint_authority() {
    let mut mint = mint_owned_by(1);
    let mut token = empty_account(4);
    let r = ledger_mint_to(&mut mint, &mut token, 10, &ident(9));
    assert_eq!(r, Err(LedgerError::AuthorityMismatch));
    assert_eq!(token.amount, 0);
    assert_eq!(mint.supply, 0);

    let r = ledger_mint_to(&mut mint, &mut token, 10, &ident(1));
    assert_eq!(r, Ok(()));
    assert_eq!(token.amount, 10);
    assert_eq!(mint.supply, 10);
}

#[test]
fn ledger_freeze_requires_freeze_authority() {
    let mint = mint_owned_by(1);
    let mut token = empty_account(4);
    let r = ledger_freeze(&mut token, &mint, &ident(9));
    assert_eq!(r, Err(LedgerError::AuthorityMismatch));
    assert!(!token.frozen);

    let r = ledger_freeze(&mut token, &mint, &ident(1));
    assert_eq!(r, Ok(()));
    assert!(token.frozen);

    // Freezing a frozen account fails.
    let r = ledger_freeze(&mut token, &mint, &ident(1));
    assert_eq!(r, Err(LedgerError::AccountFrozen));
}

#[test]
fn frozen_account_is_immutable() {
    // Once frozen, no mint, transfer or burn touches the account, whoever signs.
    let mut mint = mint_owned_by(1);
    let mut frozen = TokenAccountState {
        owner: ident(4),
        amount: MINT_AMOUNT,
        frozen: true,
    };
    let mut other = empty_account(5);

    let r = ledger_mint_to(&mut mint, &mut frozen, 1, &ident(1));
    assert_eq!(r, Err(LedgerError::AccountFrozen));
    assert_eq!(frozen.amount, MINT_AMOUNT);

    let r = ledger_transfer(&mut frozen, &mut other, 1, &ident(4));
    assert_eq!(r, Err(LedgerError::AccountFrozen));
    assert_eq!(frozen.amount, MINT_AMOUNT);
    assert_eq!(other.amount, 0);

    let r = ledger_transfer(&mut other, &mut frozen, 0, &ident(5));
    assert_eq!(r, Err(LedgerError::AccountFrozen));

    let r = ledger_burn(&mut frozen, &mut mint, 1, &ident(4));
    assert_eq!(r, Err(LedgerError::AccountFrozen));
    assert_eq!(frozen.amount, MINT_AMOUNT);
}

#[test]
fn ledger_transfer_moves_balances() {
    let mut from = TokenAccountState {
        owner: ident(4),
        amount: 30,
        frozen: false,
    };
    let mut to = TokenAccountState {
        owner: ident(5),
        amount: 5,
        frozen: false,
    };

    // Only the owner may spend.
    let r = ledger_transfer(&mut from, &mut to, 10, &ident(5));
    assert_eq!(r, Err(LedgerError::AuthorityMismatch));

    let r = ledger_transfer(&mut from, &mut to, 10, &ident(4));
    assert_eq!(r, Ok(()));
    assert_eq!(from.amount, 20);
    assert_eq!(to.amount, 15);

    let r = ledger_transfer(&mut from, &mut to, 21, &ident(4));
    assert_eq!(r, Err(LedgerError::InsufficientFunds));
    assert_eq!(from.amount, 20);
    assert_eq!(to.amount, 15);
}

#[test]
fn ledger_burn_debits_supply() {
    let mut mint = mint_owned_by(1);
    let mut token = empty_account(4);
    ledger_mint_to(&mut mint, &mut token, 50, &ident(1)).unwrap();

    let r = ledger_burn(&mut token, &mut mint, 20, &ident(4));
    assert_eq!(r, Ok(()));
    assert_eq!(token.amount, 30);
    assert_eq!(mint.supply, 30);

    let r = ledger_burn(&mut token, &mut mint, 31, &ident(4));
    assert_eq!(r, Err(LedgerError::InsufficientFunds));
    assert_eq!(token.amount, 30);
}

#[test]
fn ledger_set_authority_moves_one_slot() {
    let mut mint = mint_owned_by(1);

    let r = ledger_set_authority(&mut mint, AuthorityKind::MintTokens, &ident(9), &ident(2));
    assert_eq!(r, Err(LedgerError::AuthorityMismatch));
    assert_eq!(mint.mint_authority.bytes, ident(1).bytes);

    let r = ledger_set_authority(&mut mint, AuthorityKind::MintTokens, &ident(1), &ident(2));
    assert_eq!(r, Ok(()));
    assert_eq!(mint.mint_authority.bytes, ident(2).bytes);
    assert_eq!(mint.freeze_authority.bytes, ident(1).bytes);

    let r = ledger_set_authority(&mut mint, AuthorityKind::FreezeAccount, &ident(1), &ident(2));
    assert_eq!(r, Ok(()));
    assert_eq!(mint.freeze_authority.bytes, ident(2).bytes);
}

#[test]
fn identity_equality_is_bytewise() {
    let a = ident(1);
    let b = ident(1);
    let c = ident(2);
    assert!(a.equals(&b));
    assert!(!a.equals(&c));
    assert_eq!(a.dup().bytes, a.bytes);
}
