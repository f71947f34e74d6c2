//! Derived identities.
//!
//! A derived identity is computed by a public deterministic function from a
//! fixed tag, an asset identifier and a one-byte nonce; it has no private key,
//! and only code that knows the derivation rule can sign as it. The derivation
//! itself is the external deriver's (a hash with an eligibility check); this
//! module names its results and wraps the two calls the protocol makes.

use vstd::prelude::*;
use crate::identity::Identity;

verus! {

/// The longest single seed the external deriver accepts.
pub const MAX_SEED_BYTES: usize = 32;

/// What `Pubkey::create_program_address` returns for the seed triple
/// `[tag, asset, [nonce]]` under `program`: the derived identity's bytes, or
/// `None` where those inputs admit no derived identity.
pub uninterp spec fn derived_identity(
    tag: Seq<u8>,
    asset: Seq<u8>,
    nonce: u8,
    program: Seq<u8>,
) -> Option<Seq<u8>>;

/// What `Pubkey::try_find_program_address` returns for the seed pair
/// `[tag, asset]` under `program`: a derived identity together with the nonce
/// that re-derives it, or `None` where no nonce is viable.
pub uninterp spec fn found_identity(
    tag: Seq<u8>,
    asset: Seq<u8>,
    program: Seq<u8>,
) -> Option<(Seq<u8>, u8)>;

/// Relies on `Pubkey::create_program_address`: the result is a pure function
/// of the seeds and the program id (a SHA-256 digest of them, refused when it
/// lands on the ed25519 curve), and with three short seeds the call errs
/// exactly when the digest is so refused.
#[verifier::external_body]
pub(crate) fn derive_identity(
    tag: &Vec<u8>,
    asset: &Identity,
    nonce: u8,
    program: &Identity,
) -> (r: Option<Identity>)
    requires
        tag@.len() <= MAX_SEED_BYTES,
        asset.wf(),
        program.wf(),
    ensures
        match r {
            Some(id) => id.wf() && derived_identity(tag@, asset@, nonce, program@) == Some(id@),
            None => derived_identity(tag@, asset@, nonce, program@) is None,
        },
{
    let program_key = solana_pubkey::Pubkey::new_from_array(program.bytes.as_slice().try_into().unwrap());
    let nonce_seed: [u8; 1] = [nonce];
    let seeds: [&[u8]; 3] = [tag.as_slice(), asset.bytes.as_slice(), &nonce_seed];
    match solana_pubkey::Pubkey::create_program_address(&seeds, &program_key) {
        Ok(key) => Some(Identity { bytes: key.to_bytes().to_vec() }),
        Err(_) => None,
    }
}

/// Relies on `Pubkey::try_find_program_address`: the result is a pure function
/// of the seeds and the program id, and on success the returned nonce
/// re-derives the returned identity through `Pubkey::create_program_address`
/// (the function searches nonces for exactly that).
#[verifier::external_body]
pub(crate) fn find_identity(
    tag: &Vec<u8>,
    asset: &Identity,
    program: &Identity,
) -> (r: Option<(Identity, u8)>)
    requires
        tag@.len() <= MAX_SEED_BYTES,
        asset.wf(),
        program.wf(),
    ensures
        match r {
            Some((id, nonce)) => id.wf()
                && found_identity(tag@, asset@, program@) == Some((id@, nonce))
                && derived_identity(tag@, asset@, nonce, program@) == Some(id@),
            None => found_identity(tag@, asset@, program@) is None,
        },
{
    let program_key = solana_pubkey::Pubkey::new_from_array(program.bytes.as_slice().try_into().unwrap());
    let seeds: [&[u8]; 2] = [tag.as_slice(), asset.bytes.as_slice()];
    match solana_pubkey::Pubkey::try_find_program_address(&seeds, &program_key) {
        Some((key, nonce)) => Some((Identity { bytes: key.to_bytes().to_vec() }, nonce)),
        None => None,
    }
}

/// Derivation determinism: two derivations with identical inputs yield an
/// identical identity.
pub proof fn lemma_derivation_deterministic(
    tag1: Seq<u8>,
    asset1: Seq<u8>,
    nonce1: u8,
    program1: Seq<u8>,
    tag2: Seq<u8>,
    asset2: Seq<u8>,
    nonce2: u8,
    program2: Seq<u8>,
)
    requires
        tag1 == tag2,
        asset1 == asset2,
        nonce1 == nonce2,
        program1 == program2,
    ensures
        derived_identity(tag1, asset1, nonce1, program1)
            == derived_identity(tag2, asset2, nonce2, program2),
        found_identity(tag1, asset1, program1) == found_identity(tag2, asset2, program2),
{
}

} // verus!
