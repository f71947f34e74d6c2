//! A single-issuance asset custody core.
//!
//! An asset class (a mint with zero decimals) is issued exactly once into a
//! holder's account, permanently frozen, and the administrative authority over
//! the class's mint and freeze controls can be delegated to a deterministically
//! derived program identity and later reclaimed by the recorded principal.
//!
//! The library models the ledger state the protocol touches (the asset class's
//! authority slots, the holder's token account, the authority record) as plain
//! values, states each operation as a spec-level transition, and proves the
//! executable operations against those transitions.

pub mod derivation;
pub mod identity;
pub mod laws;
pub mod ledger;
pub mod ops;

pub use identity::Identity;
