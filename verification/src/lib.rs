//! Verification-and-settlement core of a cross-chain asset bridge: it
//! proves that an attested message (a VAA) carries a quorum of guardian
//! signatures over its content, guards every message against replay, and
//! moves value between a local custody ledger and wrapped representations
//! of foreign assets. Every record is addressed by a deterministic
//! derivation from semantic seeds, which is the sole authorization for
//! touching it. The host's storage substrate and the token ledger are
//! external collaborators: the library works on plain records handed in
//! and states in each contract exactly how they come back.

use vstd::prelude::*;

pub mod amount;
pub mod bytes;
pub mod crypto;
pub mod derive;
pub mod engine;
pub mod error;
pub mod seeds;
pub mod state;
pub mod token;
pub mod vaa;

verus! {

/// Chain identifier of the local ledger.
pub const CHAIN_ID_SOLANA: u8 = 1;

/// Largest number of guardian keys a guardian set may hold.
pub const MAX_LEN_GUARDIAN_KEYS: usize = 20;

/// Largest number of raw VAA bytes a transfer proposal can store.
pub const MAX_VAA_SIZE: usize = 1000;

} // verus!
