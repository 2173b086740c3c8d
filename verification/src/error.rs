use vstd::prelude::*;

verus! {

/// Stable error codes surfaced to callers; every failing operation
/// leaves all records it was handed unchanged.
#[derive(Clone, Copy, Debug, PartialEq, Eq, Structural)]
pub enum Error {
    /// A record that must be fresh is already initialized.
    AlreadyExists,
    /// A request payload is structurally unacceptable.
    InvalidInstructionData,
    /// A supplied record address does not match its deterministic derivation.
    InvalidDerivedAccount,
    /// A token account's mint disagrees with the declared mint.
    TokenMintMismatch,
    /// A custody account is not owned by the bridge authority.
    WrongTokenAccountOwner,
    /// A token account holds less than the requested amount.
    InsufficientFunds,
    /// A balance or supply would exceed its representable range.
    Overflow,
    /// The guardian set failed the staleness check against the clock.
    GuardianSetExpired,
    /// The VAA validity window check against the clock failed.
    VAAExpired,
    /// The signature list does not establish a quorum of distinct guardians.
    InvalidVAASignature,
    /// The raw VAA bytes are malformed.
    InvalidVAAFormat,
    /// The VAA was already applied once.
    VAAClaimed,
    /// A rotation was signed by a set that is no longer the active one.
    OldGuardianSet,
    /// A rotation does not strictly increase the guardian set index.
    GuardianIndexNotIncreasing,
    /// A transfer body does not match the proposal it references.
    VAAProposalMismatch,
    /// The proposal already carries an attached VAA.
    VAAAlreadySubmitted,
    /// The raw VAA bytes exceed the proposal's buffer bound.
    VAATooLong,
    /// A native asset cannot be wrapped on its own chain.
    CannotWrapNative,
}

} // verus!
