use vstd::prelude::*;

use crate::amount::{amount_fits_u64, amount_u64, Amount};
use crate::bytes::{bytes_eq, clone_bytes};
use crate::derive::check_and_create_account;
use crate::error::Error;
use crate::seeds::{
    bridge_id_spec, custody_id_spec, derive_bridge_id, derive_custody_seeds,
    derive_wrapped_asset_seeds, wrapped_asset_id_spec,
};
use crate::state::AssetMeta;

verus! {

/// A fungible-token holding account of the external token ledger, modeled
/// by the balance and identities the bridge's logic reads.
pub struct TokenAccount {
    pub is_initialized: bool,
    pub mint: Vec<u8>,
    pub owner: Vec<u8>,
    pub amount: u64,
}

/// A fungible-token mint of the external token ledger.
pub struct Mint {
    pub is_initialized: bool,
    pub supply: u64,
}

pub open spec fn account_credited(t: TokenAccount, a: int) -> TokenAccount {
    TokenAccount { amount: (t.amount + a) as u64, ..t }
}

pub open spec fn account_debited(t: TokenAccount, a: int) -> TokenAccount {
    TokenAccount { amount: (t.amount - a) as u64, ..t }
}

pub open spec fn mint_burned(m: Mint, a: int) -> Mint {
    Mint { supply: (m.supply - a) as u64, ..m }
}

pub open spec fn mint_minted(m: Mint, a: int) -> Mint {
    Mint { supply: (m.supply + a) as u64, ..m }
}

/// Whether a burn of `a` from `acc` under `m` succeeds, and how it fails.
pub open spec fn burn_result(acc: TokenAccount, m: Mint, a: Seq<u8>) -> Result<(), Error> {
    if !amount_fits_u64(a) {
        Err(Error::InvalidInstructionData)
    } else if amount_u64(a) > acc.amount {
        Err(Error::InsufficientFunds)
    } else if amount_u64(a) > m.supply {
        Err(Error::InsufficientFunds)
    } else {
        Ok(())
    }
}

/// Whether minting `a` to `d` under `m` succeeds, and how it fails.
pub open spec fn mint_to_result(m: Mint, d: TokenAccount, a: Seq<u8>) -> Result<(), Error> {
    if !amount_fits_u64(a) {
        Err(Error::InvalidInstructionData)
    } else if m.supply + amount_u64(a) > u64::MAX {
        Err(Error::Overflow)
    } else if d.amount + amount_u64(a) > u64::MAX {
        Err(Error::Overflow)
    } else {
        Ok(())
    }
}

/// Whether a transfer of `a` from `s` to `d` succeeds, and how it fails.
pub open spec fn transfer_result(s: TokenAccount, d: TokenAccount, a: Seq<u8>) -> Result<
    (),
    Error,
> {
    if !amount_fits_u64(a) {
        Err(Error::InvalidInstructionData)
    } else if s.mint@ != d.mint@ {
        Err(Error::TokenMintMismatch)
    } else if amount_u64(a) > s.amount {
        Err(Error::InsufficientFunds)
    } else if d.amount + amount_u64(a) > u64::MAX {
        Err(Error::Overflow)
    } else {
        Ok(())
    }
}

/// Burns a wrapped amount from an account: balance and supply both drop
/// by the amount, or nothing changes.
pub fn wrapped_burn(account: &mut TokenAccount, mint: &mut Mint, amount: &Amount) -> (r: Result<
    (),
    Error,
>)
    requires
        amount.wf(),
    ensures
        r == burn_result(*old(account), *old(mint), amount@),
        r is Err ==> *final(account) == *old(account) && *final(mint) == *old(mint),
        r is Ok ==> *final(account) == account_debited(*old(account), amount_u64(amount@))
            && *final(mint) == mint_burned(*old(mint), amount_u64(amount@)),
{
    if !amount.fits_u64() {
        return Err(Error::InvalidInstructionData);
    }
    let a = amount.as_u64();
    if a > account.amount {
        return Err(Error::InsufficientFunds);
    }
    if a > mint.supply {
        return Err(Error::InsufficientFunds);
    }
    account.amount = account.amount - a;
    mint.supply = mint.supply - a;
    Ok(())
}

/// Mints a wrapped amount to an account: balance and supply both grow by
/// the amount, or nothing changes.
pub fn wrapped_mint_to(mint: &mut Mint, destination: &mut TokenAccount, amount: &Amount) -> (r:
    Result<(), Error>)
    requires
        amount.wf(),
    ensures
        r == mint_to_result(*old(mint), *old(destination), amount@),
        r is Err ==> *final(mint) == *old(mint) && *final(destination) == *old(destination),
        r is Ok ==> *final(mint) == mint_minted(*old(mint), amount_u64(amount@))
            && *final(destination) == account_credited(*old(destination), amount_u64(amount@)),
{
    if !amount.fits_u64() {
        return Err(Error::InvalidInstructionData);
    }
    let a = amount.as_u64();
    if a > u64::MAX - mint.supply {
        return Err(Error::Overflow);
    }
    if a > u64::MAX - destination.amount {
        return Err(Error::Overflow);
    }
    mint.supply = mint.supply + a;
    destination.amount = destination.amount + a;
    Ok(())
}

/// Moves an amount between two accounts of the same mint on a caller's
/// authority; the supply is untouched.
pub fn token_transfer_caller(
    source: &mut TokenAccount,
    destination: &mut TokenAccount,
    amount: &Amount,
) -> (r: Result<(), Error>)
    requires
        amount.wf(),
    ensures
        r == transfer_result(*old(source), *old(destination), amount@),
        r is Err ==> *final(source) == *old(source) && *final(destination) == *old(destination),
        r is Ok ==> *final(source) == account_debited(*old(source), amount_u64(amount@))
            && *final(destination) == account_credited(*old(destination), amount_u64(amount@)),
{
    if !amount.fits_u64() {
        return Err(Error::InvalidInstructionData);
    }
    if !bytes_eq(&source.mint, &destination.mint) {
        return Err(Error::TokenMintMismatch);
    }
    let a = amount.as_u64();
    if a > source.amount {
        return Err(Error::InsufficientFunds);
    }
    if a > u64::MAX - destination.amount {
        return Err(Error::Overflow);
    }
    source.amount = source.amount - a;
    destination.amount = destination.amount + a;
    Ok(())
}

/// Moves an amount out of a bridge-custody account on the bridge's
/// derived authority; balance semantics are those of a plain transfer.
pub fn token_transfer_custody(
    source: &mut TokenAccount,
    destination: &mut TokenAccount,
    amount: &Amount,
) -> (r: Result<(), Error>)
    requires
        amount.wf(),
    ensures
        r == transfer_result(*old(source), *old(destination), amount@),
        r is Err ==> *final(source) == *old(source) && *final(destination) == *old(destination),
        r is Ok ==> *final(source) == account_debited(*old(source), amount_u64(amount@))
            && *final(destination) == account_credited(*old(destination), amount_u64(amount@)),
{
    token_transfer_caller(source, destination, amount)
}

/// How provisioning the bridge's custody account for a mint ends.
pub open spec fn create_custody_result(
    program_id: Seq<u8>,
    bridge: Seq<u8>,
    custody_id: Seq<u8>,
    mint_id: Seq<u8>,
    custody: TokenAccount,
) -> Result<(), Error> {
    if custody_id != custody_id_spec(program_id, bridge, mint_id) {
        Err(Error::InvalidDerivedAccount)
    } else if custody.is_initialized {
        Err(Error::AlreadyExists)
    } else {
        Ok(())
    }
}

/// Provisions the bridge-owned custody account for a native mint at its
/// derived identifier, with a zero starting balance.
pub fn create_custody_account(
    program_id: &Vec<u8>,
    bridge_id: &Vec<u8>,
    custody_id: &Vec<u8>,
    mint_id: &Vec<u8>,
    custody: &mut TokenAccount,
) -> (r: Result<(), Error>)
    requires
        program_id@.len() == 32,
        bridge_id@.len() <= u32::MAX,
        mint_id@.len() <= u32::MAX,
    ensures
        r == create_custody_result(program_id@, bridge_id@, custody_id@, mint_id@, *old(custody)),
        r is Err ==> *final(custody) == *old(custody),
        r is Ok ==> *final(custody) == (TokenAccount {
            is_initialized: true,
            mint: final(custody).mint,
            owner: final(custody).owner,
            amount: 0,
        }) && final(custody).mint@ == mint_id@ && final(custody).owner@ == bridge_id_spec(
            program_id@,
        ),
{
    let seeds = derive_custody_seeds(bridge_id, mint_id);
    let derived = check_and_create_account(program_id, custody_id, &seeds);
    if derived.is_err() {
        return Err(Error::InvalidDerivedAccount);
    }
    if custody.is_initialized {
        return Err(Error::AlreadyExists);
    }
    custody.is_initialized = true;
    custody.mint = clone_bytes(mint_id);
    custody.owner = derive_bridge_id(program_id);
    custody.amount = 0;
    Ok(())
}

/// How provisioning a wrapped-asset mint ends.
pub open spec fn create_wrapped_mint_result(
    program_id: Seq<u8>,
    bridge: Seq<u8>,
    mint_id: Seq<u8>,
    asset_chain: u8,
    asset_address: Seq<u8>,
    mint: Mint,
) -> Result<(), Error> {
    if mint_id != wrapped_asset_id_spec(program_id, bridge, asset_chain, asset_address) {
        Err(Error::InvalidDerivedAccount)
    } else if mint.is_initialized {
        Err(Error::AlreadyExists)
    } else {
        Ok(())
    }
}

/// Provisions a bridge-controlled mint for a foreign asset at its derived
/// identifier, with zero starting supply.
pub fn create_wrapped_mint(
    program_id: &Vec<u8>,
    bridge_id: &Vec<u8>,
    mint_id: &Vec<u8>,
    asset: &AssetMeta,
    mint: &mut Mint,
) -> (r: Result<(), Error>)
    requires
        program_id@.len() == 32,
        bridge_id@.len() <= u32::MAX,
        asset.address@.len() <= u32::MAX,
    ensures
        r == create_wrapped_mint_result(
            program_id@,
            bridge_id@,
            mint_id@,
            asset.chain,
            asset.address@,
            *old(mint),
        ),
        r is Err ==> *final(mint) == *old(mint),
        r is Ok ==> *final(mint) == (Mint { is_initialized: true, supply: 0 }),
{
    let seeds = derive_wrapped_asset_seeds(bridge_id, asset.chain, &asset.address);
    let derived = check_and_create_account(program_id, mint_id, &seeds);
    if derived.is_err() {
        return Err(Error::InvalidDerivedAccount);
    }
    if mint.is_initialized {
        return Err(Error::AlreadyExists);
    }
    mint.is_initialized = true;
    mint.supply = 0;
    Ok(())
}

/// Conservation on the wrapped leg: an outbound burn of `a` matched by
/// the inbound mint of `a` on the same asset leaves the wrapped supply
/// exactly where it started.
pub proof fn lemma_wrapped_round_trip_supply(m0: Mint, a: int)
    requires
        0 <= a <= m0.supply,
    ensures
        mint_minted(mint_burned(m0, a), a) == m0,
{
}

/// Conservation on the native leg: locking `a` into custody and later
/// releasing `a` restores the custody balance, and a transfer never
/// touches the native mint's supply.
pub proof fn lemma_native_round_trip_custody(c0: TokenAccount, a: int)
    requires
        0 <= a,
        c0.amount + a <= u64::MAX,
    ensures
        account_debited(account_credited(c0, a), a) == c0,
{
}

} // verus!
