use vstd::prelude::*;

use crate::amount::{amount_u64, Amount};
use crate::bytes::{bytes_eq, clone_bytes, clone_rows};
use crate::derive::check_and_create_account;
use crate::error::Error;
use crate::seeds::{
    bridge_id_spec, claim_id_spec, custody_id_spec, derive_bridge_id, derive_bridge_seeds,
    derive_claim_seeds, derive_custody_id, derive_guardian_set_id, derive_guardian_set_seeds,
    derive_transfer_id_seeds, derive_wrapped_asset_id, derive_wrapped_meta_seeds,
    guardian_set_id_spec, transfer_id_spec, wrapped_asset_id_spec, wrapped_meta_id_spec,
};
use crate::state::{
    guardian_set_wf, proposal_matches_transfer, AssetMeta, Bridge, BridgeConfig, ClaimedVAA,
    GuardianSet, TransferOutProposal, WrappedAssetMeta,
};
use crate::token::{
    account_credited, account_debited, burn_result, create_custody_account, create_wrapped_mint,
    mint_burned, mint_minted, mint_to_result, token_transfer_custody, transfer_result,
    wrapped_burn, wrapped_mint_to, Mint, TokenAccount,
};
use crate::vaa::{
    parse_vaa, transfer_wf, update_wf, vaa_digest_of, vaa_wf, verify_quorum_spec, BodyTransfer,
    BodyTransferView, BodyUpdateGuardianSet, BodyUpdateView, BodyView, VAABody, VAA, VAAView,
};
use crate::{CHAIN_ID_SOLANA, MAX_LEN_GUARDIAN_KEYS, MAX_VAA_SIZE};

verus! {

/// Inputs of an initialize request.
pub struct InitializePayload {
    pub initial_guardian: Vec<Vec<u8>>,
    pub config: BridgeConfig,
}

/// Inputs of an outbound transfer request.
pub struct TransferOutPayload {
    pub amount: Amount,
    /// Chain the transfer is headed to.
    pub chain_id: u8,
    pub asset: AssetMeta,
    /// Recipient on the target chain.
    pub target: Vec<u8>,
    pub nonce: u32,
}

// -------------------------------------------------------------------
// Initialize.
// -------------------------------------------------------------------

/// How an initialize request ends, in check order.
pub open spec fn initialize_result(
    program_id: Seq<u8>,
    new_bridge_id: Seq<u8>,
    new_guardian_id: Seq<u8>,
    n_keys: nat,
    bridge: Bridge,
    guardian: GuardianSet,
) -> Result<(), Error> {
    if new_bridge_id != bridge_id_spec(program_id) {
        Err(Error::InvalidDerivedAccount)
    } else if bridge.is_initialized {
        Err(Error::AlreadyExists)
    } else if new_guardian_id != guardian_set_id_spec(program_id, new_bridge_id, 0) {
        Err(Error::InvalidDerivedAccount)
    } else if guardian.is_initialized {
        Err(Error::AlreadyExists)
    } else if n_keys > MAX_LEN_GUARDIAN_KEYS {
        Err(Error::InvalidInstructionData)
    } else {
        Ok(())
    }
}

/// Installs the bridge singleton and guardian set 0 as active; both
/// records must be fresh and stand at their derived identifiers.
pub fn process_initialize(
    program_id: &Vec<u8>,
    new_bridge_id: &Vec<u8>,
    new_guardian_id: &Vec<u8>,
    now: u32,
    initial_guardian: &Vec<Vec<u8>>,
    config: &BridgeConfig,
    bridge: &mut Bridge,
    guardian: &mut GuardianSet,
) -> (r: Result<(), Error>)
    requires
        program_id@.len() == 32,
        new_bridge_id@.len() == 32,
        forall|i: int| 0 <= i < initial_guardian@.len() ==> (
        #[trigger] initial_guardian@[i])@.len() == 20,
    ensures
        r == initialize_result(
            program_id@,
            new_bridge_id@,
            new_guardian_id@,
            initial_guardian@.len() as nat,
            *old(bridge),
            *old(guardian),
        ),
        r is Err ==> *final(bridge) == *old(bridge) && *final(guardian) == *old(guardian),
        r is Ok ==> *final(bridge) == (Bridge {
            is_initialized: true,
            guardian_set_index: 0,
            config: final(bridge).config,
        }) && final(bridge).config.token_program@ == config.token_program@ && final(bridge).config.vaa_expiration_time == config.vaa_expiration_time,
        r is Ok ==> final(guardian).is_initialized && final(guardian).index == 0 && final(guardian).keys.deep_view() == initial_guardian.deep_view() && final(guardian).creation_time == now
            && final(guardian).expiration_time == 0 && guardian_set_wf(*final(guardian)),
{
    let bridge_seeds = derive_bridge_seeds();
    if check_and_create_account(program_id, new_bridge_id, &bridge_seeds).is_err() {
        return Err(Error::InvalidDerivedAccount);
    }
    if bridge.is_initialized {
        return Err(Error::AlreadyExists);
    }
    let guardian_seeds = derive_guardian_set_seeds(new_bridge_id, 0);
    if check_and_create_account(program_id, new_guardian_id, &guardian_seeds).is_err() {
        return Err(Error::InvalidDerivedAccount);
    }
    if guardian.is_initialized {
        return Err(Error::AlreadyExists);
    }
    if initial_guardian.len() > MAX_LEN_GUARDIAN_KEYS {
        return Err(Error::InvalidInstructionData);
    }
    bridge.is_initialized = true;
    bridge.guardian_set_index = 0;
    bridge.config = BridgeConfig {
        token_program: clone_bytes(&config.token_program),
        vaa_expiration_time: config.vaa_expiration_time,
    };
    guardian.is_initialized = true;
    guardian.index = 0;
    guardian.keys = clone_rows(initial_guardian);
    guardian.creation_time = now;
    guardian.expiration_time = 0;
    Ok(())
}

// -------------------------------------------------------------------
// Outbound transfer of a wrapped asset: burn, then record the proposal.
// -------------------------------------------------------------------

/// How a wrapped-asset outbound transfer ends, in check order.
pub open spec fn transfer_out_result(
    program_id: Seq<u8>,
    bridge_id: Seq<u8>,
    sender_id: Seq<u8>,
    transfer_id: Seq<u8>,
    mint_id: Seq<u8>,
    amount: Seq<u8>,
    chain_id: u8,
    asset_chain: u8,
    asset_address: Seq<u8>,
    target: Seq<u8>,
    nonce: u32,
    sender: TokenAccount,
    mint: Mint,
    transfer: TransferOutProposal,
) -> Result<(), Error> {
    if sender.mint@ != mint_id {
        Err(Error::TokenMintMismatch)
    } else if mint_id != wrapped_asset_id_spec(program_id, bridge_id, asset_chain, asset_address) {
        Err(Error::InvalidDerivedAccount)
    } else if transfer_id != transfer_id_spec(
        program_id,
        bridge_id,
        asset_chain,
        asset_address,
        chain_id,
        target,
        sender_id,
        nonce,
    ) {
        Err(Error::InvalidDerivedAccount)
    } else if transfer.is_initialized {
        Err(Error::AlreadyExists)
    } else {
        burn_result(sender, mint, amount)
    }
}

/// The proposal a successful outbound transfer leaves behind.
pub open spec fn proposal_recorded(
    p: TransferOutProposal,
    amount: Seq<u8>,
    chain_id: u8,
    asset_chain: u8,
    asset_address: Seq<u8>,
    target: Seq<u8>,
    nonce: u32,
    sender_id: Seq<u8>,
) -> bool {
    &&& p.is_initialized
    &&& p.amount@ == amount
    &&& p.to_chain_id == chain_id
    &&& p.source_address@ == sender_id
    &&& p.foreign_address@ == target
    &&& p.nonce == nonce
    &&& p.asset.chain == asset_chain
    &&& p.asset.address@ == asset_address
    &&& p.vaa@ == Seq::<u8>::empty()
    &&& p.vaa_time == 0
}

/// Outbound leg for a wrapped asset: burns the amount from the sender
/// under the bridge's authority and records the transfer proposal. The
/// mint must be this bridge's derived mint for the declared foreign
/// asset.
pub fn process_transfer_out(
    program_id: &Vec<u8>,
    bridge_id: &Vec<u8>,
    sender_id: &Vec<u8>,
    transfer_id: &Vec<u8>,
    mint_id: &Vec<u8>,
    t: &TransferOutPayload,
    sender: &mut TokenAccount,
    mint: &mut Mint,
    transfer: &mut TransferOutProposal,
) -> (r: Result<(), Error>)
    requires
        program_id@.len() == 32,
        bridge_id@.len() == 32,
        sender_id@.len() == 32,
        t.asset.address@.len() == 32,
        t.target@.len() == 32,
        t.amount.wf(),
    ensures
        r == transfer_out_result(
            program_id@,
            bridge_id@,
            sender_id@,
            transfer_id@,
            mint_id@,
            t.amount@,
            t.chain_id,
            t.asset.chain,
            t.asset.address@,
            t.target@,
            t.nonce,
            *old(sender),
            *old(mint),
            *old(transfer),
        ),
        r is Err ==> *final(sender) == *old(sender) && *final(mint) == *old(mint) && *final(transfer) == *old(transfer),
        r is Ok ==> *final(sender) == account_debited(*old(sender), amount_u64(t.amount@))
            && *final(mint) == mint_burned(*old(mint), amount_u64(t.amount@)),
        r is Ok ==> proposal_recorded(
            *final(transfer),
            t.amount@,
            t.chain_id,
            t.asset.chain,
            t.asset.address@,
            t.target@,
            t.nonce,
            sender_id@,
        ),
{
    if !bytes_eq(&sender.mint, mint_id) {
        return Err(Error::TokenMintMismatch);
    }
    let expected_mint = derive_wrapped_asset_id(program_id, bridge_id, t.asset.chain, &t.asset.address);
    if !bytes_eq(&expected_mint, mint_id) {
        return Err(Error::InvalidDerivedAccount);
    }
    let transfer_seeds = derive_transfer_id_seeds(
        bridge_id,
        t.asset.chain,
        &t.asset.address,
        t.chain_id,
        &t.target,
        sender_id,
        t.nonce,
    );
    if check_and_create_account(program_id, transfer_id, &transfer_seeds).is_err() {
        return Err(Error::InvalidDerivedAccount);
    }
    if transfer.is_initialized {
        return Err(Error::AlreadyExists);
    }
    let burned = wrapped_burn(sender, mint, &t.amount);
    if let Err(e) = burned {
        return Err(e);
    }
    transfer.is_initialized = true;
    transfer.nonce = t.nonce;
    transfer.source_address = clone_bytes(sender_id);
    transfer.foreign_address = clone_bytes(&t.target);
    transfer.amount = t.amount.duplicate();
    transfer.to_chain_id = t.chain_id;
    transfer.asset = t.asset.duplicate();
    transfer.vaa = Vec::new();
    transfer.vaa_time = 0;
    proof {
        assert(transfer.vaa@ =~= Seq::<u8>::empty());
    }
    Ok(())
}

// -------------------------------------------------------------------
// Outbound transfer of a native asset: lock into custody.
// -------------------------------------------------------------------

/// How a native-asset outbound transfer ends, in check order. The
/// custody account is provisioned on first use before the owner check.
pub open spec fn transfer_native_out_result(
    program_id: Seq<u8>,
    bridge_id: Seq<u8>,
    sender_id: Seq<u8>,
    transfer_id: Seq<u8>,
    mint_id: Seq<u8>,
    custody_id: Seq<u8>,
    amount: Seq<u8>,
    chain_id: u8,
    asset_chain: u8,
    asset_address: Seq<u8>,
    target: Seq<u8>,
    nonce: u32,
    sender: TokenAccount,
    transfer: TransferOutProposal,
    custody: TokenAccount,
) -> Result<(), Error> {
    if sender.mint@ != mint_id {
        Err(Error::TokenMintMismatch)
    } else if transfer_id != transfer_id_spec(
        program_id,
        bridge_id,
        asset_chain,
        asset_address,
        chain_id,
        target,
        sender_id,
        nonce,
    ) {
        Err(Error::InvalidDerivedAccount)
    } else if transfer.is_initialized {
        Err(Error::AlreadyExists)
    } else if custody_id != custody_id_spec(program_id, bridge_id, mint_id) {
        Err(Error::InvalidDerivedAccount)
    } else {
        let cust_owner = if custody.is_initialized {
            custody.owner@
        } else {
            bridge_id_spec(program_id)
        };
        let cust_mint = if custody.is_initialized {
            custody.mint@
        } else {
            mint_id
        };
        let cust_amount = if custody.is_initialized {
            custody.amount
        } else {
            0u64
        };
        if cust_owner != bridge_id_spec(program_id) {
            Err(Error::WrongTokenAccountOwner)
        } else if !crate::amount::amount_fits_u64(amount) {
            Err(Error::InvalidInstructionData)
        } else if sender.mint@ != cust_mint {
            Err(Error::TokenMintMismatch)
        } else if amount_u64(amount) > sender.amount {
            Err(Error::InsufficientFunds)
        } else if cust_amount + amount_u64(amount) > u64::MAX {
            Err(Error::Overflow)
        } else {
            Ok(())
        }
    }
}

/// Outbound leg for a native asset: locks the amount into the bridge's
/// custody account, provisioning it on first use, and records the
/// proposal with the asset forced to the local mint — the sender's
/// declared asset is discarded so the custody identity cannot be
/// spoofed.
pub fn process_transfer_native_out(
    program_id: &Vec<u8>,
    bridge_id: &Vec<u8>,
    sender_id: &Vec<u8>,
    transfer_id: &Vec<u8>,
    mint_id: &Vec<u8>,
    custody_id: &Vec<u8>,
    t: &TransferOutPayload,
    sender: &mut TokenAccount,
    transfer: &mut TransferOutProposal,
    custody: &mut TokenAccount,
) -> (r: Result<(), Error>)
    requires
        program_id@.len() == 32,
        bridge_id@.len() == 32,
        sender_id@.len() == 32,
        mint_id@.len() == 32,
        t.asset.address@.len() == 32,
        t.target@.len() == 32,
        t.amount.wf(),
    ensures
        r == transfer_native_out_result(
            program_id@,
            bridge_id@,
            sender_id@,
            transfer_id@,
            mint_id@,
            custody_id@,
            t.amount@,
            t.chain_id,
            t.asset.chain,
            t.asset.address@,
            t.target@,
            t.nonce,
            *old(sender),
            *old(transfer),
            *old(custody),
        ),
        r is Err ==> *final(sender) == *old(sender) && *final(transfer) == *old(transfer)
            && *final(custody) == *old(custody),
        r is Ok ==> *final(sender) == account_debited(*old(sender), amount_u64(t.amount@)),
        r is Ok && old(custody).is_initialized ==> *final(custody) == account_credited(
            *old(custody),
            amount_u64(t.amount@),
        ),
        r is Ok && !old(custody).is_initialized ==> final(custody).is_initialized && final(custody).mint@ == mint_id@ && final(custody).owner@ == bridge_id_spec(program_id@) && final(custody).amount == amount_u64(t.amount@),
        r is Ok ==> proposal_recorded(
            *final(transfer),
            t.amount@,
            t.chain_id,
            CHAIN_ID_SOLANA,
            mint_id@,
            t.target@,
            t.nonce,
            sender_id@,
        ),
{
    if !bytes_eq(&sender.mint, mint_id) {
        return Err(Error::TokenMintMismatch);
    }
    let transfer_seeds = derive_transfer_id_seeds(
        bridge_id,
        t.asset.chain,
        &t.asset.address,
        t.chain_id,
        &t.target,
        sender_id,
        t.nonce,
    );
    if check_and_create_account(program_id, transfer_id, &transfer_seeds).is_err() {
        return Err(Error::InvalidDerivedAccount);
    }
    if transfer.is_initialized {
        return Err(Error::AlreadyExists);
    }
    let expected_custody = derive_custody_id(program_id, bridge_id, mint_id);
    if !bytes_eq(&expected_custody, custody_id) {
        return Err(Error::InvalidDerivedAccount);
    }
    let bridge_authority = derive_bridge_id(program_id);
    // Decide every remaining failure before touching any record, so a
    // failed request leaves all records as they were.
    if custody.is_initialized {
        if !bytes_eq(&custody.owner, &bridge_authority) {
            return Err(Error::WrongTokenAccountOwner);
        }
    }
    if !t.amount.fits_u64() {
        return Err(Error::InvalidInstructionData);
    }
    let a = t.amount.as_u64();
    if custody.is_initialized {
        if !bytes_eq(&sender.mint, &custody.mint) {
            return Err(Error::TokenMintMismatch);
        }
    }
    if a > sender.amount {
        return Err(Error::InsufficientFunds);
    }
    let custody_balance = if custody.is_initialized {
        custody.amount
    } else {
        0
    };
    if a > u64::MAX - custody_balance {
        return Err(Error::Overflow);
    }
    if !custody.is_initialized {
        let created = create_custody_account(program_id, bridge_id, custody_id, mint_id, custody);
        if created.is_err() {
            return Err(Error::InvalidDerivedAccount);
        }
    }
    sender.amount = sender.amount - a;
    custody.amount = custody.amount + a;
    transfer.is_initialized = true;
    transfer.nonce = t.nonce;
    transfer.source_address = clone_bytes(sender_id);
    transfer.foreign_address = clone_bytes(&t.target);
    transfer.amount = t.amount.duplicate();
    transfer.to_chain_id = t.chain_id;
    // The recorded asset names the local mint, never the caller's claim.
    transfer.asset = AssetMeta { chain: CHAIN_ID_SOLANA, address: clone_bytes(mint_id) };
    transfer.vaa = Vec::new();
    transfer.vaa_time = 0;
    proof {
        assert(transfer.vaa@ =~= Seq::<u8>::empty());
    }
    Ok(())
}

// -------------------------------------------------------------------
// Wrapped-asset creation.
// -------------------------------------------------------------------

/// How a create-wrapped request ends, in check order.
pub open spec fn create_wrapped_result(
    program_id: Seq<u8>,
    bridge_id: Seq<u8>,
    mint_id: Seq<u8>,
    meta_id: Seq<u8>,
    asset_chain: u8,
    asset_address: Seq<u8>,
    mint: Mint,
    meta: WrappedAssetMeta,
) -> Result<(), Error> {
    if asset_chain == CHAIN_ID_SOLANA {
        Err(Error::CannotWrapNative)
    } else if meta_id != wrapped_meta_id_spec(program_id, bridge_id, mint_id) {
        Err(Error::InvalidDerivedAccount)
    } else if meta.is_initialized {
        Err(Error::AlreadyExists)
    } else if mint_id != wrapped_asset_id_spec(program_id, bridge_id, asset_chain, asset_address) {
        Err(Error::InvalidDerivedAccount)
    } else if mint.is_initialized {
        Err(Error::AlreadyExists)
    } else {
        Ok(())
    }
}

/// Provisions a bridge-controlled mint for a foreign asset plus the
/// reverse-lookup record; a native asset cannot be wrapped.
pub fn process_create_wrapped(
    program_id: &Vec<u8>,
    bridge_id: &Vec<u8>,
    mint_id: &Vec<u8>,
    meta_id: &Vec<u8>,
    a: &AssetMeta,
    mint: &mut Mint,
    meta: &mut WrappedAssetMeta,
) -> (r: Result<(), Error>)
    requires
        program_id@.len() == 32,
        bridge_id@.len() == 32,
        mint_id@.len() == 32,
        a.address@.len() == 32,
    ensures
        r == create_wrapped_result(
            program_id@,
            bridge_id@,
            mint_id@,
            meta_id@,
            a.chain,
            a.address@,
            *old(mint),
            *old(meta),
        ),
        r is Err ==> *final(mint) == *old(mint) && *final(meta) == *old(meta),
        r is Ok ==> *final(mint) == (Mint { is_initialized: true, supply: 0 }),
        r is Ok ==> final(meta).is_initialized && final(meta).chain == a.chain && final(meta).address@ == a.address@,
{
    if a.chain == CHAIN_ID_SOLANA {
        return Err(Error::CannotWrapNative);
    }
    let meta_seeds = derive_wrapped_meta_seeds(bridge_id, mint_id);
    if check_and_create_account(program_id, meta_id, &meta_seeds).is_err() {
        return Err(Error::InvalidDerivedAccount);
    }
    if meta.is_initialized {
        return Err(Error::AlreadyExists);
    }
    let created = create_wrapped_mint(program_id, bridge_id, mint_id, a, mint);
    if let Err(e) = created {
        return Err(e);
    }
    meta.is_initialized = true;
    meta.chain = a.chain;
    meta.address = clone_bytes(&a.address);
    Ok(())
}

// -------------------------------------------------------------------
// Guardian-set rotation, authorized by an already-verified VAA.
// -------------------------------------------------------------------

/// How a rotation ends, in check order: only the active set may rotate,
/// the index must strictly increase, and the new record must be fresh at
/// its derived identifier.
pub open spec fn set_update_result(
    program_id: Seq<u8>,
    bridge_id: Seq<u8>,
    new_guardian_id: Seq<u8>,
    b: BodyUpdateView,
    bridge: Bridge,
    old_set: GuardianSet,
    new_set: GuardianSet,
) -> Result<(), Error> {
    if bridge.guardian_set_index != old_set.index {
        Err(Error::OldGuardianSet)
    } else if b.new_index <= bridge.guardian_set_index {
        Err(Error::GuardianIndexNotIncreasing)
    } else if new_guardian_id != guardian_set_id_spec(program_id, bridge_id, b.new_index) {
        Err(Error::InvalidDerivedAccount)
    } else if new_set.is_initialized {
        Err(Error::AlreadyExists)
    } else if b.new_keys.len() > MAX_LEN_GUARDIAN_KEYS {
        Err(Error::InvalidVAAFormat)
    } else {
        Ok(())
    }
}

/// What a successful rotation leaves behind: the active index advanced,
/// the outgoing set expiring at the end of its grace window, the new set
/// active.
pub open spec fn set_update_effects(
    b: BodyUpdateView,
    now: u32,
    old_bridge: Bridge,
    old_old_set: GuardianSet,
    bridge: Bridge,
    old_set: GuardianSet,
    new_set: GuardianSet,
) -> bool {
    &&& bridge == (Bridge { guardian_set_index: b.new_index, ..old_bridge })
    &&& old_set == (GuardianSet {
        expiration_time: (now + old_bridge.config.vaa_expiration_time) as u32,
        ..old_old_set
    })
    &&& new_set.is_initialized
    &&& new_set.index == b.new_index
    &&& new_set.keys.deep_view() == b.new_keys
    &&& new_set.creation_time == now
    &&& new_set.expiration_time == 0
}

/// Installs a new guardian set and expires the outgoing one. The active
/// index strictly increases, and the outgoing set stays signature-valid
/// exactly through `now + vaa_expiration_time`.
pub fn process_vaa_set_update(
    program_id: &Vec<u8>,
    bridge_id: &Vec<u8>,
    new_guardian_id: &Vec<u8>,
    now: u32,
    b: &BodyUpdateGuardianSet,
    bridge: &mut Bridge,
    old_guardian_set: &mut GuardianSet,
    new_guardian_set: &mut GuardianSet,
) -> (r: Result<(), Error>)
    requires
        program_id@.len() == 32,
        bridge_id@.len() == 32,
        update_wf(b@),
        now + old(bridge).config.vaa_expiration_time <= u32::MAX,
    ensures
        r == set_update_result(
            program_id@,
            bridge_id@,
            new_guardian_id@,
            b@,
            *old(bridge),
            *old(old_guardian_set),
            *old(new_guardian_set),
        ),
        r is Err ==> *final(bridge) == *old(bridge) && *final(old_guardian_set) == *old(
            old_guardian_set,
        ) && *final(new_guardian_set) == *old(new_guardian_set),
        r is Ok ==> set_update_effects(
            b@,
            now,
            *old(bridge),
            *old(old_guardian_set),
            *final(bridge),
            *final(old_guardian_set),
            *final(new_guardian_set),
        ),
        r is Ok ==> guardian_set_wf(*final(new_guardian_set)),
        r is Ok ==> final(bridge).guardian_set_index > old(bridge).guardian_set_index,
{
    if bridge.guardian_set_index != old_guardian_set.index {
        return Err(Error::OldGuardianSet);
    }
    if b.new_index <= bridge.guardian_set_index {
        return Err(Error::GuardianIndexNotIncreasing);
    }
    let seeds = derive_guardian_set_seeds(bridge_id, b.new_index);
    if check_and_create_account(program_id, new_guardian_id, &seeds).is_err() {
        return Err(Error::InvalidDerivedAccount);
    }
    if new_guardian_set.is_initialized {
        return Err(Error::AlreadyExists);
    }
    if b.new_keys.len() > MAX_LEN_GUARDIAN_KEYS {
        return Err(Error::InvalidVAAFormat);
    }
    // The outgoing set keeps signing until its grace window closes, so
    // in-flight attestations by it are not orphaned.
    old_guardian_set.expiration_time = now + bridge.config.vaa_expiration_time;
    new_guardian_set.is_initialized = true;
    new_guardian_set.index = b.new_index;
    new_guardian_set.keys = clone_rows(&b.new_keys);
    new_guardian_set.creation_time = now;
    new_guardian_set.expiration_time = 0;
    bridge.guardian_set_index = b.new_index;
    proof {
        assert forall|i: int| 0 <= i < new_guardian_set.keys@.len() implies (
        #[trigger] new_guardian_set.keys@[i])@.len() == 20 by {
            assert(b.new_keys.deep_view()[i] == b.new_keys@[i]@);
            assert(b@.new_keys[i].len() == 20);
        }
    }
    Ok(())
}

// -------------------------------------------------------------------
// Inbound transfer: release custody or mint the wrapped asset.
// -------------------------------------------------------------------

/// How an inbound transfer ends, in check order. A native asset comes
/// back out of custody; a foreign one is minted, with the derivation of
/// the mint as the sole proof that it is this bridge's mint.
pub open spec fn transfer_in_result(
    program_id: Seq<u8>,
    bridge_id: Seq<u8>,
    mint_id: Seq<u8>,
    custody_id: Seq<u8>,
    b: BodyTransferView,
    mint: Mint,
    destination: TokenAccount,
    custody: TokenAccount,
) -> Result<(), Error> {
    if destination.mint@ != mint_id {
        Err(Error::TokenMintMismatch)
    } else if b.asset.chain == CHAIN_ID_SOLANA {
        if custody_id != custody_id_spec(program_id, bridge_id, mint_id) {
            Err(Error::InvalidDerivedAccount)
        } else {
            transfer_result(custody, destination, b.amount)
        }
    } else {
        if mint_id != wrapped_asset_id_spec(program_id, bridge_id, b.asset.chain, b.asset.address) {
            Err(Error::InvalidDerivedAccount)
        } else {
            mint_to_result(mint, destination, b.amount)
        }
    }
}

/// What a successful inbound transfer changes: custody drops or supply
/// grows by exactly the attested amount, and the destination gains it.
pub open spec fn transfer_in_effects(
    b: BodyTransferView,
    old_mint: Mint,
    old_dest: TokenAccount,
    old_cust: TokenAccount,
    mint: Mint,
    dest: TokenAccount,
    cust: TokenAccount,
) -> bool {
    if b.asset.chain == CHAIN_ID_SOLANA {
        &&& mint == old_mint
        &&& cust == account_debited(old_cust, amount_u64(b.amount))
        &&& dest == account_credited(old_dest, amount_u64(b.amount))
    } else {
        &&& cust == old_cust
        &&& mint == mint_minted(old_mint, amount_u64(b.amount))
        &&& dest == account_credited(old_dest, amount_u64(b.amount))
    }
}

/// Applies a verified inbound transfer body: releases a native asset
/// from custody, or mints the bridge's wrapped asset for a foreign one.
pub fn process_vaa_transfer(
    program_id: &Vec<u8>,
    bridge_id: &Vec<u8>,
    mint_id: &Vec<u8>,
    custody_id: &Vec<u8>,
    b: &BodyTransfer,
    mint: &mut Mint,
    destination: &mut TokenAccount,
    custody: &mut TokenAccount,
) -> (r: Result<(), Error>)
    requires
        program_id@.len() == 32,
        bridge_id@.len() == 32,
        mint_id@.len() == 32,
        transfer_wf(b@),
    ensures
        r == transfer_in_result(
            program_id@,
            bridge_id@,
            mint_id@,
            custody_id@,
            b@,
            *old(mint),
            *old(destination),
            *old(custody),
        ),
        r is Err ==> *final(mint) == *old(mint) && *final(destination) == *old(destination)
            && *final(custody) == *old(custody),
        r is Ok ==> transfer_in_effects(
            b@,
            *old(mint),
            *old(destination),
            *old(custody),
            *final(mint),
            *final(destination),
            *final(custody),
        ),
{
    if !bytes_eq(&destination.mint, mint_id) {
        return Err(Error::TokenMintMismatch);
    }
    if b.asset.chain == CHAIN_ID_SOLANA {
        let expected_custody = derive_custody_id(program_id, bridge_id, mint_id);
        if !bytes_eq(&expected_custody, custody_id) {
            return Err(Error::InvalidDerivedAccount);
        }
        token_transfer_custody(custody, destination, &b.amount)
    } else {
        let expected_mint = derive_wrapped_asset_id(program_id, bridge_id, b.asset.chain, &b.asset.address);
        if !bytes_eq(&expected_mint, mint_id) {
            return Err(Error::InvalidDerivedAccount);
        }
        wrapped_mint_to(mint, destination, &b.amount)
    }
}

// -------------------------------------------------------------------
// Attestation attach: the proposal as durable evidence for the foreign
// chain.
// -------------------------------------------------------------------

/// How attaching an attestation ends, in check order: the proposal must
/// stand at the derived identifier for the body's fields, match the body
/// exactly, and not be attested yet.
pub open spec fn transfer_post_result(
    program_id: Seq<u8>,
    bridge_id: Seq<u8>,
    proposal_id: Seq<u8>,
    b: BodyTransferView,
    vaa_len: nat,
    proposal: TransferOutProposal,
) -> Result<(), Error> {
    if proposal_id != transfer_id_spec(
        program_id,
        bridge_id,
        b.asset.chain,
        b.asset.address,
        b.target_chain,
        b.target_address,
        b.source_address,
        b.nonce,
    ) {
        Err(Error::InvalidDerivedAccount)
    } else if !proposal_matches_transfer(proposal, b) {
        Err(Error::VAAProposalMismatch)
    } else if proposal.vaa_time != 0 {
        Err(Error::VAAAlreadySubmitted)
    } else if vaa_len > MAX_VAA_SIZE {
        Err(Error::VAATooLong)
    } else {
        Ok(())
    }
}

/// Attaches the raw VAA bytes to the matching proposal exactly once.
pub fn process_vaa_transfer_post(
    program_id: &Vec<u8>,
    bridge_id: &Vec<u8>,
    proposal_id: &Vec<u8>,
    vaa: &VAA,
    b: &BodyTransfer,
    vaa_data: &Vec<u8>,
    proposal: &mut TransferOutProposal,
) -> (r: Result<(), Error>)
    requires
        program_id@.len() == 32,
        bridge_id@.len() == 32,
        transfer_wf(b@),
    ensures
        r == transfer_post_result(
            program_id@,
            bridge_id@,
            proposal_id@,
            b@,
            vaa_data@.len() as nat,
            *old(proposal),
        ),
        r is Err ==> *final(proposal) == *old(proposal),
        r is Ok ==> *final(proposal) == (TransferOutProposal {
            vaa: final(proposal).vaa,
            vaa_time: vaa.timestamp,
            ..*old(proposal)
        }) && final(proposal).vaa@ == vaa_data@,
{
    let seeds = derive_transfer_id_seeds(
        bridge_id,
        b.asset.chain,
        &b.asset.address,
        b.target_chain,
        &b.target_address,
        &b.source_address,
        b.nonce,
    );
    if check_and_create_account(program_id, proposal_id, &seeds).is_err() {
        return Err(Error::InvalidDerivedAccount);
    }
    if !proposal.matches_vaa(b) {
        return Err(Error::VAAProposalMismatch);
    }
    if proposal.vaa_time != 0 {
        return Err(Error::VAAAlreadySubmitted);
    }
    if vaa_data.len() > MAX_VAA_SIZE {
        return Err(Error::VAATooLong);
    }
    proposal.vaa = clone_bytes(vaa_data);
    proposal.vaa_time = vaa.timestamp;
    Ok(())
}

// -------------------------------------------------------------------
// PostVAA: verification engine, replay guard, then payload dispatch.
// -------------------------------------------------------------------

/// The records a VAA's payload touches, by payload kind.
pub enum VaaTarget {
    NewGuardians { new_guardian_id: Vec<u8>, new_guardian_set: GuardianSet },
    TransferIn {
        mint_id: Vec<u8>,
        mint: Mint,
        destination: TokenAccount,
        custody_id: Vec<u8>,
        custody: TokenAccount,
    },
    Proposal { proposal_id: Vec<u8>, proposal: TransferOutProposal },
}

pub open spec fn vaa_target_wf(target: VaaTarget) -> bool {
    match target {
        VaaTarget::TransferIn { mint_id, .. } => mint_id@.len() == 32,
        _ => true,
    }
}

/// How a PostVAA request ends, in check order: derivation of the claimed
/// guardian set, derivation of the claim record, the two staleness
/// checks, the quorum check, the replay guard, then the payload's own
/// checks against the records supplied for it.
pub open spec fn post_vaa_result(
    program_id: Seq<u8>,
    bridge_id: Seq<u8>,
    guardian_set_id: Seq<u8>,
    claim_id: Seq<u8>,
    now: u32,
    raw_len: nat,
    v: VAAView,
    bridge: Bridge,
    guardian_set: GuardianSet,
    claim: ClaimedVAA,
    target: VaaTarget,
) -> Result<(), Error> {
    if guardian_set_id != guardian_set_id_spec(program_id, bridge_id, v.guardian_set_index) {
        Err(Error::InvalidDerivedAccount)
    } else if claim_id != claim_id_spec(program_id, bridge_id, vaa_digest_of(v)) {
        Err(Error::InvalidDerivedAccount)
    } else if guardian_set.expiration_time > now {
        Err(Error::GuardianSetExpired)
    } else if guardian_set.expiration_time + bridge.config.vaa_expiration_time > now {
        Err(Error::VAAExpired)
    } else if !verify_quorum_spec(vaa_digest_of(v), v.signatures, guardian_set.keys.deep_view()) {
        Err(Error::InvalidVAASignature)
    } else if claim.is_initialized {
        Err(Error::VAAClaimed)
    } else {
        match v.payload {
            BodyView::UpdateGuardianSet(b) => match target {
                VaaTarget::NewGuardians { new_guardian_id, new_guardian_set } => set_update_result(
                    program_id,
                    bridge_id,
                    new_guardian_id@,
                    b,
                    bridge,
                    guardian_set,
                    new_guardian_set,
                ),
                _ => Err(Error::InvalidInstructionData),
            },
            BodyView::Transfer(b) => if b.source_chain == CHAIN_ID_SOLANA {
                match target {
                    VaaTarget::Proposal { proposal_id, proposal } => transfer_post_result(
                        program_id,
                        bridge_id,
                        proposal_id@,
                        b,
                        raw_len,
                        proposal,
                    ),
                    _ => Err(Error::InvalidInstructionData),
                }
            } else {
                match target {
                    VaaTarget::TransferIn { mint_id, mint, destination, custody_id, custody } => transfer_in_result(
                        program_id,
                        bridge_id,
                        mint_id@,
                        custody_id@,
                        b,
                        mint,
                        destination,
                        custody,
                    ),
                    _ => Err(Error::InvalidInstructionData),
                }
            },
        }
    }
}

/// What a successful PostVAA leaves behind in the payload's records; the
/// claim record's change stands beside this in the caller's contract.
pub open spec fn post_vaa_effects(
    now: u32,
    raw: Seq<u8>,
    v: VAAView,
    old_bridge: Bridge,
    old_set: GuardianSet,
    target: VaaTarget,
    bridge: Bridge,
    guardian_set: GuardianSet,
    post: VaaTarget,
) -> bool {
    match v.payload {
        BodyView::UpdateGuardianSet(b) => match (target, post) {
            (
                VaaTarget::NewGuardians { new_guardian_id: id0, new_guardian_set: s0 },
                VaaTarget::NewGuardians { new_guardian_id: id1, new_guardian_set: s1 },
            ) => {
                &&& id1@ == id0@
                &&& set_update_effects(b, now, old_bridge, old_set, bridge, guardian_set, s1)
            },
            _ => false,
        },
        BodyView::Transfer(b) => if b.source_chain == CHAIN_ID_SOLANA {
            match (target, post) {
                (
                    VaaTarget::Proposal { proposal_id: id0, proposal: p0 },
                    VaaTarget::Proposal { proposal_id: id1, proposal: p1 },
                ) => {
                    &&& id1@ == id0@
                    &&& bridge == old_bridge
                    &&& guardian_set == old_set
                    &&& p1 == (TransferOutProposal {
                        vaa: p1.vaa,
                        vaa_time: v.timestamp,
                        ..p0
                    })
                    &&& p1.vaa@ == raw
                },
                _ => false,
            }
        } else {
            match (target, post) {
                (
                    VaaTarget::TransferIn {
                        mint_id: m0,
                        mint: mint0,
                        destination: d0,
                        custody_id: c0,
                        custody: cust0,
                    },
                    VaaTarget::TransferIn {
                        mint_id: m1,
                        mint: mint1,
                        destination: d1,
                        custody_id: c1,
                        custody: cust1,
                    },
                ) => {
                    &&& m1@ == m0@
                    &&& c1@ == c0@
                    &&& bridge == old_bridge
                    &&& guardian_set == old_set
                    &&& transfer_in_effects(b, mint0, d0, cust0, mint1, d1, cust1)
                },
                _ => false,
            }
        },
    }
}

/// Verifies an attested message and applies its payload exactly once.
/// The digest is checked for replay before any payload side effect, and
/// the claim is marked last, so a failure anywhere leaves no record
/// changed. A second application of the same digest fails with
/// `VAAClaimed` and changes nothing.
pub fn process_vaa(
    program_id: &Vec<u8>,
    bridge_id: &Vec<u8>,
    guardian_set_id: &Vec<u8>,
    claim_id: &Vec<u8>,
    now: u32,
    vaa_data: &Vec<u8>,
    vaa: &VAA,
    hash: &Vec<u8>,
    bridge: &mut Bridge,
    guardian_set: &mut GuardianSet,
    claim: &mut ClaimedVAA,
    target: VaaTarget,
) -> (r: (VaaTarget, Result<(), Error>))
    requires
        program_id@.len() == 32,
        bridge_id@.len() == 32,
        vaa_wf(vaa@),
        hash@ == vaa_digest_of(vaa@),
        hash@.len() == 32,
        guardian_set_wf(*old(guardian_set)),
        vaa_target_wf(target),
        now + old(bridge).config.vaa_expiration_time <= u32::MAX,
    ensures
        r.1 == post_vaa_result(
            program_id@,
            bridge_id@,
            guardian_set_id@,
            claim_id@,
            now,
            vaa_data@.len() as nat,
            vaa@,
            *old(bridge),
            *old(guardian_set),
            *old(claim),
            target,
        ),
        r.1 is Err ==> *final(bridge) == *old(bridge) && *final(guardian_set) == *old(guardian_set)
            && *final(claim) == *old(claim) && r.0 == target,
        r.1 is Ok ==> *final(claim) == (ClaimedVAA { is_initialized: true, vaa_time: now }),
        r.1 is Ok ==> post_vaa_effects(
            now,
            vaa_data@,
            vaa@,
            *old(bridge),
            *old(guardian_set),
            target,
            *final(bridge),
            *final(guardian_set),
            r.0,
        ),
{
    let expected_set = derive_guardian_set_id(program_id, bridge_id, vaa.guardian_set_index);
    if !bytes_eq(&expected_set, guardian_set_id) {
        return (target, Err(Error::InvalidDerivedAccount));
    }
    let claim_seeds = derive_claim_seeds(bridge_id, hash);
    if check_and_create_account(program_id, claim_id, &claim_seeds).is_err() {
        return (target, Err(Error::InvalidDerivedAccount));
    }
    if guardian_set.expiration_time > now {
        return (target, Err(Error::GuardianSetExpired));
    }
    if (guardian_set.expiration_time as u64) + (bridge.config.vaa_expiration_time as u64) > (
    now as u64) {
        return (target, Err(Error::VAAExpired));
    }
    if !vaa.verify(hash, &guardian_set.keys) {
        return (target, Err(Error::InvalidVAASignature));
    }
    // Replay guard: checked before any payload side effect.
    if claim.is_initialized {
        return (target, Err(Error::VAAClaimed));
    }
    match &vaa.payload {
        VAABody::UpdateGuardianSet(b) => match target {
            VaaTarget::NewGuardians { new_guardian_id, mut new_guardian_set } => {
                let res = process_vaa_set_update(
                    program_id,
                    bridge_id,
                    &new_guardian_id,
                    now,
                    b,
                    bridge,
                    guardian_set,
                    &mut new_guardian_set,
                );
                let post = VaaTarget::NewGuardians { new_guardian_id, new_guardian_set };
                if res.is_err() {
                    return (post, res);
                }
                claim.is_initialized = true;
                claim.vaa_time = now;
                (post, Ok(()))
            },
            other => (other, Err(Error::InvalidInstructionData)),
        },
        VAABody::Transfer(b) => if b.source_chain == CHAIN_ID_SOLANA {
            match target {
                VaaTarget::Proposal { proposal_id, mut proposal } => {
                    let res = process_vaa_transfer_post(
                        program_id,
                        bridge_id,
                        &proposal_id,
                        vaa,
                        b,
                        vaa_data,
                        &mut proposal,
                    );
                    let post = VaaTarget::Proposal { proposal_id, proposal };
                    if res.is_err() {
                        return (post, res);
                    }
                    claim.is_initialized = true;
                    claim.vaa_time = now;
                    (post, Ok(()))
                },
                other => (other, Err(Error::InvalidInstructionData)),
            }
        } else {
            match target {
                VaaTarget::TransferIn { mint_id, mut mint, mut destination, custody_id, mut custody } => {
                    let res = process_vaa_transfer(
                        program_id,
                        bridge_id,
                        &mint_id,
                        &custody_id,
                        b,
                        &mut mint,
                        &mut destination,
                        &mut custody,
                    );
                    let post = VaaTarget::TransferIn {
                        mint_id,
                        mint,
                        destination,
                        custody_id,
                        custody,
                    };
                    if res.is_err() {
                        return (post, res);
                    }
                    claim.is_initialized = true;
                    claim.vaa_time = now;
                    (post, Ok(()))
                },
                other => (other, Err(Error::InvalidInstructionData)),
            }
        },
    }
}

// -------------------------------------------------------------------
// The request surface: one decoded instruction, the records it touches.
// -------------------------------------------------------------------

/// A decoded request.
pub enum BridgeInstruction {
    Initialize(InitializePayload),
    TransferOut(TransferOutPayload),
    PostVAA(Vec<u8>),
    CreateWrapped(AssetMeta),
}

/// The ordered records a request touches, validated positionally: a
/// bundle that does not fit the instruction is a hard failure.
pub enum RequestAccounts {
    Initialize {
        new_bridge_id: Vec<u8>,
        bridge: Bridge,
        new_guardian_id: Vec<u8>,
        guardian: GuardianSet,
    },
    TransferOutWrapped {
        sender_id: Vec<u8>,
        sender: TokenAccount,
        bridge_id: Vec<u8>,
        bridge: Bridge,
        transfer_id: Vec<u8>,
        transfer: TransferOutProposal,
        mint_id: Vec<u8>,
        mint: Mint,
    },
    TransferOutNative {
        sender_id: Vec<u8>,
        sender: TokenAccount,
        bridge_id: Vec<u8>,
        bridge: Bridge,
        transfer_id: Vec<u8>,
        transfer: TransferOutProposal,
        mint_id: Vec<u8>,
        custody_id: Vec<u8>,
        custody: TokenAccount,
    },
    PostVaa {
        bridge_id: Vec<u8>,
        bridge: Bridge,
        guardian_set_id: Vec<u8>,
        guardian_set: GuardianSet,
        claim_id: Vec<u8>,
        claim: ClaimedVAA,
        target: VaaTarget,
    },
    CreateWrapped {
        bridge_id: Vec<u8>,
        bridge: Bridge,
        mint_id: Vec<u8>,
        mint: Mint,
        meta_id: Vec<u8>,
        meta: WrappedAssetMeta,
    },
}

pub open spec fn instruction_wf(ins: BridgeInstruction) -> bool {
    match ins {
        BridgeInstruction::Initialize(p) => forall|i: int|
            0 <= i < p.initial_guardian@.len() ==> (#[trigger] p.initial_guardian@[i])@.len()
                == 20,
        BridgeInstruction::TransferOut(t) => t.asset.address@.len() == 32 && t.target@.len() == 32
            && t.amount.wf(),
        BridgeInstruction::PostVAA(_) => true,
        BridgeInstruction::CreateWrapped(a) => a.address@.len() == 32,
    }
}

pub open spec fn accounts_wf(accs: RequestAccounts, now: u32) -> bool {
    match accs {
        RequestAccounts::Initialize { new_bridge_id, .. } => new_bridge_id@.len() == 32,
        RequestAccounts::TransferOutWrapped { sender_id, bridge_id, .. } => sender_id@.len() == 32
            && bridge_id@.len() == 32,
        RequestAccounts::TransferOutNative { sender_id, bridge_id, mint_id, .. } => sender_id@.len()
            == 32 && bridge_id@.len() == 32 && mint_id@.len() == 32,
        RequestAccounts::PostVaa { bridge_id, bridge, guardian_set, target, .. } => {
            &&& bridge_id@.len() == 32
            &&& guardian_set_wf(guardian_set)
            &&& vaa_target_wf(target)
            &&& now + bridge.config.vaa_expiration_time <= u32::MAX
        },
        RequestAccounts::CreateWrapped { bridge_id, mint_id, .. } => bridge_id@.len() == 32
            && mint_id@.len() == 32,
    }
}

/// How a whole request ends: the instruction routed to its operation,
/// over the records supplied for it.
pub open spec fn process_spec(
    program_id: Seq<u8>,
    now: u32,
    instruction: BridgeInstruction,
    accounts: RequestAccounts,
) -> Result<(), Error> {
    match instruction {
        BridgeInstruction::Initialize(p) => match accounts {
            RequestAccounts::Initialize { new_bridge_id, bridge, new_guardian_id, guardian } => initialize_result(
                program_id,
                new_bridge_id@,
                new_guardian_id@,
                p.initial_guardian@.len() as nat,
                bridge,
                guardian,
            ),
            _ => Err(Error::InvalidInstructionData),
        },
        BridgeInstruction::TransferOut(t) => if t.asset.chain == CHAIN_ID_SOLANA {
            match accounts {
                RequestAccounts::TransferOutNative {
                    sender_id,
                    sender,
                    bridge_id,
                    bridge,
                    transfer_id,
                    transfer,
                    mint_id,
                    custody_id,
                    custody,
                } => transfer_native_out_result(
                    program_id,
                    bridge_id@,
                    sender_id@,
                    transfer_id@,
                    mint_id@,
                    custody_id@,
                    t.amount@,
                    t.chain_id,
                    t.asset.chain,
                    t.asset.address@,
                    t.target@,
                    t.nonce,
                    sender,
                    transfer,
                    custody,
                ),
                _ => Err(Error::InvalidInstructionData),
            }
        } else {
            match accounts {
                RequestAccounts::TransferOutWrapped {
                    sender_id,
                    sender,
                    bridge_id,
                    bridge,
                    transfer_id,
                    transfer,
                    mint_id,
                    mint,
                } => transfer_out_result(
                    program_id,
                    bridge_id@,
                    sender_id@,
                    transfer_id@,
                    mint_id@,
                    t.amount@,
                    t.chain_id,
                    t.asset.chain,
                    t.asset.address@,
                    t.target@,
                    t.nonce,
                    sender,
                    mint,
                    transfer,
                ),
                _ => Err(Error::InvalidInstructionData),
            }
        },
        BridgeInstruction::PostVAA(raw) => match parse_vaa(raw@) {
            None => Err(Error::InvalidVAAFormat),
            Some(v) => match accounts {
                RequestAccounts::PostVaa {
                    bridge_id,
                    bridge,
                    guardian_set_id,
                    guardian_set,
                    claim_id,
                    claim,
                    target,
                } => post_vaa_result(
                    program_id,
                    bridge_id@,
                    guardian_set_id@,
                    claim_id@,
                    now,
                    raw@.len() as nat,
                    v,
                    bridge,
                    guardian_set,
                    claim,
                    target,
                ),
                _ => Err(Error::InvalidInstructionData),
            },
        },
        BridgeInstruction::CreateWrapped(a) => match accounts {
            RequestAccounts::CreateWrapped { bridge_id, bridge, mint_id, mint, meta_id, meta } => create_wrapped_result(
                program_id,
                bridge_id@,
                mint_id@,
                meta_id@,
                a.chain,
                a.address@,
                mint,
                meta,
            ),
            _ => Err(Error::InvalidInstructionData),
        },
    }
}

/// What a successful request changes, per instruction.
pub open spec fn process_effects(
    program_id: Seq<u8>,
    now: u32,
    instruction: BridgeInstruction,
    pre: RequestAccounts,
    post: RequestAccounts,
) -> bool {
    match instruction {
        BridgeInstruction::Initialize(p) => match (pre, post) {
            (
                RequestAccounts::Initialize { new_bridge_id: b0, bridge: br0, new_guardian_id: g0, guardian: gu0 },
                RequestAccounts::Initialize { new_bridge_id: b1, bridge: br1, new_guardian_id: g1, guardian: gu1 },
            ) => {
                &&& b1@ == b0@
                &&& g1@ == g0@
                &&& br1.is_initialized
                &&& br1.guardian_set_index == 0
                &&& br1.config.token_program@ == p.config.token_program@
                &&& br1.config.vaa_expiration_time == p.config.vaa_expiration_time
                &&& gu1.is_initialized
                &&& gu1.index == 0
                &&& gu1.keys.deep_view() == p.initial_guardian.deep_view()
                &&& gu1.creation_time == now
                &&& gu1.expiration_time == 0
            },
            _ => false,
        },
        BridgeInstruction::TransferOut(t) => if t.asset.chain == CHAIN_ID_SOLANA {
            match (pre, post) {
                (
                    RequestAccounts::TransferOutNative {
                        sender_id: sid0,
                        sender: s0,
                        bridge_id: bid0,
                        bridge: br0,
                        transfer_id: tid0,
                        transfer: tr0,
                        mint_id: mid0,
                        custody_id: cid0,
                        custody: c0,
                    },
                    RequestAccounts::TransferOutNative {
                        sender_id: sid1,
                        sender: s1,
                        bridge_id: bid1,
                        bridge: br1,
                        transfer_id: tid1,
                        transfer: tr1,
                        mint_id: mid1,
                        custody_id: cid1,
                        custody: c1,
                    },
                ) => {
                    &&& sid1@ == sid0@
                    &&& bid1@ == bid0@
                    &&& tid1@ == tid0@
                    &&& mid1@ == mid0@
                    &&& cid1@ == cid0@
                    &&& br1 == br0
                    &&& s1 == account_debited(s0, amount_u64(t.amount@))
                    &&& (c0.is_initialized ==> c1 == account_credited(c0, amount_u64(t.amount@)))
                    &&& (!c0.is_initialized ==> c1.is_initialized && c1.mint@ == mid0@ && c1.owner@
                        == bridge_id_spec(program_id) && c1.amount == amount_u64(t.amount@))
                    &&& proposal_recorded(
                        tr1,
                        t.amount@,
                        t.chain_id,
                        CHAIN_ID_SOLANA,
                        mid0@,
                        t.target@,
                        t.nonce,
                        sid0@,
                    )
                },
                _ => false,
            }
        } else {
            match (pre, post) {
                (
                    RequestAccounts::TransferOutWrapped {
                        sender_id: sid0,
                        sender: s0,
                        bridge_id: bid0,
                        bridge: br0,
                        transfer_id: tid0,
                        transfer: tr0,
                        mint_id: mid0,
                        mint: m0,
                    },
                    RequestAccounts::TransferOutWrapped {
                        sender_id: sid1,
                        sender: s1,
                        bridge_id: bid1,
                        bridge: br1,
                        transfer_id: tid1,
                        transfer: tr1,
                        mint_id: mid1,
                        mint: m1,
                    },
                ) => {
                    &&& sid1@ == sid0@
                    &&& bid1@ == bid0@
                    &&& tid1@ == tid0@
                    &&& mid1@ == mid0@
                    &&& br1 == br0
                    &&& s1 == account_debited(s0, amount_u64(t.amount@))
                    &&& m1 == mint_burned(m0, amount_u64(t.amount@))
                    &&& proposal_recorded(
                        tr1,
                        t.amount@,
                        t.chain_id,
                        t.asset.chain,
                        t.asset.address@,
                        t.target@,
                        t.nonce,
                        sid0@,
                    )
                },
                _ => false,
            }
        },
        BridgeInstruction::PostVAA(raw) => match (pre, post) {
            (
                RequestAccounts::PostVaa {
                    bridge_id: bid0,
                    bridge: br0,
                    guardian_set_id: gid0,
                    guardian_set: gs0,
                    claim_id: cid0,
                    claim: cl0,
                    target: t0,
                },
                RequestAccounts::PostVaa {
                    bridge_id: bid1,
                    bridge: br1,
                    guardian_set_id: gid1,
                    guardian_set: gs1,
                    claim_id: cid1,
                    claim: cl1,
                    target: t1,
                },
            ) => {
                &&& bid1@ == bid0@
                &&& gid1@ == gid0@
                &&& cid1@ == cid0@
                &&& cl1 == (ClaimedVAA { is_initialized: true, vaa_time: now })
                &&& parse_vaa(raw@) is Some
                &&& post_vaa_effects(
                    now,
                    raw@,
                    parse_vaa(raw@).unwrap(),
                    br0,
                    gs0,
                    t0,
                    br1,
                    gs1,
                    t1,
                )
            },
            _ => false,
        },
        BridgeInstruction::CreateWrapped(a) => match (pre, post) {
            (
                RequestAccounts::CreateWrapped { bridge_id: bid0, bridge: br0, mint_id: mid0, mint: m0, meta_id: eid0, meta: e0 },
                RequestAccounts::CreateWrapped { bridge_id: bid1, bridge: br1, mint_id: mid1, mint: m1, meta_id: eid1, meta: e1 },
            ) => {
                &&& bid1@ == bid0@
                &&& mid1@ == mid0@
                &&& eid1@ == eid0@
                &&& br1 == br0
                &&& m1 == (Mint { is_initialized: true, supply: 0 })
                &&& e1.is_initialized
                &&& e1.chain == a.chain
                &&& e1.address@ == a.address@
            },
            _ => false,
        },
    }
}

/// Routes one decoded request to its operation: a native-asset transfer
/// goes through custody, a wrapped one through burn; a raw VAA is
/// decoded, hashed and verified before its payload is applied. A failed
/// request leaves every supplied record as it was.
pub fn process(
    program_id: &Vec<u8>,
    now: u32,
    instruction: &BridgeInstruction,
    accounts: RequestAccounts,
) -> (r: (RequestAccounts, Result<(), Error>))
    requires
        program_id@.len() == 32,
        instruction_wf(*instruction),
        accounts_wf(accounts, now),
    ensures
        r.1 == process_spec(program_id@, now, *instruction, accounts),
        r.1 is Err ==> r.0 == accounts,
        r.1 is Ok ==> process_effects(program_id@, now, *instruction, accounts, r.0),
{
    match instruction {
        BridgeInstruction::Initialize(p) => match accounts {
            RequestAccounts::Initialize { new_bridge_id, mut bridge, new_guardian_id, mut guardian } => {
                let res = process_initialize(
                    program_id,
                    &new_bridge_id,
                    &new_guardian_id,
                    now,
                    &p.initial_guardian,
                    &p.config,
                    &mut bridge,
                    &mut guardian,
                );
                (
                    RequestAccounts::Initialize { new_bridge_id, bridge, new_guardian_id, guardian },
                    res,
                )
            },
            other => (other, Err(Error::InvalidInstructionData)),
        },
        BridgeInstruction::TransferOut(t) => if t.asset.chain == CHAIN_ID_SOLANA {
            match accounts {
                RequestAccounts::TransferOutNative {
                    sender_id,
                    mut sender,
                    bridge_id,
                    bridge,
                    transfer_id,
                    mut transfer,
                    mint_id,
                    custody_id,
                    mut custody,
                } => {
                    let res = process_transfer_native_out(
                        program_id,
                        &bridge_id,
                        &sender_id,
                        &transfer_id,
                        &mint_id,
                        &custody_id,
                        t,
                        &mut sender,
                        &mut transfer,
                        &mut custody,
                    );
                    (
                        RequestAccounts::TransferOutNative {
                            sender_id,
                            sender,
                            bridge_id,
                            bridge,
                            transfer_id,
                            transfer,
                            mint_id,
                            custody_id,
                            custody,
                        },
                        res,
                    )
                },
                other => (other, Err(Error::InvalidInstructionData)),
            }
        } else {
            match accounts {
                RequestAccounts::TransferOutWrapped {
                    sender_id,
                    mut sender,
                    bridge_id,
                    bridge,
                    transfer_id,
                    mut transfer,
                    mint_id,
                    mut mint,
                } => {
                    let res = process_transfer_out(
                        program_id,
                        &bridge_id,
                        &sender_id,
                        &transfer_id,
                        &mint_id,
                        t,
                        &mut sender,
                        &mut mint,
                        &mut transfer,
                    );
                    (
                        RequestAccounts::TransferOutWrapped {
                            sender_id,
                            sender,
                            bridge_id,
                            bridge,
                            transfer_id,
                            transfer,
                            mint_id,
                            mint,
                        },
                        res,
                    )
                },
                other => (other, Err(Error::InvalidInstructionData)),
            }
        },
        BridgeInstruction::PostVAA(raw) => {
            let parsed = VAA::deserialize(raw);
            match parsed {
                Err(e) => (accounts, Err(e)),
                Ok(v) => {
                    let hash = v.body_hash();
                    match accounts {
                        RequestAccounts::PostVaa {
                            bridge_id,
                            mut bridge,
                            guardian_set_id,
                            mut guardian_set,
                            claim_id,
                            mut claim,
                            target,
                        } => {
                            let (post_target, res) = process_vaa(
                                program_id,
                                &bridge_id,
                                &guardian_set_id,
                                &claim_id,
                                now,
                                raw,
                                &v,
                                &hash,
                                &mut bridge,
                                &mut guardian_set,
                                &mut claim,
                                target,
                            );
                            (
                                RequestAccounts::PostVaa {
                                    bridge_id,
                                    bridge,
                                    guardian_set_id,
                                    guardian_set,
                                    claim_id,
                                    claim,
                                    target: post_target,
                                },
                                res,
                            )
                        },
                        other => (other, Err(Error::InvalidInstructionData)),
                    }
                },
            }
        },
        BridgeInstruction::CreateWrapped(a) => match accounts {
            RequestAccounts::CreateWrapped { bridge_id, bridge, mint_id, mut mint, meta_id, mut meta } => {
                let res = process_create_wrapped(
                    program_id,
                    &bridge_id,
                    &mint_id,
                    &meta_id,
                    a,
                    &mut mint,
                    &mut meta,
                );
                (
                    RequestAccounts::CreateWrapped { bridge_id, bridge, mint_id, mint, meta_id, meta },
                    res,
                )
            },
            other => (other, Err(Error::InvalidInstructionData)),
        },
    }
}

/// Replay protection: once a VAA's digest is claimed, a request carrying
/// the same digest can only fail — whichever check it reaches first —
/// and a failing request leaves every record unchanged by the contract
/// of `process_vaa`. A replayed transfer that passes the derivation,
/// staleness and quorum checks fails with exactly `VAAClaimed`.
pub proof fn lemma_replay_rejected(
    program_id: Seq<u8>,
    bridge_id: Seq<u8>,
    guardian_set_id: Seq<u8>,
    claim_id: Seq<u8>,
    now: u32,
    raw_len: nat,
    v: VAAView,
    bridge: Bridge,
    guardian_set: GuardianSet,
    claim: ClaimedVAA,
    target: VaaTarget,
)
    requires
        claim.is_initialized,
    ensures
        post_vaa_result(
            program_id,
            bridge_id,
            guardian_set_id,
            claim_id,
            now,
            raw_len,
            v,
            bridge,
            guardian_set,
            claim,
            target,
        ) is Err,
        (guardian_set_id == guardian_set_id_spec(program_id, bridge_id, v.guardian_set_index)
            && claim_id == claim_id_spec(program_id, bridge_id, vaa_digest_of(v))
            && guardian_set.expiration_time <= now && guardian_set.expiration_time
            + bridge.config.vaa_expiration_time <= now && verify_quorum_spec(
            vaa_digest_of(v),
            v.signatures,
            guardian_set.keys.deep_view(),
        )) ==> post_vaa_result(
            program_id,
            bridge_id,
            guardian_set_id,
            claim_id,
            now,
            raw_len,
            v,
            bridge,
            guardian_set,
            claim,
            target,
        ) == Err::<(), Error>(Error::VAAClaimed),
{
}

} // verus!
