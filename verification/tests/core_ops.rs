use bridge::amount::Amount;
use bridge::bytes::bytes_eq;
use bridge::derive::check_and_create_account;
use bridge::engine::{
    process, process_vaa_set_update, process_vaa_transfer_post, BridgeInstruction,
    InitializePayload, RequestAccounts, TransferOutPayload, VaaTarget,
};
use bridge::error::Error;
use bridge::seeds::{
    derive_bridge_id, derive_bridge_seeds, derive_custody_id, derive_guardian_set_id,
    derive_transfer_id, derive_wrapped_asset_id, derive_wrapped_meta_id,
};
use bridge::state::{
    AssetMeta, Bridge, BridgeConfig, ClaimedVAA, GuardianSet, TransferOutProposal,
    WrappedAssetMeta,
};
use bridge::token::{
    token_transfer_caller, wrapped_burn, wrapped_mint_to, Mint, TokenAccount,
};
use bridge::vaa::{BodyTransfer, BodyUpdateGuardianSet, VAABody, VAA};

fn pid() -> Vec<u8> {
    vec![1u8; 32]
}

fn zero_bridge() -> Bridge {
    Bridge {
        is_initialized: false,
        guardian_set_index: 0,
        config: BridgeConfig { token_program: vec![0u8; 32], vaa_expiration_time: 0 },
    }
}

fn zero_guardian_set() -> GuardianSet {
    GuardianSet {
        is_initialized: false,
        index: 0,
        keys: Vec::new(),
        creation_time: 0,
        expiration_time: 0,
    }
}

fn zero_proposal() -> TransferOutProposal {
    TransferOutProposal {
        is_initialized: false,
        amount: Amount::zero(),
        to_chain_id: 0,
        source_address: vec![0u8; 32],
        foreign_address: vec![0u8; 32],
        nonce: 0,
        asset: AssetMeta { chain: 0, address: vec![0u8; 32] },
        vaa: Vec::new(),
        vaa_time: 0,
    }
}

fn account(mint: &Vec<u8>, owner: &Vec<u8>, amount: u64) -> TokenAccount {
    TokenAccount { is_initialized: true, mint: mint.clone(), owner: owner.clone(), amount }
}

fn initialize(
    program_id: &Vec<u8>,
    keys: Vec<Vec<u8>>,
    validity: u32,
    now: u32,
) -> (Vec<u8>, Bridge, Vec<u8>, GuardianSet) {
    let bridge_id = derive_bridge_id(program_id);
    let guardian_id = derive_guardian_set_id(program_id, &bridge_id, 0);
    let ins = BridgeInstruction::Initialize(InitializePayload {
        initial_guardian: keys,
        config: BridgeConfig { token_program: vec![2u8; 32], vaa_expiration_time: validity },
    });
    let accounts = RequestAccounts::Initialize {
        new_bridge_id: bridge_id.clone(),
        bridge: zero_bridge(),
        new_guardian_id: guardian_id.clone(),
        guardian: zero_guardian_set(),
    };
    let (accs, res) = process(program_id, now, &ins, accounts);
    assert!(res.is_ok());
    match accs {
        RequestAccounts::Initialize { bridge, guardian, .. } => {
            (bridge_id, bridge, guardian_id, guardian)
        }
        _ => unreachable!(),
    }
}

#[test]
fn initialize_installs_bridge_and_guardian_set_zero() {
    let program_id = pid();
    let keys = vec![vec![0x10u8; 20], vec![0x20u8; 20], vec![0x30u8; 20]];
    let (_, bridge, _, guardian) = initialize(&program_id, keys.clone(), 600, 100);
    assert!(bridge.is_initialized);
    assert_eq!(bridge.guardian_set_index, 0);
    assert_eq!(bridge.config.vaa_expiration_time, 600);
    assert!(guardian.is_initialized);
    assert_eq!(guardian.index, 0);
    assert_eq!(guardian.keys, keys);
    assert_eq!(guardian.expiration_time, 0);
    assert_eq!(guardian.creation_time, 100);
}

#[test]
fn initialize_rejects_existing_bridge() {
    let program_id = pid();
    let bridge_id = derive_bridge_id(&program_id);
    let guardian_id = derive_guardian_set_id(&program_id, &bridge_id, 0);
    let mut existing = zero_bridge();
    existing.is_initialized = true;
    let ins = BridgeInstruction::Initialize(InitializePayload {
        initial_guardian: vec![vec![0u8; 20]],
        config: BridgeConfig { token_program: vec![2u8; 32], vaa_expiration_time: 600 },
    });
    let accounts = RequestAccounts::Initialize {
        new_bridge_id: bridge_id,
        bridge: existing,
        new_guardian_id: guardian_id,
        guardian: zero_guardian_set(),
    };
    let (_, res) = process(&program_id, 100, &ins, accounts);
    assert_eq!(res, Err(Error::AlreadyExists));
}

#[test]
fn initialize_rejects_too_many_guardians() {
    let program_id = pid();
    let keys: Vec<Vec<u8>> = (0..21).map(|i| vec![i as u8; 20]).collect();
    let bridge_id = derive_bridge_id(&program_id);
    let guardian_id = derive_guardian_set_id(&program_id, &bridge_id, 0);
    let ins = BridgeInstruction::Initialize(InitializePayload {
        initial_guardian: keys,
        config: BridgeConfig { token_program: vec![2u8; 32], vaa_expiration_time: 600 },
    });
    let accounts = RequestAccounts::Initialize {
        new_bridge_id: bridge_id,
        bridge: zero_bridge(),
        new_guardian_id: guardian_id,
        guardian: zero_guardian_set(),
    };
    let (_, res) = process(&program_id, 100, &ins, accounts);
    assert_eq!(res, Err(Error::InvalidInstructionData));
}

#[test]
fn initialize_rejects_mismatched_bridge_address() {
    let program_id = pid();
    let guardian_id = derive_guardian_set_id(&program_id, &vec![9u8; 32], 0);
    let ins = BridgeInstruction::Initialize(InitializePayload {
        initial_guardian: vec![vec![0u8; 20]],
        config: BridgeConfig { token_program: vec![2u8; 32], vaa_expiration_time: 600 },
    });
    let accounts = RequestAccounts::Initialize {
        new_bridge_id: vec![9u8; 32],
        bridge: zero_bridge(),
        new_guardian_id: guardian_id,
        guardian: zero_guardian_set(),
    };
    let (_, res) = process(&program_id, 100, &ins, accounts);
    assert_eq!(res, Err(Error::InvalidDerivedAccount));
}

#[test]
fn derivation_is_deterministic_and_sensitive_to_seeds() {
    let program_id = pid();
    let bridge_id = derive_bridge_id(&program_id);
    let again = derive_bridge_id(&program_id);
    assert_eq!(bridge_id, again);
    assert_eq!(bridge_id.len(), 32);
    let g0 = derive_guardian_set_id(&program_id, &bridge_id, 0);
    let g1 = derive_guardian_set_id(&program_id, &bridge_id, 1);
    assert_ne!(g0, g1);
    assert_ne!(g0, bridge_id);
    let other_program = vec![3u8; 32];
    assert_ne!(derive_bridge_id(&other_program), bridge_id);
}

#[test]
fn check_and_create_account_accepts_only_the_derivation() {
    let program_id = pid();
    let seeds = derive_bridge_seeds();
    let good = derive_bridge_id(&program_id);
    assert!(check_and_create_account(&program_id, &good, &seeds).is_ok());
    let bad = vec![5u8; 32];
    assert_eq!(
        check_and_create_account(&program_id, &bad, &seeds),
        Err(Error::InvalidDerivedAccount)
    );
}

#[test]
fn amount_round_trips_through_bytes() {
    let a = Amount::from_u64(123_456_789_012_345);
    assert!(a.fits_u64());
    assert_eq!(a.as_u64(), 123_456_789_012_345);
    let z = Amount::zero();
    assert_eq!(z.as_u64(), 0);
    let mut big = Amount::zero();
    big.bytes[0] = 1;
    assert!(!big.fits_u64());
}

#[test]
fn token_ops_conserve_and_fail_cleanly() {
    let mint_id = vec![9u8; 32];
    let owner = vec![4u8; 32];
    let mut m = Mint { is_initialized: true, supply: 1000 };
    let mut from = account(&mint_id, &owner, 700);
    let mut to = account(&mint_id, &owner, 5);
    assert!(token_transfer_caller(&mut from, &mut to, &Amount::from_u64(200)).is_ok());
    assert_eq!(from.amount, 500);
    assert_eq!(to.amount, 205);
    // mismatched mints move nothing
    let mut alien = account(&vec![8u8; 32], &owner, 10);
    assert_eq!(
        token_transfer_caller(&mut from, &mut alien, &Amount::from_u64(1)),
        Err(Error::TokenMintMismatch)
    );
    assert_eq!(from.amount, 500);
    // insufficient balance moves nothing
    assert_eq!(
        wrapped_burn(&mut from, &mut m, &Amount::from_u64(501)),
        Err(Error::InsufficientFunds)
    );
    assert_eq!(from.amount, 500);
    assert_eq!(m.supply, 1000);
    // burn then mint of the same amount restores the supply
    assert!(wrapped_burn(&mut from, &mut m, &Amount::from_u64(300)).is_ok());
    assert_eq!(m.supply, 700);
    assert!(wrapped_mint_to(&mut m, &mut to, &Amount::from_u64(300)).is_ok());
    assert_eq!(m.supply, 1000);
    // overflow moves nothing
    let mut full = account(&mint_id, &owner, u64::MAX);
    assert_eq!(
        wrapped_mint_to(&mut m, &mut full, &Amount::from_u64(1)),
        Err(Error::Overflow)
    );
    assert_eq!(m.supply, 1000);
    assert_eq!(full.amount, u64::MAX);
}

#[test]
fn native_transfer_out_creates_custody_and_forces_asset() {
    let program_id = pid();
    let (bridge_id, bridge, _, _) = initialize(&program_id, vec![vec![0u8; 20]], 600, 100);
    let mint_id = vec![9u8; 32];
    let sender_id = vec![7u8; 32];
    let sender_owner = vec![6u8; 32];
    let t = TransferOutPayload {
        amount: Amount::from_u64(500),
        chain_id: 2,
        asset: AssetMeta { chain: 1, address: mint_id.clone() },
        target: vec![3u8; 32],
        nonce: 7,
    };
    let transfer_id = derive_transfer_id(
        &program_id,
        &bridge_id,
        1,
        &mint_id,
        2,
        &t.target,
        &sender_id,
        7,
    );
    let custody_id = derive_custody_id(&program_id, &bridge_id, &mint_id);
    let ins = BridgeInstruction::TransferOut(t);
    let accounts = RequestAccounts::TransferOutNative {
        sender_id: sender_id.clone(),
        sender: account(&mint_id, &sender_owner, 700),
        bridge_id: bridge_id.clone(),
        bridge,
        transfer_id,
        transfer: zero_proposal(),
        mint_id: mint_id.clone(),
        custody_id,
        custody: TokenAccount {
            is_initialized: false,
            mint: vec![0u8; 32],
            owner: vec![0u8; 32],
            amount: 0,
        },
    };
    let (accs, res) = process(&program_id, 100, &ins, accounts);
    assert!(res.is_ok());
    match accs {
        RequestAccounts::TransferOutNative { sender, transfer, custody, .. } => {
            assert_eq!(sender.amount, 200);
            assert!(custody.is_initialized);
            assert_eq!(custody.amount, 500);
            assert_eq!(custody.mint, mint_id);
            assert_eq!(custody.owner, derive_bridge_id(&program_id));
            assert!(transfer.is_initialized);
            assert_eq!(transfer.vaa_time, 0);
            // the declared asset is discarded for the local mint identity
            assert_eq!(transfer.asset.chain, 1);
            assert_eq!(transfer.asset.address, mint_id);
            assert_eq!(transfer.amount.as_u64(), 500);
        }
        _ => unreachable!(),
    }
}

#[test]
fn native_transfer_out_rejects_foreign_custody_owner() {
    let program_id = pid();
    let (bridge_id, bridge, _, _) = initialize(&program_id, vec![vec![0u8; 20]], 600, 100);
    let mint_id = vec![9u8; 32];
    let sender_id = vec![7u8; 32];
    let t = TransferOutPayload {
        amount: Amount::from_u64(500),
        chain_id: 2,
        asset: AssetMeta { chain: 1, address: mint_id.clone() },
        target: vec![3u8; 32],
        nonce: 7,
    };
    let transfer_id = derive_transfer_id(
        &program_id,
        &bridge_id,
        1,
        &mint_id,
        2,
        &t.target,
        &sender_id,
        7,
    );
    let custody_id = derive_custody_id(&program_id, &bridge_id, &mint_id);
    let stranger = vec![0x55u8; 32];
    let ins = BridgeInstruction::TransferOut(t);
    let accounts = RequestAccounts::TransferOutNative {
        sender_id,
        sender: account(&mint_id, &vec![6u8; 32], 700),
        bridge_id: bridge_id.clone(),
        bridge,
        transfer_id,
        transfer: zero_proposal(),
        mint_id: mint_id.clone(),
        custody_id,
        custody: account(&mint_id, &stranger, 0),
    };
    let (accs, res) = process(&program_id, 100, &ins, accounts);
    assert_eq!(res, Err(Error::WrongTokenAccountOwner));
    match accs {
        RequestAccounts::TransferOutNative { sender, transfer, .. } => {
            assert_eq!(sender.amount, 700);
            assert!(!transfer.is_initialized);
        }
        _ => unreachable!(),
    }
}

#[test]
fn create_wrapped_rejects_native_asset() {
    let program_id = pid();
    let (bridge_id, bridge, _, _) = initialize(&program_id, vec![vec![0u8; 20]], 600, 100);
    let asset = AssetMeta { chain: 1, address: vec![0xAAu8; 32] };
    let mint_id = derive_wrapped_asset_id(&program_id, &bridge_id, 1, &asset.address);
    let meta_id = derive_wrapped_meta_id(&program_id, &bridge_id, &mint_id);
    let ins = BridgeInstruction::CreateWrapped(asset);
    let accounts = RequestAccounts::CreateWrapped {
        bridge_id,
        bridge,
        mint_id,
        mint: Mint { is_initialized: false, supply: 0 },
        meta_id,
        meta: WrappedAssetMeta { is_initialized: false, chain: 0, address: vec![0u8; 32] },
    };
    let (_, res) = process(&program_id, 100, &ins, accounts);
    assert_eq!(res, Err(Error::CannotWrapNative));
}

#[test]
fn create_wrapped_provisions_mint_and_meta() {
    let program_id = pid();
    let (bridge_id, bridge, _, _) = initialize(&program_id, vec![vec![0u8; 20]], 600, 100);
    let asset = AssetMeta { chain: 2, address: vec![0xAAu8; 32] };
    let mint_id = derive_wrapped_asset_id(&program_id, &bridge_id, 2, &asset.address);
    let meta_id = derive_wrapped_meta_id(&program_id, &bridge_id, &mint_id);
    let ins = BridgeInstruction::CreateWrapped(asset);
    let accounts = RequestAccounts::CreateWrapped {
        bridge_id,
        bridge,
        mint_id,
        mint: Mint { is_initialized: false, supply: 0 },
        meta_id,
        meta: WrappedAssetMeta { is_initialized: false, chain: 0, address: vec![0u8; 32] },
    };
    let (accs, res) = process(&program_id, 100, &ins, accounts);
    assert!(res.is_ok());
    match accs {
        RequestAccounts::CreateWrapped { mint, meta, .. } => {
            assert!(mint.is_initialized);
            assert_eq!(mint.supply, 0);
            assert!(meta.is_initialized);
            assert_eq!(meta.chain, 2);
            assert_eq!(meta.address, vec![0xAAu8; 32]);
        }
        _ => unreachable!(),
    }
}

#[test]
fn set_update_rejects_non_increasing_index_and_stale_set() {
    let program_id = pid();
    let (bridge_id, mut bridge, _, mut guardian) =
        initialize(&program_id, vec![vec![0u8; 20]], 600, 100);
    let new_id = derive_guardian_set_id(&program_id, &bridge_id, 0);
    let body = BodyUpdateGuardianSet { new_index: 0, new_keys: vec![vec![1u8; 20]] };
    let mut fresh = zero_guardian_set();
    let res = process_vaa_set_update(
        &program_id,
        &bridge_id,
        &new_id,
        100,
        &body,
        &mut bridge,
        &mut guardian,
        &mut fresh,
    );
    assert_eq!(res, Err(Error::GuardianIndexNotIncreasing));
    assert!(!fresh.is_initialized);
    assert_eq!(guardian.expiration_time, 0);
    assert_eq!(bridge.guardian_set_index, 0);
    // a set other than the active one may not rotate
    guardian.index = 5;
    let body2 = BodyUpdateGuardianSet { new_index: 6, new_keys: vec![vec![1u8; 20]] };
    let res2 = process_vaa_set_update(
        &program_id,
        &bridge_id,
        &derive_guardian_set_id(&program_id, &bridge_id, 6),
        100,
        &body2,
        &mut bridge,
        &mut guardian,
        &mut fresh,
    );
    assert_eq!(res2, Err(Error::OldGuardianSet));
}

#[test]
fn attach_rejects_mismatch_resubmission_and_oversize() {
    let program_id = pid();
    let bridge_id = derive_bridge_id(&program_id);
    let mint_id = vec![9u8; 32];
    let sender_id = vec![7u8; 32];
    let target = vec![3u8; 32];
    let mut proposal = TransferOutProposal {
        is_initialized: true,
        amount: Amount::from_u64(500),
        to_chain_id: 2,
        source_address: sender_id.clone(),
        foreign_address: target.clone(),
        nonce: 7,
        asset: AssetMeta { chain: 1, address: mint_id.clone() },
        vaa: Vec::new(),
        vaa_time: 0,
    };
    let proposal_id = derive_transfer_id(
        &program_id,
        &bridge_id,
        1,
        &mint_id,
        2,
        &target,
        &sender_id,
        7,
    );
    let body = BodyTransfer {
        nonce: 7,
        source_chain: 1,
        target_chain: 2,
        source_address: sender_id.clone(),
        target_address: target.clone(),
        asset: AssetMeta { chain: 1, address: mint_id.clone() },
        amount: Amount::from_u64(500),
    };
    let vaa = VAA {
        version: 1,
        guardian_set_index: 0,
        signatures: Vec::new(),
        timestamp: 42,
        payload: VAABody::Transfer(BodyTransfer {
            nonce: 7,
            source_chain: 1,
            target_chain: 2,
            source_address: sender_id.clone(),
            target_address: target.clone(),
            asset: AssetMeta { chain: 1, address: mint_id.clone() },
            amount: Amount::from_u64(500),
        }),
    };
    // a mismatched amount is refused
    let wrong = BodyTransfer { amount: Amount::from_u64(400), ..clone_body(&body) };
    let res = process_vaa_transfer_post(
        &program_id,
        &bridge_id,
        &proposal_id,
        &vaa,
        &wrong,
        &vec![0u8; 10],
        &mut proposal,
    );
    assert_eq!(res, Err(Error::VAAProposalMismatch));
    assert_eq!(proposal.vaa_time, 0);
    // oversized attestations are refused
    let res = process_vaa_transfer_post(
        &program_id,
        &bridge_id,
        &proposal_id,
        &vaa,
        &body,
        &vec![0u8; 1001],
        &mut proposal,
    );
    assert_eq!(res, Err(Error::VAATooLong));
    assert_eq!(proposal.vaa_time, 0);
    // the first attach succeeds, the second is refused
    let raw = vec![0xABu8; 40];
    let res = process_vaa_transfer_post(
        &program_id,
        &bridge_id,
        &proposal_id,
        &vaa,
        &body,
        &raw,
        &mut proposal,
    );
    assert!(res.is_ok());
    assert_eq!(proposal.vaa_time, 42);
    assert_eq!(proposal.vaa, raw);
    let res = process_vaa_transfer_post(
        &program_id,
        &bridge_id,
        &proposal_id,
        &vaa,
        &body,
        &raw,
        &mut proposal,
    );
    assert_eq!(res, Err(Error::VAAAlreadySubmitted));
}

fn clone_body(b: &BodyTransfer) -> BodyTransfer {
    BodyTransfer {
        nonce: b.nonce,
        source_chain: b.source_chain,
        target_chain: b.target_chain,
        source_address: b.source_address.clone(),
        target_address: b.target_address.clone(),
        asset: AssetMeta { chain: b.asset.chain, address: b.asset.address.clone() },
        amount: Amount { bytes: b.amount.bytes.clone() },
    }
}

#[test]
fn mismatched_account_bundle_is_a_hard_failure() {
    let program_id = pid();
    let (bridge_id, bridge, _, _) = initialize(&program_id, vec![vec![0u8; 20]], 600, 100);
    let asset = AssetMeta { chain: 2, address: vec![0xAAu8; 32] };
    let ins = BridgeInstruction::CreateWrapped(asset);
    // an initialize bundle handed to a create-wrapped request
    let accounts = RequestAccounts::Initialize {
        new_bridge_id: bridge_id,
        bridge,
        new_guardian_id: vec![0u8; 32],
        guardian: zero_guardian_set(),
    };
    let (_, res) = process(&program_id, 100, &ins, accounts);
    assert_eq!(res, Err(Error::InvalidInstructionData));
}

#[test]
fn byte_equality_is_exact() {
    assert!(bytes_eq(&vec![1u8, 2, 3], &vec![1u8, 2, 3]));
    assert!(!bytes_eq(&vec![1u8, 2, 3], &vec![1u8, 2, 4]));
    assert!(!bytes_eq(&vec![1u8, 2], &vec![1u8, 2, 3]));
}

#[test]
fn posting_garbage_bytes_is_a_format_error() {
    let program_id = pid();
    let (bridge_id, bridge, guardian_id, guardian) =
        initialize(&program_id, vec![vec![0u8; 20]], 600, 1000);
    let ins = BridgeInstruction::PostVAA(vec![0u8; 3]);
    let accounts = RequestAccounts::PostVaa {
        bridge_id,
        bridge,
        guardian_set_id: guardian_id,
        guardian_set: guardian,
        claim_id: vec![0u8; 32],
        claim: ClaimedVAA { is_initialized: false, vaa_time: 0 },
        target: VaaTarget::Proposal { proposal_id: vec![0u8; 32], proposal: zero_proposal() },
    };
    let (_, res) = process(&program_id, 1000, &ins, accounts);
    assert_eq!(res, Err(Error::InvalidVAAFormat));
}
