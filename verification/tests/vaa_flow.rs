use bridge::amount::Amount;
use bridge::engine::{
    process, BridgeInstruction, InitializePayload, RequestAccounts, TransferOutPayload, VaaTarget,
};
use bridge::error::Error;
use bridge::seeds::{
    derive_bridge_id, derive_claim_seeds, derive_custody_id, derive_guardian_set_id,
    derive_transfer_id, derive_wrapped_asset_id,
};
use bridge::state::{AssetMeta, Bridge, BridgeConfig, ClaimedVAA, GuardianSet, TransferOutProposal};
use bridge::token::{Mint, TokenAccount};
use bridge::vaa::{BodyTransfer, BodyUpdateGuardianSet, SigEntry, VAABody, VAA};

use sha3::Digest;

fn pid() -> Vec<u8> {
    vec![1u8; 32]
}

fn secret(i: u8) -> libsecp256k1::SecretKey {
    libsecp256k1::SecretKey::parse(&[i; 32]).unwrap()
}

fn guardian_addr(sk: &libsecp256k1::SecretKey) -> Vec<u8> {
    let pk = libsecp256k1::PublicKey::from_secret_key(sk);
    let ser = pk.serialize();
    let h = sha3::Keccak256::digest(&ser[1..65]);
    h[12..32].to_vec()
}

fn sign_digest(digest: &Vec<u8>, sk: &libsecp256k1::SecretKey, index: u8) -> SigEntry {
    let msg = libsecp256k1::Message::parse_slice(&digest[..]).unwrap();
    let (sig, rid) = libsecp256k1::sign(&msg, sk);
    SigEntry { index, signature: sig.serialize().to_vec(), recovery_id: rid.serialize() }
}

fn zero_bridge() -> Bridge {
    Bridge {
        is_initialized: false,
        guardian_set_index: 0,
        config: BridgeConfig { token_program: vec![0u8; 32], vaa_expiration_time: 0 },
    }
}

fn zero_guardian_set() -> GuardianSet {
    GuardianSet {
        is_initialized: false,
        index: 0,
        keys: Vec::new(),
        creation_time: 0,
        expiration_time: 0,
    }
}

fn zero_claim() -> ClaimedVAA {
    ClaimedVAA { is_initialized: false, vaa_time: 0 }
}

fn zero_proposal() -> TransferOutProposal {
    TransferOutProposal {
        is_initialized: false,
        amount: Amount::zero(),
        to_chain_id: 0,
        source_address: vec![0u8; 32],
        foreign_address: vec![0u8; 32],
        nonce: 0,
        asset: AssetMeta { chain: 0, address: vec![0u8; 32] },
        vaa: Vec::new(),
        vaa_time: 0,
    }
}

fn account(mint: &Vec<u8>, owner: &Vec<u8>, amount: u64) -> TokenAccount {
    TokenAccount { is_initialized: true, mint: mint.clone(), owner: owner.clone(), amount }
}

fn initialize(
    program_id: &Vec<u8>,
    keys: Vec<Vec<u8>>,
    validity: u32,
    now: u32,
) -> (Vec<u8>, Bridge, Vec<u8>, GuardianSet) {
    let bridge_id = derive_bridge_id(program_id);
    let guardian_id = derive_guardian_set_id(program_id, &bridge_id, 0);
    let ins = BridgeInstruction::Initialize(InitializePayload {
        initial_guardian: keys,
        config: BridgeConfig { token_program: vec![2u8; 32], vaa_expiration_time: validity },
    });
    let accounts = RequestAccounts::Initialize {
        new_bridge_id: bridge_id.clone(),
        bridge: zero_bridge(),
        new_guardian_id: guardian_id.clone(),
        guardian: zero_guardian_set(),
    };
    let (accs, res) = process(program_id, now, &ins, accounts);
    assert!(res.is_ok());
    match accs {
        RequestAccounts::Initialize { bridge, guardian, .. } => {
            (bridge_id, bridge, guardian_id, guardian)
        }
        _ => unreachable!(),
    }
}

/// Builds the raw bytes of a VAA whose body is signed by the given
/// guardian secrets (with their key indices).
fn signed_vaa(
    gsi: u32,
    timestamp: u32,
    payload: VAABody,
    signers: &[(u8, libsecp256k1::SecretKey)],
) -> Vec<u8> {
    let unsigned = VAA {
        version: 1,
        guardian_set_index: gsi,
        signatures: Vec::new(),
        timestamp,
        payload,
    };
    let digest = unsigned.body_hash();
    let mut sigs = Vec::new();
    for (idx, sk) in signers {
        sigs.push(sign_digest(&digest, sk, *idx));
    }
    let signed = VAA { signatures: sigs, ..unsigned };
    signed.serialize()
}

fn claim_id_for(program_id: &Vec<u8>, bridge_id: &Vec<u8>, raw: &Vec<u8>) -> Vec<u8> {
    let v = VAA::deserialize(raw).unwrap();
    let digest = v.body_hash();
    let seeds = derive_claim_seeds(bridge_id, &digest);
    bridge::derive::derive_key(program_id, &seeds)
}

fn transfer_body(
    mint_id: &Vec<u8>,
    source_chain: u8,
    asset_chain: u8,
    amount: u64,
    nonce: u32,
) -> VAABody {
    VAABody::Transfer(BodyTransfer {
        nonce,
        source_chain,
        target_chain: 1,
        source_address: vec![3u8; 32],
        target_address: vec![4u8; 32],
        asset: AssetMeta { chain: asset_chain, address: mint_id.clone() },
        amount: Amount::from_u64(amount),
    })
}

#[test]
fn digest_ignores_the_signature_list() {
    let sk = secret(0x11);
    let payload = || transfer_body(&vec![9u8; 32], 2, 1, 500, 9);
    let unsigned = VAA {
        version: 1,
        guardian_set_index: 0,
        signatures: Vec::new(),
        timestamp: 5,
        payload: payload(),
    };
    let digest = unsigned.body_hash();
    let sig = sign_digest(&digest, &sk, 0);
    let signed = VAA { signatures: vec![sig], ..unsigned };
    assert_eq!(signed.body_hash(), digest);
    // and the digest is the double hash of the body bytes
    let body = signed.serialize_body();
    let once = sha2::Sha256::digest(&body[..]);
    let twice = sha2::Sha256::digest(&once[..]);
    assert_eq!(digest, twice.as_slice().to_vec());
    assert_ne!(digest, body);
}

#[test]
fn serialization_round_trips() {
    let sk = secret(0x11);
    let raw = signed_vaa(3, 77, transfer_body(&vec![9u8; 32], 2, 1, 500, 9), &[(0, sk)]);
    let v = VAA::deserialize(&raw).unwrap();
    assert_eq!(v.version, 1);
    assert_eq!(v.guardian_set_index, 3);
    assert_eq!(v.timestamp, 77);
    assert_eq!(v.signatures.len(), 1);
    match &v.payload {
        VAABody::Transfer(b) => {
            assert_eq!(b.nonce, 9);
            assert_eq!(b.source_chain, 2);
            assert_eq!(b.target_chain, 1);
            assert_eq!(b.amount.as_u64(), 500);
        }
        _ => unreachable!(),
    }
    assert_eq!(v.serialize(), raw);
    // trailing bytes are malformed
    let mut longer = raw.clone();
    longer.push(0);
    assert!(VAA::deserialize(&longer).is_err());
}

#[test]
fn native_round_trip_releases_custody_and_rejects_replay() {
    let program_id = pid();
    let sk = secret(0x11);
    let (bridge_id, bridge, guardian_id, guardian) =
        initialize(&program_id, vec![guardian_addr(&sk)], 600, 1000);
    let mint_id = vec![9u8; 32];
    let sender_id = vec![7u8; 32];

    // lock 500 into custody
    let t = TransferOutPayload {
        amount: Amount::from_u64(500),
        chain_id: 2,
        asset: AssetMeta { chain: 1, address: mint_id.clone() },
        target: vec![3u8; 32],
        nonce: 7,
    };
    let transfer_id = derive_transfer_id(
        &program_id,
        &bridge_id,
        1,
        &mint_id,
        2,
        &t.target,
        &sender_id,
        7,
    );
    let custody_id = derive_custody_id(&program_id, &bridge_id, &mint_id);
    let ins = BridgeInstruction::TransferOut(t);
    let accounts = RequestAccounts::TransferOutNative {
        sender_id: sender_id.clone(),
        sender: account(&mint_id, &vec![6u8; 32], 700),
        bridge_id: bridge_id.clone(),
        bridge,
        transfer_id,
        transfer: zero_proposal(),
        mint_id: mint_id.clone(),
        custody_id: custody_id.clone(),
        custody: TokenAccount {
            is_initialized: false,
            mint: vec![0u8; 32],
            owner: vec![0u8; 32],
            amount: 0,
        },
    };
    let (accs, res) = process(&program_id, 1000, &ins, accounts);
    assert!(res.is_ok());
    let (bridge, custody) = match accs {
        RequestAccounts::TransferOutNative { bridge, custody, .. } => (bridge, custody),
        _ => unreachable!(),
    };
    assert_eq!(custody.amount, 500);

    // an attested inbound transfer of the same asset releases it
    let raw = signed_vaa(0, 5, transfer_body(&mint_id, 2, 1, 500, 9), &[(0, sk)]);
    let claim_id = claim_id_for(&program_id, &bridge_id, &raw);
    let destination = account(&mint_id, &vec![8u8; 32], 0);
    let ins = BridgeInstruction::PostVAA(raw.clone());
    let accounts = RequestAccounts::PostVaa {
        bridge_id: bridge_id.clone(),
        bridge,
        guardian_set_id: guardian_id.clone(),
        guardian_set: guardian,
        claim_id: claim_id.clone(),
        claim: zero_claim(),
        target: VaaTarget::TransferIn {
            mint_id: mint_id.clone(),
            mint: Mint { is_initialized: false, supply: 0 },
            destination,
            custody_id: custody_id.clone(),
            custody,
        },
    };
    let (accs, res) = process(&program_id, 1000, &ins, accounts);
    assert_eq!(res, Ok(()));
    let (bridge, guardian, claim, destination, custody) = match accs {
        RequestAccounts::PostVaa {
            bridge,
            guardian_set,
            claim,
            target: VaaTarget::TransferIn { destination, custody, .. },
            ..
        } => (bridge, guardian_set, claim, destination, custody),
        _ => unreachable!(),
    };
    // conservation: what went out of custody arrived at the destination
    assert_eq!(custody.amount, 0);
    assert_eq!(destination.amount, 500);
    assert!(claim.is_initialized);
    assert_eq!(claim.vaa_time, 1000);

    // replaying the same VAA is refused and moves nothing
    let ins = BridgeInstruction::PostVAA(raw);
    let accounts = RequestAccounts::PostVaa {
        bridge_id: bridge_id.clone(),
        bridge,
        guardian_set_id: guardian_id,
        guardian_set: guardian,
        claim_id,
        claim,
        target: VaaTarget::TransferIn {
            mint_id: mint_id.clone(),
            mint: Mint { is_initialized: false, supply: 0 },
            destination,
            custody_id,
            custody,
        },
    };
    let (accs, res) = process(&program_id, 1000, &ins, accounts);
    assert_eq!(res, Err(Error::VAAClaimed));
    match accs {
        RequestAccounts::PostVaa { target: VaaTarget::TransferIn { destination, custody, .. }, .. } => {
            assert_eq!(custody.amount, 0);
            assert_eq!(destination.amount, 500);
        }
        _ => unreachable!(),
    }
}

#[test]
fn insufficient_quorum_leaves_proposal_and_balances_alone() {
    let program_id = pid();
    let sks = [secret(0x11), secret(0x12), secret(0x13)];
    let keys: Vec<Vec<u8>> = sks.iter().map(guardian_addr).collect();
    let (bridge_id, bridge, guardian_id, guardian) = initialize(&program_id, keys, 600, 1000);

    // a wrapped asset leaves through a burn
    let foreign = AssetMeta { chain: 2, address: vec![0xAAu8; 32] };
    let mint_id = derive_wrapped_asset_id(&program_id, &bridge_id, 2, &foreign.address);
    let sender_id = vec![7u8; 32];
    let t = TransferOutPayload {
        amount: Amount::from_u64(1000),
        chain_id: 2,
        asset: AssetMeta { chain: 2, address: foreign.address.clone() },
        target: vec![3u8; 32],
        nonce: 11,
    };
    let transfer_id = derive_transfer_id(
        &program_id,
        &bridge_id,
        2,
        &foreign.address,
        2,
        &t.target,
        &sender_id,
        11,
    );
    let ins = BridgeInstruction::TransferOut(t);
    let accounts = RequestAccounts::TransferOutWrapped {
        sender_id: sender_id.clone(),
        sender: account(&mint_id, &vec![6u8; 32], 1500),
        bridge_id: bridge_id.clone(),
        bridge,
        transfer_id: transfer_id.clone(),
        transfer: zero_proposal(),
        mint_id: mint_id.clone(),
        mint: Mint { is_initialized: true, supply: 5000 },
    };
    let (accs, res) = process(&program_id, 1000, &ins, accounts);
    assert_eq!(res, Ok(()));
    let (bridge, sender, mint, transfer) = match accs {
        RequestAccounts::TransferOutWrapped { bridge, sender, mint, transfer, .. } => {
            (bridge, sender, mint, transfer)
        }
        _ => unreachable!(),
    };
    assert_eq!(sender.amount, 500);
    assert_eq!(mint.supply, 4000);
    assert!(transfer.is_initialized);
    assert_eq!(transfer.vaa_time, 0);

    // one signature of three is below quorum: the attach is refused
    let body = VAABody::Transfer(BodyTransfer {
        nonce: 11,
        source_chain: 1,
        target_chain: 2,
        source_address: sender_id.clone(),
        target_address: vec![3u8; 32],
        asset: AssetMeta { chain: 2, address: foreign.address.clone() },
        amount: Amount::from_u64(1000),
    });
    let raw = signed_vaa(0, 60, body, &[(0, secret(0x11))]);
    let claim_id = claim_id_for(&program_id, &bridge_id, &raw);
    let ins = BridgeInstruction::PostVAA(raw);
    let accounts = RequestAccounts::PostVaa {
        bridge_id: bridge_id.clone(),
        bridge,
        guardian_set_id: guardian_id,
        guardian_set: guardian,
        claim_id,
        claim: zero_claim(),
        target: VaaTarget::Proposal { proposal_id: transfer_id, proposal: transfer },
    };
    let (accs, res) = process(&program_id, 1000, &ins, accounts);
    assert_eq!(res, Err(Error::InvalidVAASignature));
    match accs {
        RequestAccounts::PostVaa { claim, target: VaaTarget::Proposal { proposal, .. }, .. } => {
            assert!(!claim.is_initialized);
            assert!(proposal.is_initialized);
            assert_eq!(proposal.vaa_time, 0);
        }
        _ => unreachable!(),
    }
}

#[test]
fn full_quorum_attaches_the_attestation() {
    let program_id = pid();
    let sks = [secret(0x11), secret(0x12), secret(0x13)];
    let keys: Vec<Vec<u8>> = sks.iter().map(guardian_addr).collect();
    let (bridge_id, bridge, guardian_id, guardian) = initialize(&program_id, keys, 600, 1000);
    let foreign_address = vec![0xAAu8; 32];
    let sender_id = vec![7u8; 32];
    let proposal = TransferOutProposal {
        is_initialized: true,
        amount: Amount::from_u64(1000),
        to_chain_id: 2,
        source_address: sender_id.clone(),
        foreign_address: vec![3u8; 32],
        nonce: 11,
        asset: AssetMeta { chain: 2, address: foreign_address.clone() },
        vaa: Vec::new(),
        vaa_time: 0,
    };
    let proposal_id = derive_transfer_id(
        &program_id,
        &bridge_id,
        2,
        &foreign_address,
        2,
        &vec![3u8; 32],
        &sender_id,
        11,
    );
    let body = VAABody::Transfer(BodyTransfer {
        nonce: 11,
        source_chain: 1,
        target_chain: 2,
        source_address: sender_id,
        target_address: vec![3u8; 32],
        asset: AssetMeta { chain: 2, address: foreign_address },
        amount: Amount::from_u64(1000),
    });
    let raw = signed_vaa(
        0,
        60,
        body,
        &[(0, secret(0x11)), (1, secret(0x12)), (2, secret(0x13))],
    );
    let claim_id = claim_id_for(&program_id, &bridge_id, &raw);
    let ins = BridgeInstruction::PostVAA(raw.clone());
    let accounts = RequestAccounts::PostVaa {
        bridge_id,
        bridge,
        guardian_set_id: guardian_id,
        guardian_set: guardian,
        claim_id,
        claim: zero_claim(),
        target: VaaTarget::Proposal { proposal_id, proposal },
    };
    let (accs, res) = process(&program_id, 1000, &ins, accounts);
    assert_eq!(res, Ok(()));
    match accs {
        RequestAccounts::PostVaa { claim, target: VaaTarget::Proposal { proposal, .. }, .. } => {
            assert!(claim.is_initialized);
            assert_eq!(proposal.vaa_time, 60);
            assert_eq!(proposal.vaa, raw);
        }
        _ => unreachable!(),
    }
}

#[test]
fn rotation_advances_index_and_expires_the_old_set() {
    let program_id = pid();
    let sk = secret(0x11);
    let new_sk = secret(0x21);
    let (bridge_id, bridge, guardian_id, guardian) =
        initialize(&program_id, vec![guardian_addr(&sk)], 600, 1000);

    // a rotation to the same index is refused and changes nothing
    let body = VAABody::UpdateGuardianSet(BodyUpdateGuardianSet {
        new_index: 0,
        new_keys: vec![guardian_addr(&new_sk)],
    });
    let raw = signed_vaa(0, 50, body, &[(0, sk.clone())]);
    let claim_id = claim_id_for(&program_id, &bridge_id, &raw);
    let ins = BridgeInstruction::PostVAA(raw);
    let accounts = RequestAccounts::PostVaa {
        bridge_id: bridge_id.clone(),
        bridge,
        guardian_set_id: guardian_id.clone(),
        guardian_set: guardian,
        claim_id,
        claim: zero_claim(),
        target: VaaTarget::NewGuardians {
            new_guardian_id: derive_guardian_set_id(&program_id, &bridge_id, 0),
            new_guardian_set: zero_guardian_set(),
        },
    };
    let (accs, res) = process(&program_id, 1000, &ins, accounts);
    assert_eq!(res, Err(Error::GuardianIndexNotIncreasing));
    let (bridge, guardian) = match accs {
        RequestAccounts::PostVaa {
            bridge, guardian_set, target: VaaTarget::NewGuardians { new_guardian_set, .. }, ..
        } => {
            assert!(!new_guardian_set.is_initialized);
            assert_eq!(guardian_set.expiration_time, 0);
            (bridge, guardian_set)
        }
        _ => unreachable!(),
    };
    assert_eq!(bridge.guardian_set_index, 0);

    // a strictly increasing index rotates: the old set expires at
    // exactly now + validity
    let body = VAABody::UpdateGuardianSet(BodyUpdateGuardianSet {
        new_index: 1,
        new_keys: vec![guardian_addr(&new_sk)],
    });
    let raw = signed_vaa(0, 51, body, &[(0, sk)]);
    let claim_id = claim_id_for(&program_id, &bridge_id, &raw);
    let ins = BridgeInstruction::PostVAA(raw);
    let accounts = RequestAccounts::PostVaa {
        bridge_id: bridge_id.clone(),
        bridge,
        guardian_set_id: guardian_id,
        guardian_set: guardian,
        claim_id,
        claim: zero_claim(),
        target: VaaTarget::NewGuardians {
            new_guardian_id: derive_guardian_set_id(&program_id, &bridge_id, 1),
            new_guardian_set: zero_guardian_set(),
        },
    };
    let (accs, res) = process(&program_id, 1000, &ins, accounts);
    assert_eq!(res, Ok(()));
    match accs {
        RequestAccounts::PostVaa {
            bridge, guardian_set, target: VaaTarget::NewGuardians { new_guardian_set, .. }, ..
        } => {
            assert_eq!(bridge.guardian_set_index, 1);
            assert_eq!(guardian_set.expiration_time, 1600);
            // valid through the grace window, invalid from its end
            assert!(guardian_set.is_valid_for_signing(1599));
            assert!(!guardian_set.is_valid_for_signing(1600));
            assert!(new_guardian_set.is_initialized);
            assert_eq!(new_guardian_set.index, 1);
            assert_eq!(new_guardian_set.expiration_time, 0);
            assert_eq!(new_guardian_set.keys, vec![guardian_addr(&new_sk)]);
        }
        _ => unreachable!(),
    }
}

#[test]
fn mismatched_guardian_set_record_fails_before_signatures() {
    let program_id = pid();
    let sk = secret(0x11);
    let (bridge_id, bridge, guardian_id, guardian) =
        initialize(&program_id, vec![guardian_addr(&sk)], 600, 1000);
    // the VAA claims set 2, but the supplied record is the one derived
    // for set 0 — and carries no signature at all, which is never
    // reached
    let raw = signed_vaa(2, 5, transfer_body(&vec![9u8; 32], 2, 1, 500, 9), &[]);
    let claim_id = claim_id_for(&program_id, &bridge_id, &raw);
    let ins = BridgeInstruction::PostVAA(raw);
    let accounts = RequestAccounts::PostVaa {
        bridge_id: bridge_id.clone(),
        bridge,
        guardian_set_id: guardian_id,
        guardian_set: guardian,
        claim_id,
        claim: zero_claim(),
        target: VaaTarget::TransferIn {
            mint_id: vec![9u8; 32],
            mint: Mint { is_initialized: false, supply: 0 },
            destination: account(&vec![9u8; 32], &vec![8u8; 32], 0),
            custody_id: vec![0u8; 32],
            custody: account(&vec![9u8; 32], &vec![8u8; 32], 0),
        },
    };
    let (_, res) = process(&program_id, 1000, &ins, accounts);
    assert_eq!(res, Err(Error::InvalidDerivedAccount));
}

#[test]
fn expiry_checks_follow_the_clock() {
    let program_id = pid();
    let sk = secret(0x11);
    let (bridge_id, bridge, guardian_id, mut guardian) =
        initialize(&program_id, vec![guardian_addr(&sk)], 600, 1000);
    let raw = signed_vaa(0, 5, transfer_body(&vec![9u8; 32], 2, 1, 500, 9), &[(0, sk)]);
    let claim_id = claim_id_for(&program_id, &bridge_id, &raw);
    let custody_id = derive_custody_id(&program_id, &bridge_id, &vec![9u8; 32]);
    let target = |cid: Vec<u8>| VaaTarget::TransferIn {
        mint_id: vec![9u8; 32],
        mint: Mint { is_initialized: false, supply: 0 },
        destination: account(&vec![9u8; 32], &vec![8u8; 32], 0),
        custody_id: cid,
        custody: account(&vec![9u8; 32], &vec![8u8; 32], 900),
    };
    // a set whose expiration lies ahead of the clock is not usable yet
    guardian.expiration_time = 2000;
    let ins = BridgeInstruction::PostVAA(raw.clone());
    let accounts = RequestAccounts::PostVaa {
        bridge_id: bridge_id.clone(),
        bridge: clone_bridge_record(&bridge),
        guardian_set_id: guardian_id.clone(),
        guardian_set: clone_guardian_record(&guardian),
        claim_id: claim_id.clone(),
        claim: zero_claim(),
        target: target(custody_id.clone()),
    };
    let (_, res) = process(&program_id, 1000, &ins, accounts);
    assert_eq!(res, Err(Error::GuardianSetExpired));
    // an active set still inside the deployment's validity window is
    // refused as a stale VAA
    guardian.expiration_time = 0;
    let ins = BridgeInstruction::PostVAA(raw);
    let accounts = RequestAccounts::PostVaa {
        bridge_id,
        bridge,
        guardian_set_id: guardian_id,
        guardian_set: guardian,
        claim_id,
        claim: zero_claim(),
        target: target(custody_id),
    };
    let (_, res) = process(&program_id, 500, &ins, accounts);
    assert_eq!(res, Err(Error::VAAExpired));
}

fn clone_bridge_record(b: &Bridge) -> Bridge {
    Bridge {
        is_initialized: b.is_initialized,
        guardian_set_index: b.guardian_set_index,
        config: BridgeConfig {
            token_program: b.config.token_program.clone(),
            vaa_expiration_time: b.config.vaa_expiration_time,
        },
    }
}

fn clone_guardian_record(g: &GuardianSet) -> GuardianSet {
    GuardianSet {
        is_initialized: g.is_initialized,
        index: g.index,
        keys: g.keys.clone(),
        creation_time: g.creation_time,
        expiration_time: g.expiration_time,
    }
}

#[test]
fn wrapped_round_trip_conserves_total_supply() {
    let program_id = pid();
    let sk = secret(0x11);
    let (bridge_id, bridge, guardian_id, guardian) =
        initialize(&program_id, vec![guardian_addr(&sk)], 600, 1000);
    let foreign_address = vec![0xAAu8; 32];
    let mint_id = derive_wrapped_asset_id(&program_id, &bridge_id, 2, &foreign_address);
    let sender_id = vec![7u8; 32];

    // outbound: burn 1000 of the wrapped asset
    let t = TransferOutPayload {
        amount: Amount::from_u64(1000),
        chain_id: 2,
        asset: AssetMeta { chain: 2, address: foreign_address.clone() },
        target: vec![3u8; 32],
        nonce: 21,
    };
    let transfer_id = derive_transfer_id(
        &program_id,
        &bridge_id,
        2,
        &foreign_address,
        2,
        &t.target,
        &sender_id,
        21,
    );
    let ins = BridgeInstruction::TransferOut(t);
    let accounts = RequestAccounts::TransferOutWrapped {
        sender_id,
        sender: account(&mint_id, &vec![6u8; 32], 1500),
        bridge_id: bridge_id.clone(),
        bridge,
        transfer_id,
        transfer: zero_proposal(),
        mint_id: mint_id.clone(),
        mint: Mint { is_initialized: true, supply: 5000 },
    };
    let (accs, res) = process(&program_id, 1000, &ins, accounts);
    assert_eq!(res, Ok(()));
    let (bridge, mint) = match accs {
        RequestAccounts::TransferOutWrapped { bridge, mint, .. } => (bridge, mint),
        _ => unreachable!(),
    };
    assert_eq!(mint.supply, 4000);

    // inbound: a verified transfer of 1000 of the same foreign asset
    // mints it back — total supply is conserved across the round trip
    let body = VAABody::Transfer(BodyTransfer {
        nonce: 22,
        source_chain: 2,
        target_chain: 1,
        source_address: vec![3u8; 32],
        target_address: vec![4u8; 32],
        asset: AssetMeta { chain: 2, address: foreign_address },
        amount: Amount::from_u64(1000),
    });
    let raw = signed_vaa(0, 60, body, &[(0, sk)]);
    let claim_id = claim_id_for(&program_id, &bridge_id, &raw);
    let ins = BridgeInstruction::PostVAA(raw);
    let accounts = RequestAccounts::PostVaa {
        bridge_id: bridge_id.clone(),
        bridge,
        guardian_set_id: guardian_id,
        guardian_set: guardian,
        claim_id,
        claim: zero_claim(),
        target: VaaTarget::TransferIn {
            mint_id: mint_id.clone(),
            mint,
            destination: account(&mint_id, &vec![8u8; 32], 0),
            custody_id: vec![0u8; 32],
            custody: account(&mint_id, &vec![8u8; 32], 0),
        },
    };
    let (accs, res) = process(&program_id, 1000, &ins, accounts);
    assert_eq!(res, Ok(()));
    match accs {
        RequestAccounts::PostVaa {
            target: VaaTarget::TransferIn { mint, destination, .. }, ..
        } => {
            assert_eq!(mint.supply, 5000);
            assert_eq!(destination.amount, 1000);
        }
        _ => unreachable!(),
    }
}
