use vstd::prelude::*;

use crate::amount::Amount;
use crate::bytes::{bytes_eq, clone_bytes};
use crate::vaa::BodyTransfer;
use crate::MAX_LEN_GUARDIAN_KEYS;

verus! {

/// Deployment-wide parameters of the bridge singleton.
pub struct BridgeConfig {
    /// Identity of the token-ledger program the bridge acts through.
    pub token_program: Vec<u8>,
    /// Grace window, in seconds, that an outgoing guardian set and its
    /// in-flight attestations stay usable after a rotation.
    pub vaa_expiration_time: u32,
}

/// The bridge singleton: which guardian set is active, and the config.
pub struct Bridge {
    pub is_initialized: bool,
    pub guardian_set_index: u32,
    pub config: BridgeConfig,
}

/// A versioned, time-bounded collection of guardian keys.
pub struct GuardianSet {
    pub is_initialized: bool,
    pub index: u32,
    /// Guardian addresses, 20 bytes each, at most `MAX_LEN_GUARDIAN_KEYS`.
    pub keys: Vec<Vec<u8>>,
    pub creation_time: u32,
    /// 0 while the set is active; otherwise the end of its grace window.
    pub expiration_time: u32,
}

/// An asset named uniformly whether local or foreign.
pub struct AssetMeta {
    pub chain: u8,
    pub address: Vec<u8>,
}

#[verifier::ext_equal]
pub struct AssetMetaView {
    pub chain: u8,
    pub address: Seq<u8>,
}

impl View for AssetMeta {
    type V = AssetMetaView;

    open spec fn view(&self) -> AssetMetaView {
        AssetMetaView { chain: self.chain, address: self.address@ }
    }
}

/// Durable evidence of an outbound transfer: created with the burn or
/// custody deposit, later carrying the attesting VAA exactly once.
pub struct TransferOutProposal {
    pub is_initialized: bool,
    pub amount: Amount,
    pub to_chain_id: u8,
    pub source_address: Vec<u8>,
    pub foreign_address: Vec<u8>,
    pub nonce: u32,
    pub asset: AssetMeta,
    /// The attached raw VAA bytes; empty until attested.
    pub vaa: Vec<u8>,
    /// 0 until a VAA is attached.
    pub vaa_time: u32,
}

/// One-shot replay guard keyed by a VAA digest.
pub struct ClaimedVAA {
    pub is_initialized: bool,
    pub vaa_time: u32,
}

/// Reverse lookup from a wrapped mint to its foreign origin.
pub struct WrappedAssetMeta {
    pub is_initialized: bool,
    pub chain: u8,
    pub address: Vec<u8>,
}

pub open spec fn guardian_set_wf(s: GuardianSet) -> bool {
    &&& s.keys@.len() <= MAX_LEN_GUARDIAN_KEYS
    &&& forall|i: int| 0 <= i < s.keys@.len() ==> (#[trigger] s.keys@[i])@.len() == 20
}

/// A set may sign while active (expiration 0) or within its grace window.
pub open spec fn valid_for_signing(expiration_time: u32, now: u32) -> bool {
    expiration_time == 0 || now < expiration_time
}

impl GuardianSet {
    /// Whether this set's signatures are acceptable at time `now`.
    pub fn is_valid_for_signing(&self, now: u32) -> (r: bool)
        ensures
            r == valid_for_signing(self.expiration_time, now),
    {
        self.expiration_time == 0 || now < self.expiration_time
    }
}

/// A set rotated out at time `t` with grace window `w` (so expiring at
/// `t + w`, a positive instant) stays signature-valid exactly at the
/// instants before `t + w`, and is invalid from then on.
pub proof fn lemma_rotation_grace_window(t: u32, w: u32, q: u32)
    requires
        t + w <= u32::MAX,
        t + w > 0,
    ensures
        valid_for_signing((t + w) as u32, q) <==> (q as int) < t + w,
{
}

/// The transfer body attests exactly this proposal: asset, amount,
/// chains, addresses and nonce all equal.
pub open spec fn proposal_matches_transfer(
    p: TransferOutProposal,
    b: crate::vaa::BodyTransferView,
) -> bool {
    &&& p.amount@ == b.amount
    &&& p.to_chain_id == b.target_chain
    &&& p.source_address@ == b.source_address
    &&& p.foreign_address@ == b.target_address
    &&& p.asset.chain == b.asset.chain
    &&& p.asset.address@ == b.asset.address
    &&& p.nonce == b.nonce
}

impl TransferOutProposal {
    pub fn matches_vaa(&self, b: &BodyTransfer) -> (r: bool)
        ensures
            r == proposal_matches_transfer(*self, b@),
    {
        self.amount.same_as(&b.amount) && self.to_chain_id == b.target_chain && bytes_eq(
            &self.source_address,
            &b.source_address,
        ) && bytes_eq(&self.foreign_address, &b.target_address) && self.asset.chain == b.asset.chain
            && bytes_eq(&self.asset.address, &b.asset.address) && self.nonce == b.nonce
    }
}

impl AssetMeta {
    /// A fresh value naming the same asset.
    pub fn duplicate(&self) -> (r: AssetMeta)
        ensures
            r.chain == self.chain,
            r.address@ == self.address@,
    {
        AssetMeta { chain: self.chain, address: clone_bytes(&self.address) }
    }
}

} // verus!
