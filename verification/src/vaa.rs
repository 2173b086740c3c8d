use vstd::prelude::*;

use crate::amount::Amount;
use crate::bytes::{
    be4, bytes_eq, copy_range, extend_from, read_u32_be, u32_of_be, u32_to_be,
};
use crate::crypto::{
    eth_address, eth_address_of, recover_pubkey, recovered_pubkey, sha256, sha256_of,
};
use crate::error::Error;
use crate::state::{AssetMeta, AssetMetaView};
use crate::MAX_LEN_GUARDIAN_KEYS;

verus! {

pub const VAA_VERSION: u8 = 1;

pub const VAA_ACTION_UPDATE_GUARDIAN_SET: u8 = 1;

pub const VAA_ACTION_TRANSFER: u8 = 16;

/// One guardian's signature: the key slot it claims, the 64-byte standard
/// signature over the body digest, and the recovery id.
pub struct SigEntry {
    pub index: u8,
    pub signature: Vec<u8>,
    pub recovery_id: u8,
}

#[verifier::ext_equal]
pub struct SigView {
    pub index: u8,
    pub signature: Seq<u8>,
    pub recovery_id: u8,
}

impl View for SigEntry {
    type V = SigView;

    open spec fn view(&self) -> SigView {
        SigView { index: self.index, signature: self.signature@, recovery_id: self.recovery_id }
    }
}

impl DeepView for SigEntry {
    type V = SigView;

    open spec fn deep_view(&self) -> SigView {
        self@
    }
}

/// Body of a guardian-set rotation.
pub struct BodyUpdateGuardianSet {
    pub new_index: u32,
    pub new_keys: Vec<Vec<u8>>,
}

#[verifier::ext_equal]
pub struct BodyUpdateView {
    pub new_index: u32,
    pub new_keys: Seq<Seq<u8>>,
}

impl View for BodyUpdateGuardianSet {
    type V = BodyUpdateView;

    open spec fn view(&self) -> BodyUpdateView {
        BodyUpdateView { new_index: self.new_index, new_keys: self.new_keys.deep_view() }
    }
}

/// Body of an asset transfer attestation.
pub struct BodyTransfer {
    pub nonce: u32,
    pub source_chain: u8,
    pub target_chain: u8,
    pub source_address: Vec<u8>,
    pub target_address: Vec<u8>,
    pub asset: AssetMeta,
    pub amount: Amount,
}

#[verifier::ext_equal]
pub struct BodyTransferView {
    pub nonce: u32,
    pub source_chain: u8,
    pub target_chain: u8,
    pub source_address: Seq<u8>,
    pub target_address: Seq<u8>,
    pub asset: AssetMetaView,
    pub amount: Seq<u8>,
}

impl View for BodyTransfer {
    type V = BodyTransferView;

    open spec fn view(&self) -> BodyTransferView {
        BodyTransferView {
            nonce: self.nonce,
            source_chain: self.source_chain,
            target_chain: self.target_chain,
            source_address: self.source_address@,
            target_address: self.target_address@,
            asset: self.asset@,
            amount: self.amount@,
        }
    }
}

/// The typed payload of a VAA.
pub enum VAABody {
    UpdateGuardianSet(BodyUpdateGuardianSet),
    Transfer(BodyTransfer),
}

#[verifier::ext_equal]
pub enum BodyView {
    UpdateGuardianSet(BodyUpdateView),
    Transfer(BodyTransferView),
}

impl View for VAABody {
    type V = BodyView;

    open spec fn view(&self) -> BodyView {
        match self {
            VAABody::UpdateGuardianSet(b) => BodyView::UpdateGuardianSet(b@),
            VAABody::Transfer(b) => BodyView::Transfer(b@),
        }
    }
}

/// A decoded attested message.
pub struct VAA {
    pub version: u8,
    pub guardian_set_index: u32,
    pub signatures: Vec<SigEntry>,
    pub timestamp: u32,
    pub payload: VAABody,
}

#[verifier::ext_equal]
pub struct VAAView {
    pub version: u8,
    pub guardian_set_index: u32,
    pub signatures: Seq<SigView>,
    pub timestamp: u32,
    pub payload: BodyView,
}

impl View for VAA {
    type V = VAAView;

    open spec fn view(&self) -> VAAView {
        VAAView {
            version: self.version,
            guardian_set_index: self.guardian_set_index,
            signatures: self.signatures.deep_view(),
            timestamp: self.timestamp,
            payload: self.payload@,
        }
    }
}

pub open spec fn sig_wf(s: SigView) -> bool {
    s.signature.len() == 64
}

pub open spec fn sigs_wf(ss: Seq<SigView>) -> bool {
    &&& ss.len() <= 255
    &&& forall|i: int| 0 <= i < ss.len() ==> sig_wf(#[trigger] ss[i])
}

pub open spec fn update_wf(b: BodyUpdateView) -> bool {
    &&& b.new_keys.len() <= 255
    &&& forall|i: int| 0 <= i < b.new_keys.len() ==> (#[trigger] b.new_keys[i]).len() == 20
}

pub open spec fn transfer_wf(b: BodyTransferView) -> bool {
    &&& b.source_address.len() == 32
    &&& b.target_address.len() == 32
    &&& b.asset.address.len() == 32
    &&& b.amount.len() == 32
}

pub open spec fn body_wf(p: BodyView) -> bool {
    match p {
        BodyView::UpdateGuardianSet(b) => update_wf(b),
        BodyView::Transfer(b) => transfer_wf(b),
    }
}

pub open spec fn vaa_wf(v: VAAView) -> bool {
    &&& v.version == VAA_VERSION
    &&& sigs_wf(v.signatures)
    &&& body_wf(v.payload)
}

// ---------------------------------------------------------------------
// Wire layout.
//
// header:  version (1) | guardian_set_index (4, big-endian) | n_sigs (1)
//          | n_sigs x { index (1) | signature (64) | recovery_id (1) }
// body:    timestamp (4, big-endian) | action (1) | action's fields
//
// The replay digest is computed over the body alone, so it depends only
// on what was attested, never on which guardians signed.
// ---------------------------------------------------------------------

pub open spec fn encode_sig(s: SigView) -> Seq<u8> {
    seq![s.index] + s.signature + seq![s.recovery_id]
}

pub open spec fn encode_sigs(ss: Seq<SigView>) -> Seq<u8>
    decreases ss.len(),
{
    if ss.len() == 0 {
        Seq::empty()
    } else {
        encode_sig(ss[0]) + encode_sigs(ss.drop_first())
    }
}

pub open spec fn encode_keys(ks: Seq<Seq<u8>>) -> Seq<u8>
    decreases ks.len(),
{
    if ks.len() == 0 {
        Seq::empty()
    } else {
        ks[0] + encode_keys(ks.drop_first())
    }
}

pub open spec fn encode_payload(p: BodyView) -> Seq<u8> {
    match p {
        BodyView::UpdateGuardianSet(b) => seq![VAA_ACTION_UPDATE_GUARDIAN_SET] + be4(b.new_index)
            + seq![b.new_keys.len() as u8] + encode_keys(b.new_keys),
        BodyView::Transfer(b) => seq![VAA_ACTION_TRANSFER] + be4(b.nonce) + seq![b.source_chain]
            + seq![b.target_chain] + b.source_address + b.target_address + seq![b.asset.chain]
            + b.asset.address + b.amount,
    }
}

/// The attested content: everything the digest covers.
pub open spec fn encode_body(v: VAAView) -> Seq<u8> {
    be4(v.timestamp) + encode_payload(v.payload)
}

pub open spec fn encode_vaa(v: VAAView) -> Seq<u8> {
    seq![v.version] + be4(v.guardian_set_index) + seq![v.signatures.len() as u8] + encode_sigs(
        v.signatures,
    ) + encode_body(v)
}

/// The canonical digest of a VAA: a double hash over the body bytes, a
/// pure function of the timestamp and payload.
pub open spec fn vaa_digest_of(v: VAAView) -> Seq<u8> {
    sha256_of(sha256_of(encode_body(v)))
}

/// Two VAAs that attest the same content carry the same digest, whatever
/// their signature lists: the digest never covers the signatures.
pub proof fn lemma_digest_independent_of_signatures(v1: VAAView, v2: VAAView)
    requires
        v1.timestamp == v2.timestamp,
        v1.payload == v2.payload,
    ensures
        vaa_digest_of(v1) == vaa_digest_of(v2),
{
}

proof fn lemma_encode_sigs_snoc(ss: Seq<SigView>, x: SigView)
    ensures
        encode_sigs(ss.push(x)) == encode_sigs(ss) + encode_sig(x),
    decreases ss.len(),
{
    let p = ss.push(x);
    assert(encode_sigs(p) == encode_sig(p[0]) + encode_sigs(p.drop_first()));
    if ss.len() == 0 {
        assert(p[0] == x);
        assert(p.drop_first() =~= Seq::<SigView>::empty());
        assert(encode_sigs(p.drop_first()) == Seq::<u8>::empty());
        assert(encode_sigs(p) =~= encode_sigs(ss) + encode_sig(x));
    } else {
        assert(p[0] == ss[0]);
        assert(p.drop_first() =~= ss.drop_first().push(x));
        lemma_encode_sigs_snoc(ss.drop_first(), x);
        assert(encode_sigs(ss) == encode_sig(ss[0]) + encode_sigs(ss.drop_first()));
        assert(encode_sigs(p) =~= encode_sigs(ss) + encode_sig(x));
    }
}

proof fn lemma_encode_keys_snoc(ks: Seq<Seq<u8>>, x: Seq<u8>)
    ensures
        encode_keys(ks.push(x)) == encode_keys(ks) + x,
    decreases ks.len(),
{
    let p = ks.push(x);
    assert(encode_keys(p) == p[0] + encode_keys(p.drop_first()));
    if ks.len() == 0 {
        assert(p[0] == x);
        assert(p.drop_first() =~= Seq::<Seq<u8>>::empty());
        assert(encode_keys(p.drop_first()) == Seq::<u8>::empty());
        assert(encode_keys(p) =~= encode_keys(ks) + x);
    } else {
        assert(p[0] == ks[0]);
        assert(p.drop_first() =~= ks.drop_first().push(x));
        lemma_encode_keys_snoc(ks.drop_first(), x);
        assert(encode_keys(ks) == ks[0] + encode_keys(ks.drop_first()));
        assert(encode_keys(p) =~= encode_keys(ks) + x);
    }
}

// ---------------------------------------------------------------------
// Decoding: the specification-level parser, mirrored by the executable
// one. Both demand exact consumption; anything else is malformed.
// ---------------------------------------------------------------------

pub open spec fn parse_sig(b: Seq<u8>, off: int) -> SigView {
    SigView {
        index: b[off],
        signature: b.subrange(off + 1, off + 65),
        recovery_id: b[off + 65],
    }
}

pub open spec fn parse_sigs(b: Seq<u8>, off: int, n: nat) -> Seq<SigView> {
    Seq::new(n, |i: int| parse_sig(b, off + 66 * i))
}

pub open spec fn parse_keys(b: Seq<u8>, off: int, n: nat) -> Seq<Seq<u8>> {
    Seq::new(n, |i: int| b.subrange(off + 20 * i, off + 20 * i + 20))
}

pub open spec fn parse_update(b: Seq<u8>, off: int) -> Option<BodyUpdateView> {
    if off + 5 > b.len() {
        None
    } else {
        let k = b[off + 4] as int;
        if b.len() != off + 5 + 20 * k {
            None
        } else {
            Some(
                BodyUpdateView {
                    new_index: u32_of_be(b[off], b[off + 1], b[off + 2], b[off + 3]),
                    new_keys: parse_keys(b, off + 5, b[off + 4] as nat),
                },
            )
        }
    }
}

pub open spec fn parse_transfer(b: Seq<u8>, off: int) -> Option<BodyTransferView> {
    if b.len() != off + 135 {
        None
    } else {
        Some(
            BodyTransferView {
                nonce: u32_of_be(b[off], b[off + 1], b[off + 2], b[off + 3]),
                source_chain: b[off + 4],
                target_chain: b[off + 5],
                source_address: b.subrange(off + 6, off + 38),
                target_address: b.subrange(off + 38, off + 70),
                asset: AssetMetaView { chain: b[off + 70], address: b.subrange(off + 71, off + 103) },
                amount: b.subrange(off + 103, off + 135),
            },
        )
    }
}

/// What the raw bytes decode to, if they are a well-formed VAA.
pub open spec fn parse_vaa(b: Seq<u8>) -> Option<VAAView> {
    if b.len() < 6 {
        None
    } else if b[0] != VAA_VERSION {
        None
    } else {
        let n = b[5] as int;
        if b.len() < 6 + 66 * n + 5 {
            None
        } else {
            let boff = 6 + 66 * n;
            let action = b[boff + 4];
            let payload = if action == VAA_ACTION_UPDATE_GUARDIAN_SET {
                match parse_update(b, boff + 5) {
                    Some(u) => Some(BodyView::UpdateGuardianSet(u)),
                    None => None,
                }
            } else if action == VAA_ACTION_TRANSFER {
                match parse_transfer(b, boff + 5) {
                    Some(t) => Some(BodyView::Transfer(t)),
                    None => None,
                }
            } else {
                None
            };
            match payload {
                None => None,
                Some(p) => Some(
                    VAAView {
                        version: b[0],
                        guardian_set_index: u32_of_be(b[1], b[2], b[3], b[4]),
                        signatures: parse_sigs(b, 6, b[5] as nat),
                        timestamp: u32_of_be(b[boff], b[boff + 1], b[boff + 2], b[boff + 3]),
                        payload: p,
                    },
                ),
            }
        }
    }
}

// ---------------------------------------------------------------------
// The quorum rule.
// ---------------------------------------------------------------------

/// Signatures required for `n` guardian keys: strictly more than two
/// thirds of the set.
pub open spec fn quorum(n: nat) -> nat {
    n * 2 / 3 + 1
}

/// One signature resolves under the digest to exactly the guardian key
/// it claims.
pub open spec fn sig_checks_out(digest: Seq<u8>, s: SigView, keys: Seq<Seq<u8>>) -> bool {
    &&& (s.index as int) < keys.len()
    &&& match recovered_pubkey(digest, s.signature, s.recovery_id) {
        Some(pk) => eth_address_of(pk) == keys[s.index as int],
        None => false,
    }
}

pub open spec fn indices_distinct(ss: Seq<SigView>) -> bool {
    forall|i: int, j: int| 0 <= i < j < ss.len() ==> (#[trigger] ss[i]).index != (
    #[trigger] ss[j]).index
}

/// A signature list establishes quorum against a key list: enough
/// signatures, all from distinct guardians, every one resolving to the
/// key it claims.
pub open spec fn verify_quorum_spec(digest: Seq<u8>, ss: Seq<SigView>, keys: Seq<Seq<u8>>) -> bool {
    &&& ss.len() >= quorum(keys.len())
    &&& indices_distinct(ss)
    &&& forall|i: int| 0 <= i < ss.len() ==> sig_checks_out(digest, #[trigger] ss[i], keys)
}

impl VAA {
    /// Structurally decodes raw bytes; exactly the byte strings the wire
    /// layout above admits are accepted.
    pub fn deserialize(data: &Vec<u8>) -> (r: Result<VAA, Error>)
        ensures
            (match r {
                Ok(v) => parse_vaa(data@) == Some(v@) && vaa_wf(v@),
                Err(e) => parse_vaa(data@) is None && e == Error::InvalidVAAFormat,
            }),
    {
        let len = data.len();
        if len < 6 {
            return Err(Error::InvalidVAAFormat);
        }
        if data[0] != VAA_VERSION {
            return Err(Error::InvalidVAAFormat);
        }
        let version = data[0];
        let guardian_set_index = read_u32_be(data, 1);
        let n = data[5] as usize;
        if len < 11 + 66 * n {
            return Err(Error::InvalidVAAFormat);
        }
        let mut signatures: Vec<SigEntry> = Vec::new();
        let mut i: usize = 0;
        while i < n
            invariant
                i <= n,
                len == data@.len(),
                11 + 66 * n <= len,
                signatures.deep_view() == parse_sigs(data@, 6, i as nat),
                signatures@.len() == i,
            decreases n - i,
        {
            let off = 6 + 66 * i;
            let e = SigEntry {
                index: data[off],
                signature: copy_range(data, off + 1, off + 65),
                recovery_id: data[off + 65],
            };
            let ghost pre = signatures.deep_view();
            signatures.push(e);
            proof {
                let dv = signatures.deep_view();
                let ps = parse_sigs(data@, 6, (i + 1) as nat);
                assert forall|l: int| 0 <= l < i + 1 implies dv[l] == ps[l] by {
                    if l < i {
                        assert(pre[l] == parse_sigs(data@, 6, i as nat)[l]);
                        assert(dv[l] == pre[l]);
                    } else {
                        assert(dv[l] == signatures@[l]@);
                        assert(signatures@[l]@.signature == data@.subrange(
                            6 + 66 * l + 1,
                            6 + 66 * l + 65,
                        ));
                        assert(ps[l] == parse_sig(data@, 6 + 66 * l));
                    }
                }
                assert(dv =~= ps);
            }
            i += 1;
        }
        let boff = 6 + 66 * n;
        let timestamp = read_u32_be(data, boff);
        let action = data[boff + 4];
        let poff = boff + 5;
        if action == VAA_ACTION_UPDATE_GUARDIAN_SET {
            if poff + 5 > len {
                return Err(Error::InvalidVAAFormat);
            }
            let new_index = read_u32_be(data, poff);
            let k = data[poff + 4] as usize;
            if len != poff + 5 + 20 * k {
                return Err(Error::InvalidVAAFormat);
            }
            let mut new_keys: Vec<Vec<u8>> = Vec::new();
            let mut j: usize = 0;
            while j < k
                invariant
                    j <= k,
                    len == data@.len(),
                    len == poff + 5 + 20 * k,
                    poff == 6 + 66 * n + 5,
                    new_keys.deep_view() == parse_keys(data@, poff + 5, j as nat),
                    new_keys@.len() == j,
                decreases k - j,
            {
                let koff = poff + 5 + 20 * j;
                let ghost pre = new_keys.deep_view();
                new_keys.push(copy_range(data, koff, koff + 20));
                proof {
                    let dv = new_keys.deep_view();
                    let pk = parse_keys(data@, poff as int + 5, (j + 1) as nat);
                    assert forall|l: int| 0 <= l < j + 1 implies dv[l] == pk[l] by {
                        if l < j {
                            assert(pre[l] == parse_keys(data@, poff as int + 5, j as nat)[l]);
                            assert(dv[l] == pre[l]);
                        } else {
                            assert(dv[l] =~= new_keys@[l]@);
                            assert(new_keys@[l]@ == data@.subrange(
                                poff + 5 + 20 * l,
                                poff + 5 + 20 * l + 20,
                            ));
                        }
                    }
                    assert(dv =~= pk);
                }
                j += 1;
            }
            let body = BodyUpdateGuardianSet { new_index, new_keys };
            let v = VAA {
                version,
                guardian_set_index,
                signatures,
                timestamp,
                payload: VAABody::UpdateGuardianSet(body),
            };
            proof {
                assert(parse_update(data@, poff as int) == Some(v@.payload->UpdateGuardianSet_0));
                assert(parse_vaa(data@) == Some(v@)) by {
                    assert(parse_vaa(data@).unwrap() =~~= v@);
                }
            }
            Ok(v)
        } else if action == VAA_ACTION_TRANSFER {
            if len != poff + 135 {
                return Err(Error::InvalidVAAFormat);
            }
            let body = BodyTransfer {
                nonce: read_u32_be(data, poff),
                source_chain: data[poff + 4],
                target_chain: data[poff + 5],
                source_address: copy_range(data, poff + 6, poff + 38),
                target_address: copy_range(data, poff + 38, poff + 70),
                asset: AssetMeta {
                    chain: data[poff + 70],
                    address: copy_range(data, poff + 71, poff + 103),
                },
                amount: Amount { bytes: copy_range(data, poff + 103, poff + 135) },
            };
            let v = VAA {
                version,
                guardian_set_index,
                signatures,
                timestamp,
                payload: VAABody::Transfer(body),
            };
            proof {
                assert(parse_transfer(data@, poff as int) == Some(v@.payload->Transfer_0)) by {
                    assert(parse_transfer(data@, poff as int).unwrap() =~~= v@.payload->Transfer_0);
                }
                assert(parse_vaa(data@) == Some(v@)) by {
                    assert(parse_vaa(data@).unwrap() =~~= v@);
                }
            }
            Ok(v)
        } else {
            return Err(Error::InvalidVAAFormat);
        }
    }

    /// The body bytes this VAA attests: the digest input.
    pub fn serialize_body(&self) -> (r: Vec<u8>)
        requires
            vaa_wf(self@),
        ensures
            r@ == encode_body(self@),
    {
        let mut out = u32_to_be(self.timestamp);
        match &self.payload {
            VAABody::UpdateGuardianSet(b) => {
                out.push(VAA_ACTION_UPDATE_GUARDIAN_SET);
                let ni = u32_to_be(b.new_index);
                extend_from(&mut out, &ni);
                out.push(b.new_keys.len() as u8);
                let ghost head = be4(self@.timestamp) + seq![VAA_ACTION_UPDATE_GUARDIAN_SET] + be4(
                    b@.new_index,
                ) + seq![b@.new_keys.len() as u8];
                proof {
                    assert(out@ =~= head + encode_keys(b@.new_keys.subrange(0, 0)));
                    assert(b@.new_keys.subrange(0, 0) =~= Seq::<Seq<u8>>::empty());
                }
                let mut j: usize = 0;
                while j < b.new_keys.len()
                    invariant
                        j <= b.new_keys@.len(),
                        b@.new_keys.len() == b.new_keys@.len(),
                        out@ == head + encode_keys(b@.new_keys.subrange(0, j as int)),
                    decreases b.new_keys@.len() - j,
                {
                    extend_from(&mut out, &b.new_keys[j]);
                    proof {
                        assert(b@.new_keys.subrange(0, j as int).push(b@.new_keys[j as int])
                            =~= b@.new_keys.subrange(0, j as int + 1));
                        lemma_encode_keys_snoc(b@.new_keys.subrange(0, j as int), b@.new_keys[
                        j as int]);
                        assert(b@.new_keys[j as int] == b.new_keys@[j as int]@);
                        assert(out@ =~= head + encode_keys(b@.new_keys.subrange(0, j as int + 1)));
                    }
                    j += 1;
                }
                proof {
                    assert(b@.new_keys.subrange(0, b@.new_keys.len() as int) =~= b@.new_keys);
                    assert(out@ =~= encode_body(self@));
                }
            },
            VAABody::Transfer(b) => {
                out.push(VAA_ACTION_TRANSFER);
                let nonce = u32_to_be(b.nonce);
                extend_from(&mut out, &nonce);
                out.push(b.source_chain);
                out.push(b.target_chain);
                extend_from(&mut out, &b.source_address);
                extend_from(&mut out, &b.target_address);
                out.push(b.asset.chain);
                extend_from(&mut out, &b.asset.address);
                extend_from(&mut out, &b.amount.bytes);
                proof {
                    assert(out@ =~= encode_body(self@));
                }
            },
        }
        out
    }

    /// The canonical digest over the body bytes, computed before any
    /// guardian-set or staleness check, so it depends only on the
    /// attested content.
    pub fn body_hash(&self) -> (r: Vec<u8>)
        requires
            vaa_wf(self@),
        ensures
            r@ == vaa_digest_of(self@),
            r@.len() == 32,
    {
        let body = self.serialize_body();
        let once = sha256(&body);
        sha256(&once)
    }

    /// Encodes the VAA in the wire layout.
    pub fn serialize(&self) -> (r: Vec<u8>)
        requires
            vaa_wf(self@),
        ensures
            r@ == encode_vaa(self@),
    {
        let mut out: Vec<u8> = Vec::new();
        out.push(self.version);
        let gsi = u32_to_be(self.guardian_set_index);
        extend_from(&mut out, &gsi);
        out.push(self.signatures.len() as u8);
        let ghost head = seq![self@.version] + be4(self@.guardian_set_index) + seq![
            self@.signatures.len() as u8,
        ];
        proof {
            assert(out@ =~= head + encode_sigs(self@.signatures.subrange(0, 0)));
            assert(self@.signatures.subrange(0, 0) =~= Seq::<SigView>::empty());
        }
        let mut i: usize = 0;
        while i < self.signatures.len()
            invariant
                i <= self.signatures@.len(),
                self@.signatures.len() == self.signatures@.len(),
                vaa_wf(self@),
                out@ == head + encode_sigs(self@.signatures.subrange(0, i as int)),
            decreases self.signatures@.len() - i,
        {
            let s = &self.signatures[i];
            out.push(s.index);
            extend_from(&mut out, &s.signature);
            out.push(s.recovery_id);
            proof {
                assert(self@.signatures.subrange(0, i as int).push(self@.signatures[i as int])
                    =~= self@.signatures.subrange(0, i as int + 1));
                lemma_encode_sigs_snoc(
                    self@.signatures.subrange(0, i as int),
                    self@.signatures[i as int],
                );
                assert(self@.signatures[i as int] == self.signatures@[i as int]@);
                assert(out@ =~= head + encode_sigs(self@.signatures.subrange(0, i as int + 1)));
            }
            i += 1;
        }
        proof {
            assert(self@.signatures.subrange(0, self@.signatures.len() as int)
                =~= self@.signatures);
        }
        let body = self.serialize_body();
        extend_from(&mut out, &body);
        proof {
            assert(out@ =~= encode_vaa(self@));
        }
        out
    }

    /// Checks the signature list against the digest and the guardian key
    /// list: true exactly when a quorum of distinct guardians signed.
    pub fn verify(&self, digest: &Vec<u8>, guardian_keys: &Vec<Vec<u8>>) -> (r: bool)
        requires
            digest@.len() == 32,
            sigs_wf(self@.signatures),
            guardian_keys@.len() <= MAX_LEN_GUARDIAN_KEYS,
        ensures
            r == verify_quorum_spec(digest@, self@.signatures, guardian_keys.deep_view()),
    {
        let n = guardian_keys.len();
        let needed = n * 2 / 3 + 1;
        if self.signatures.len() < needed {
            return false;
        }
        let ghost keys = guardian_keys.deep_view();
        let mut i: usize = 0;
        while i < self.signatures.len()
            invariant
                i <= self.signatures@.len(),
                digest@.len() == 32,
                sigs_wf(self@.signatures),
                self@.signatures.len() == self.signatures@.len(),
                n == guardian_keys@.len(),
                keys == guardian_keys.deep_view(),
                keys.len() == n,
                forall|j: int| 0 <= j < i ==> sig_checks_out(
                    digest@,
                    #[trigger] self@.signatures[j],
                    keys,
                ),
                forall|j: int, l: int| 0 <= j < l < i ==> (#[trigger] self@.signatures[j]).index
                    != (#[trigger] self@.signatures[l]).index,
            decreases self.signatures@.len() - i,
        {
            let s = &self.signatures[i];
            proof {
                assert(s@ == self@.signatures[i as int]);
                assert(sig_wf(self@.signatures[i as int]));
            }
            if s.index as usize >= n {
                return false;
            }
            let mut j: usize = 0;
            while j < i
                invariant
                    j <= i,
                    i < self.signatures@.len(),
                    self@.signatures.len() == self.signatures@.len(),
                    s@ == self@.signatures[i as int],
                    forall|l: int| 0 <= l < j ==> (#[trigger] self@.signatures[l]).index != s.index,
                decreases i - j,
            {
                if self.signatures[j].index == s.index {
                    proof {
                        assert(self@.signatures[j as int].index == self@.signatures[
                        i as int].index);
                        assert(!indices_distinct(self@.signatures));
                    }
                    return false;
                }
                j += 1;
            }
            match recover_pubkey(digest, &s.signature, s.recovery_id) {
                None => {
                    return false;
                },
                Some(pk) => {
                    let addr = eth_address(&pk);
                    if !bytes_eq(&addr, &guardian_keys[s.index as usize]) {
                        proof {
                            assert(keys[s.index as int] == guardian_keys@[s.index as int]@);
                        }
                        return false;
                    }
                    proof {
                        assert(keys[s.index as int] == guardian_keys@[s.index as int]@);
                        assert(sig_checks_out(digest@, self@.signatures[i as int], keys));
                    }
                },
            }
            i += 1;
        }
        true
    }

}

// ---------------------------------------------------------------------
// The encoding and the parser agree: every well-formed VAA's encoding
// decodes back to it.
// ---------------------------------------------------------------------

proof fn lemma_be4_round_trip(x: u32)
    ensures
        u32_of_be(be4(x)[0], be4(x)[1], be4(x)[2], be4(x)[3]) == x,
{
    assert((((x >> 24u32) as u8) as u32) * 0x1000000 + (((x >> 16u32) as u8) as u32) * 0x10000 + (((
    x >> 8u32) as u8) as u32) * 0x100 + ((x as u8) as u32) == x) by (bit_vector);
}

proof fn lemma_encode_sigs_len(ss: Seq<SigView>)
    requires
        forall|i: int| 0 <= i < ss.len() ==> sig_wf(#[trigger] ss[i]),
    ensures
        encode_sigs(ss).len() == 66 * ss.len(),
    decreases ss.len(),
{
    if ss.len() > 0 {
        assert(sig_wf(ss[0]));
        assert(forall|i: int| 0 <= i < ss.drop_first().len() ==> sig_wf(
            #[trigger] ss.drop_first()[i],
        ));
        lemma_encode_sigs_len(ss.drop_first());
    }
}

proof fn lemma_encode_keys_len(ks: Seq<Seq<u8>>)
    requires
        forall|i: int| 0 <= i < ks.len() ==> (#[trigger] ks[i]).len() == 20,
    ensures
        encode_keys(ks).len() == 20 * ks.len(),
    decreases ks.len(),
{
    if ks.len() > 0 {
        assert(ks[0].len() == 20);
        assert(forall|i: int| 0 <= i < ks.drop_first().len() ==> (#[trigger] ks.drop_first()[
        i]).len() == 20);
        lemma_encode_keys_len(ks.drop_first());
    }
}

proof fn lemma_encode_sigs_index(ss: Seq<SigView>, i: int)
    requires
        forall|j: int| 0 <= j < ss.len() ==> sig_wf(#[trigger] ss[j]),
        0 <= i < ss.len(),
    ensures
        encode_sigs(ss).subrange(66 * i, 66 * i + 66) == encode_sig(ss[i]),
    decreases i,
{
    lemma_encode_sigs_len(ss);
    assert(sig_wf(ss[0]));
    if i == 0 {
        assert(encode_sigs(ss).subrange(0, 66) =~= encode_sig(ss[0]));
    } else {
        let tail = ss.drop_first();
        assert(forall|j: int| 0 <= j < tail.len() ==> sig_wf(#[trigger] tail[j]));
        lemma_encode_sigs_index(tail, i - 1);
        lemma_encode_sigs_len(tail);
        assert(tail[i - 1] == ss[i]);
        assert(encode_sigs(ss).subrange(66 * i, 66 * i + 66) =~= encode_sigs(tail).subrange(
            66 * (i - 1),
            66 * (i - 1) + 66,
        ));
    }
}

proof fn lemma_encode_keys_index(ks: Seq<Seq<u8>>, i: int)
    requires
        forall|j: int| 0 <= j < ks.len() ==> (#[trigger] ks[j]).len() == 20,
        0 <= i < ks.len(),
    ensures
        encode_keys(ks).subrange(20 * i, 20 * i + 20) == ks[i],
    decreases i,
{
    lemma_encode_keys_len(ks);
    assert(ks[0].len() == 20);
    if i == 0 {
        assert(encode_keys(ks).subrange(0, 20) =~= ks[0]);
    } else {
        let tail = ks.drop_first();
        assert(forall|j: int| 0 <= j < tail.len() ==> (#[trigger] tail[j]).len() == 20);
        lemma_encode_keys_index(tail, i - 1);
        lemma_encode_keys_len(tail);
        assert(tail[i - 1] == ks[i]);
        assert(encode_keys(ks).subrange(20 * i, 20 * i + 20) =~= encode_keys(tail).subrange(
            20 * (i - 1),
            20 * (i - 1) + 20,
        ));
    }
}

/// Decoding inverts encoding: the parser accepts exactly the encoding of
/// every well-formed VAA and hands the same message back.
pub proof fn lemma_encode_parse_round_trip(v: VAAView)
    requires
        vaa_wf(v),
    ensures
        parse_vaa(encode_vaa(v)) == Some(v),
{
    let b = encode_vaa(v);
    let ss = v.signatures;
    let n = ss.len() as int;
    let body = encode_body(v);
    lemma_encode_sigs_len(ss);
    let head = seq![v.version] + be4(v.guardian_set_index) + seq![ss.len() as u8];
    assert(b =~= head + encode_sigs(ss) + body);
    assert(head.len() == 6);
    let boff = 6 + 66 * n;
    assert(b.len() == boff + body.len());
    assert(b[0] == v.version);
    assert(b[5] == ss.len() as u8);
    assert(b[5] as int == n);
    assert(b[1] == be4(v.guardian_set_index)[0] && b[2] == be4(v.guardian_set_index)[1] && b[3]
        == be4(v.guardian_set_index)[2] && b[4] == be4(v.guardian_set_index)[3]);
    lemma_be4_round_trip(v.guardian_set_index);
    assert(u32_of_be(b[1], b[2], b[3], b[4]) == v.guardian_set_index);
    // the signature block decodes element by element
    assert forall|i: int| 0 <= i < n implies parse_sig(b, 6 + 66 * i) == ss[i] by {
        lemma_encode_sigs_index(ss, i);
        let es = encode_sigs(ss).subrange(66 * i, 66 * i + 66);
        assert(sig_wf(ss[i]));
        assert(b[6 + 66 * i] == es[0]);
        assert(b[6 + 66 * i + 65] == es[65]);
        assert(b.subrange(6 + 66 * i + 1, 6 + 66 * i + 65) =~= es.subrange(1, 65));
        assert(es[0] == ss[i].index);
        assert(es[65] == ss[i].recovery_id);
        assert(es.subrange(1, 65) =~= ss[i].signature);
        assert(parse_sig(b, 6 + 66 * i) =~~= ss[i]);
    }
    assert(parse_sigs(b, 6, ss.len()) =~= ss);
    // the body decodes: timestamp, action, then the payload's fields
    assert(body =~= be4(v.timestamp) + encode_payload(v.payload));
    assert(b[boff] == be4(v.timestamp)[0] && b[boff + 1] == be4(v.timestamp)[1] && b[boff + 2]
        == be4(v.timestamp)[2] && b[boff + 3] == be4(v.timestamp)[3]);
    lemma_be4_round_trip(v.timestamp);
    assert(u32_of_be(b[boff], b[boff + 1], b[boff + 2], b[boff + 3]) == v.timestamp);
    let poff = boff + 5;
    match v.payload {
        BodyView::UpdateGuardianSet(u) => {
            let ks = u.new_keys;
            let k = ks.len() as int;
            lemma_encode_keys_len(ks);
            let pl = encode_payload(v.payload);
            assert(pl =~= seq![VAA_ACTION_UPDATE_GUARDIAN_SET] + be4(u.new_index) + seq![
                ks.len() as u8,
            ] + encode_keys(ks));
            assert(b[boff + 4] == pl[0]);
            assert(pl[0] == VAA_ACTION_UPDATE_GUARDIAN_SET);
            assert(b.len() == poff + 5 + 20 * k);
            assert(b[poff] == pl[1] && b[poff + 1] == pl[2] && b[poff + 2] == pl[3] && b[poff + 3]
                == pl[4]);
            assert(pl[1] == be4(u.new_index)[0] && pl[2] == be4(u.new_index)[1] && pl[3] == be4(
                u.new_index,
            )[2] && pl[4] == be4(u.new_index)[3]);
            lemma_be4_round_trip(u.new_index);
            assert(b[poff + 4] == pl[5]);
            assert(pl[5] == ks.len() as u8);
            assert(b[poff + 4] as int == k);
            assert forall|i: int| 0 <= i < k implies b.subrange(
                poff + 5 + 20 * i,
                poff + 5 + 20 * i + 20,
            ) == ks[i] by {
                lemma_encode_keys_index(ks, i);
                assert(b.subrange(poff + 5 + 20 * i, poff + 5 + 20 * i + 20) =~= encode_keys(
                    ks,
                ).subrange(20 * i, 20 * i + 20));
            }
            assert(parse_keys(b, poff + 5, ks.len()) =~= ks);
            let parsed = parse_update(b, poff).unwrap();
            assert(parsed =~~= u);
            assert(parse_vaa(b).unwrap() =~~= v);
        },
        BodyView::Transfer(t) => {
            let pl = encode_payload(v.payload);
            assert(pl =~= seq![VAA_ACTION_TRANSFER] + be4(t.nonce) + seq![t.source_chain] + seq![
                t.target_chain,
            ] + t.source_address + t.target_address + seq![t.asset.chain] + t.asset.address
                + t.amount);
            assert(pl.len() == 136);
            assert(b[boff + 4] == pl[0]);
            assert(pl[0] == VAA_ACTION_TRANSFER);
            assert(b.len() == poff + 135);
            assert(b[poff] == pl[1] && b[poff + 1] == pl[2] && b[poff + 2] == pl[3] && b[poff + 3]
                == pl[4]);
            assert(pl[1] == be4(t.nonce)[0] && pl[2] == be4(t.nonce)[1] && pl[3] == be4(t.nonce)[2]
                && pl[4] == be4(t.nonce)[3]);
            lemma_be4_round_trip(t.nonce);
            assert(b[poff + 4] == pl[5] && pl[5] == t.source_chain);
            assert(b[poff + 5] == pl[6] && pl[6] == t.target_chain);
            assert(b.subrange(poff + 6, poff + 38) =~= pl.subrange(7, 39));
            assert(pl.subrange(7, 39) =~= t.source_address);
            assert(b.subrange(poff + 38, poff + 70) =~= pl.subrange(39, 71));
            assert(pl.subrange(39, 71) =~= t.target_address);
            assert(b[poff + 70] == pl[71] && pl[71] == t.asset.chain);
            assert(b.subrange(poff + 71, poff + 103) =~= pl.subrange(72, 104));
            assert(pl.subrange(72, 104) =~= t.asset.address);
            assert(b.subrange(poff + 103, poff + 135) =~= pl.subrange(104, 136));
            assert(pl.subrange(104, 136) =~= t.amount);
            let parsed = parse_transfer(b, poff).unwrap();
            assert(parsed =~~= t);
            assert(parse_vaa(b).unwrap() =~~= v);
        },
    }
}

} // verus!
