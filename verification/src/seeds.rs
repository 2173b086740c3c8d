use vstd::prelude::*;

use crate::bytes::{be4, clone_bytes, u32_to_be};
use crate::derive::{
    derive_key, derive_spec, seeds_wf, TAG_BRIDGE, TAG_CLAIM, TAG_CUSTODY, TAG_GUARDIAN_SET,
    TAG_TRANSFER, TAG_WRAPPED_ASSET, TAG_WRAPPED_META,
};

verus! {

pub open spec fn bridge_seeds_spec() -> Seq<Seq<u8>> {
    seq![seq![TAG_BRIDGE]]
}

pub open spec fn guardian_set_seeds_spec(bridge: Seq<u8>, index: u32) -> Seq<Seq<u8>> {
    seq![seq![TAG_GUARDIAN_SET], bridge, be4(index)]
}

pub open spec fn claim_seeds_spec(bridge: Seq<u8>, hash: Seq<u8>) -> Seq<Seq<u8>> {
    seq![seq![TAG_CLAIM], bridge, hash]
}

pub open spec fn transfer_seeds_spec(
    bridge: Seq<u8>,
    asset_chain: u8,
    asset_address: Seq<u8>,
    target_chain: u8,
    target_address: Seq<u8>,
    source_address: Seq<u8>,
    nonce: u32,
) -> Seq<Seq<u8>> {
    seq![
        seq![TAG_TRANSFER],
        bridge,
        seq![asset_chain],
        asset_address,
        seq![target_chain],
        target_address,
        source_address,
        be4(nonce),
    ]
}

pub open spec fn wrapped_asset_seeds_spec(
    bridge: Seq<u8>,
    asset_chain: u8,
    asset_address: Seq<u8>,
) -> Seq<Seq<u8>> {
    seq![seq![TAG_WRAPPED_ASSET], bridge, seq![asset_chain], asset_address]
}

pub open spec fn wrapped_meta_seeds_spec(bridge: Seq<u8>, mint: Seq<u8>) -> Seq<Seq<u8>> {
    seq![seq![TAG_WRAPPED_META], bridge, mint]
}

pub open spec fn custody_seeds_spec(bridge: Seq<u8>, mint: Seq<u8>) -> Seq<Seq<u8>> {
    seq![seq![TAG_CUSTODY], bridge, mint]
}

/// Identifier bound to the bridge singleton, also the bridge's own
/// derived authority over token accounts.
pub open spec fn bridge_id_spec(program_id: Seq<u8>) -> Seq<u8> {
    derive_spec(program_id, bridge_seeds_spec())
}

pub open spec fn guardian_set_id_spec(program_id: Seq<u8>, bridge: Seq<u8>, index: u32) -> Seq<
    u8,
> {
    derive_spec(program_id, guardian_set_seeds_spec(bridge, index))
}

pub open spec fn claim_id_spec(program_id: Seq<u8>, bridge: Seq<u8>, hash: Seq<u8>) -> Seq<u8> {
    derive_spec(program_id, claim_seeds_spec(bridge, hash))
}

pub open spec fn transfer_id_spec(
    program_id: Seq<u8>,
    bridge: Seq<u8>,
    asset_chain: u8,
    asset_address: Seq<u8>,
    target_chain: u8,
    target_address: Seq<u8>,
    source_address: Seq<u8>,
    nonce: u32,
) -> Seq<u8> {
    derive_spec(
        program_id,
        transfer_seeds_spec(
            bridge,
            asset_chain,
            asset_address,
            target_chain,
            target_address,
            source_address,
            nonce,
        ),
    )
}

pub open spec fn wrapped_asset_id_spec(
    program_id: Seq<u8>,
    bridge: Seq<u8>,
    asset_chain: u8,
    asset_address: Seq<u8>,
) -> Seq<u8> {
    derive_spec(program_id, wrapped_asset_seeds_spec(bridge, asset_chain, asset_address))
}

pub open spec fn wrapped_meta_id_spec(program_id: Seq<u8>, bridge: Seq<u8>, mint: Seq<u8>) -> Seq<
    u8,
> {
    derive_spec(program_id, wrapped_meta_seeds_spec(bridge, mint))
}

pub open spec fn custody_id_spec(program_id: Seq<u8>, bridge: Seq<u8>, mint: Seq<u8>) -> Seq<u8> {
    derive_spec(program_id, custody_seeds_spec(bridge, mint))
}

fn tag_seed(tag: u8) -> (r: Vec<u8>)
    ensures
        r@ == seq![tag],
{
    let mut r: Vec<u8> = Vec::new();
    r.push(tag);
    proof {
        assert(r@ =~= seq![tag]);
    }
    r
}

pub fn derive_bridge_seeds() -> (r: Vec<Vec<u8>>)
    ensures
        r.deep_view() == bridge_seeds_spec(),
        seeds_wf(r.deep_view()),
{
    let mut r: Vec<Vec<u8>> = Vec::new();
    r.push(tag_seed(TAG_BRIDGE));
    proof {
        assert(r.deep_view() =~~= bridge_seeds_spec());
    }
    r
}

pub fn derive_guardian_set_seeds(bridge: &Vec<u8>, index: u32) -> (r: Vec<Vec<u8>>)
    requires
        bridge@.len() <= u32::MAX,
    ensures
        r.deep_view() == guardian_set_seeds_spec(bridge@, index),
        seeds_wf(r.deep_view()),
{
    let mut r: Vec<Vec<u8>> = Vec::new();
    r.push(tag_seed(TAG_GUARDIAN_SET));
    r.push(clone_bytes(bridge));
    r.push(u32_to_be(index));
    proof {
        assert(r.deep_view() =~~= guardian_set_seeds_spec(bridge@, index));
    }
    r
}

pub fn derive_claim_seeds(bridge: &Vec<u8>, hash: &Vec<u8>) -> (r: Vec<Vec<u8>>)
    requires
        bridge@.len() <= u32::MAX,
        hash@.len() <= u32::MAX,
    ensures
        r.deep_view() == claim_seeds_spec(bridge@, hash@),
        seeds_wf(r.deep_view()),
{
    let mut r: Vec<Vec<u8>> = Vec::new();
    r.push(tag_seed(TAG_CLAIM));
    r.push(clone_bytes(bridge));
    r.push(clone_bytes(hash));
    proof {
        assert(r.deep_view() =~~= claim_seeds_spec(bridge@, hash@));
    }
    r
}

pub fn derive_transfer_id_seeds(
    bridge: &Vec<u8>,
    asset_chain: u8,
    asset_address: &Vec<u8>,
    target_chain: u8,
    target_address: &Vec<u8>,
    source_address: &Vec<u8>,
    nonce: u32,
) -> (r: Vec<Vec<u8>>)
    requires
        bridge@.len() <= u32::MAX,
        asset_address@.len() <= u32::MAX,
        target_address@.len() <= u32::MAX,
        source_address@.len() <= u32::MAX,
    ensures
        r.deep_view() == transfer_seeds_spec(
            bridge@,
            asset_chain,
            asset_address@,
            target_chain,
            target_address@,
            source_address@,
            nonce,
        ),
        seeds_wf(r.deep_view()),
{
    let mut r: Vec<Vec<u8>> = Vec::new();
    r.push(tag_seed(TAG_TRANSFER));
    r.push(clone_bytes(bridge));
    r.push(tag_seed(asset_chain));
    r.push(clone_bytes(asset_address));
    r.push(tag_seed(target_chain));
    r.push(clone_bytes(target_address));
    r.push(clone_bytes(source_address));
    r.push(u32_to_be(nonce));
    proof {
        assert(r.deep_view() =~~= transfer_seeds_spec(
            bridge@,
            asset_chain,
            asset_address@,
            target_chain,
            target_address@,
            source_address@,
            nonce,
        ));
    }
    r
}

pub fn derive_wrapped_asset_seeds(bridge: &Vec<u8>, asset_chain: u8, asset_address: &Vec<u8>) -> (r:
    Vec<Vec<u8>>)
    requires
        bridge@.len() <= u32::MAX,
        asset_address@.len() <= u32::MAX,
    ensures
        r.deep_view() == wrapped_asset_seeds_spec(bridge@, asset_chain, asset_address@),
        seeds_wf(r.deep_view()),
{
    let mut r: Vec<Vec<u8>> = Vec::new();
    r.push(tag_seed(TAG_WRAPPED_ASSET));
    r.push(clone_bytes(bridge));
    r.push(tag_seed(asset_chain));
    r.push(clone_bytes(asset_address));
    proof {
        assert(r.deep_view() =~~= wrapped_asset_seeds_spec(bridge@, asset_chain, asset_address@));
    }
    r
}

pub fn derive_wrapped_meta_seeds(bridge: &Vec<u8>, mint: &Vec<u8>) -> (r: Vec<Vec<u8>>)
    requires
        bridge@.len() <= u32::MAX,
        mint@.len() <= u32::MAX,
    ensures
        r.deep_view() == wrapped_meta_seeds_spec(bridge@, mint@),
        seeds_wf(r.deep_view()),
{
    let mut r: Vec<Vec<u8>> = Vec::new();
    r.push(tag_seed(TAG_WRAPPED_META));
    r.push(clone_bytes(bridge));
    r.push(clone_bytes(mint));
    proof {
        assert(r.deep_view() =~~= wrapped_meta_seeds_spec(bridge@, mint@));
    }
    r
}

pub fn derive_custody_seeds(bridge: &Vec<u8>, mint: &Vec<u8>) -> (r: Vec<Vec<u8>>)
    requires
        bridge@.len() <= u32::MAX,
        mint@.len() <= u32::MAX,
    ensures
        r.deep_view() == custody_seeds_spec(bridge@, mint@),
        seeds_wf(r.deep_view()),
{
    let mut r: Vec<Vec<u8>> = Vec::new();
    r.push(tag_seed(TAG_CUSTODY));
    r.push(clone_bytes(bridge));
    r.push(clone_bytes(mint));
    proof {
        assert(r.deep_view() =~~= custody_seeds_spec(bridge@, mint@));
    }
    r
}

/// The bridge's derived authority identifier under a program identity.
pub fn derive_bridge_id(program_id: &Vec<u8>) -> (r: Vec<u8>)
    requires
        program_id@.len() == 32,
    ensures
        r@ == bridge_id_spec(program_id@),
        r@.len() == 32,
{
    let seeds = derive_bridge_seeds();
    derive_key(program_id, &seeds)
}

pub fn derive_guardian_set_id(program_id: &Vec<u8>, bridge: &Vec<u8>, index: u32) -> (r: Vec<u8>)
    requires
        program_id@.len() == 32,
        bridge@.len() <= u32::MAX,
    ensures
        r@ == guardian_set_id_spec(program_id@, bridge@, index),
        r@.len() == 32,
{
    let seeds = derive_guardian_set_seeds(bridge, index);
    derive_key(program_id, &seeds)
}

pub fn derive_custody_id(program_id: &Vec<u8>, bridge: &Vec<u8>, mint: &Vec<u8>) -> (r: Vec<u8>)
    requires
        program_id@.len() == 32,
        bridge@.len() <= u32::MAX,
        mint@.len() <= u32::MAX,
    ensures
        r@ == custody_id_spec(program_id@, bridge@, mint@),
        r@.len() == 32,
{
    let seeds = derive_custody_seeds(bridge, mint);
    derive_key(program_id, &seeds)
}

pub fn derive_wrapped_asset_id(
    program_id: &Vec<u8>,
    bridge: &Vec<u8>,
    asset_chain: u8,
    asset_address: &Vec<u8>,
) -> (r: Vec<u8>)
    requires
        program_id@.len() == 32,
        bridge@.len() <= u32::MAX,
        asset_address@.len() <= u32::MAX,
    ensures
        r@ == wrapped_asset_id_spec(program_id@, bridge@, asset_chain, asset_address@),
        r@.len() == 32,
{
    let seeds = derive_wrapped_asset_seeds(bridge, asset_chain, asset_address);
    derive_key(program_id, &seeds)
}

pub fn derive_wrapped_meta_id(program_id: &Vec<u8>, bridge: &Vec<u8>, mint: &Vec<u8>) -> (r: Vec<
    u8,
>)
    requires
        program_id@.len() == 32,
        bridge@.len() <= u32::MAX,
        mint@.len() <= u32::MAX,
    ensures
        r@ == wrapped_meta_id_spec(program_id@, bridge@, mint@),
        r@.len() == 32,
{
    let seeds = derive_wrapped_meta_seeds(bridge, mint);
    derive_key(program_id, &seeds)
}

pub fn derive_transfer_id(
    program_id: &Vec<u8>,
    bridge: &Vec<u8>,
    asset_chain: u8,
    asset_address: &Vec<u8>,
    target_chain: u8,
    target_address: &Vec<u8>,
    source_address: &Vec<u8>,
    nonce: u32,
) -> (r: Vec<u8>)
    requires
        program_id@.len() == 32,
        bridge@.len() <= u32::MAX,
        asset_address@.len() <= u32::MAX,
        target_address@.len() <= u32::MAX,
        source_address@.len() <= u32::MAX,
    ensures
        r@ == transfer_id_spec(
            program_id@,
            bridge@,
            asset_chain,
            asset_address@,
            target_chain,
            target_address@,
            source_address@,
            nonce,
        ),
        r@.len() == 32,
{
    let seeds = derive_transfer_id_seeds(
        bridge,
        asset_chain,
        asset_address,
        target_chain,
        target_address,
        source_address,
        nonce,
    );
    derive_key(program_id, &seeds)
}

} // verus!
