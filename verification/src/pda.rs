//! Deterministic record-key derivation. The host SDK maps a tuple of byte
//! seeds to a unique 32-byte record key plus an 8-bit bump; the core treats
//! the map as opaque, supplies the seed tuples and stores the bump.

use vstd::prelude::*;

use crate::bytes::{copy_bytes, push_u64_le, spec_u64_le};
use crate::key::Pubkey;

verus! {

/// This program's own 32-byte address, under which all record keys are
/// derived.
pub open spec fn spec_program_id() -> Seq<u8> {
    seq![
        212u8, 12, 221, 223, 214, 25, 3, 234, 250, 62, 3, 138, 159, 5, 242, 47, 219, 190, 29, 13,
        182, 68, 84, 109, 114, 70, 9, 204, 196, 139, 214, 200,
    ]
}

/// The derived key and bump that the host SDK returns for a program id and a
/// seed tuple.
pub uninterp spec fn pda_of(program_id: Seq<u8>, seeds: Seq<Seq<u8>>) -> (Seq<u8>, u8);

/// Relies on `Pubkey::find_program_address` of the Solana SDK, reached
/// through anchor's re-export: for a given program id the derived address and
/// bump seed are a function of the seed tuple alone, and the address is 32
/// bytes. The bounds on the seed count and widths are the SDK's own; within
/// them the search over bump seeds is assumed to find an address, as the host
/// platform assumes.
#[verifier::external_body]
fn find_pda(program_id: &Vec<u8>, seeds: &Vec<Vec<u8>>) -> (r: (Pubkey, u8))
    requires
        program_id@.len() == 32,
        seeds@.len() < 16,
        forall|i: int| 0 <= i < seeds@.len() ==> (#[trigger] seeds@[i])@.len() <= 32,
    ensures
        r.0@ == pda_of(program_id@, seeds@.map_values(|s: Vec<u8>| s@)).0,
        r.1 == pda_of(program_id@, seeds@.map_values(|s: Vec<u8>| s@)).1,
        r.0@.len() == 32,
{
    let seed_refs: Vec<&[u8]> = seeds.iter().map(|s| s.as_slice()).collect();
    let pid = anchor_lang::solana_program::pubkey::Pubkey::new_from_array(
        program_id.as_slice().try_into().unwrap(),
    );
    let (pk, bump) = anchor_lang::solana_program::pubkey::Pubkey::find_program_address(
        &seed_refs,
        &pid,
    );
    (Pubkey { bytes: pk.to_bytes().to_vec() }, bump)
}

/// The seed tag of Official records: the ASCII bytes of "official".
pub open spec fn spec_official_tag() -> Seq<u8> {
    seq![111u8, 102, 102, 105, 99, 105, 97, 108]
}

/// The seed tag of Video records: the ASCII bytes of "video".
pub open spec fn spec_video_tag() -> Seq<u8> {
    seq![118u8, 105, 100, 101, 111]
}

/// The seed tuple of an Official record: the tag and the little-endian id.
pub open spec fn spec_official_seeds(official_id: u64) -> Seq<Seq<u8>> {
    seq![spec_official_tag(), spec_u64_le(official_id)]
}

/// The seed tuple of a Video record: the tag, the owning official's key and
/// the content hash.
pub open spec fn spec_video_seeds(official_key: Seq<u8>, video_hash: Seq<u8>) -> Seq<Seq<u8>> {
    seq![spec_video_tag(), official_key, video_hash]
}

/// The storage key of the Official record with this id.
pub open spec fn spec_official_key(official_id: u64) -> Seq<u8> {
    pda_of(spec_program_id(), spec_official_seeds(official_id)).0
}

/// The stored bump of the Official record with this id.
pub open spec fn spec_official_bump(official_id: u64) -> u8 {
    pda_of(spec_program_id(), spec_official_seeds(official_id)).1
}

/// The storage key of the Video record for this official and content hash.
pub open spec fn spec_video_key(official_key: Seq<u8>, video_hash: Seq<u8>) -> Seq<u8> {
    pda_of(spec_program_id(), spec_video_seeds(official_key, video_hash)).0
}

/// The stored bump of the Video record for this official and content hash.
pub open spec fn spec_video_bump(official_key: Seq<u8>, video_hash: Seq<u8>) -> u8 {
    pda_of(spec_program_id(), spec_video_seeds(official_key, video_hash)).1
}

/// This program's address as bytes.
fn program_id() -> (r: Vec<u8>)
    ensures
        r@ == spec_program_id(),
{
    let v: Vec<u8> = vec![
        212u8, 12, 221, 223, 214, 25, 3, 234, 250, 62, 3, 138, 159, 5, 242, 47, 219, 190, 29, 13,
        182, 68, 84, 109, 114, 70, 9, 204, 196, 139, 214, 200,
    ];
    assert(v@ =~= spec_program_id());
    v
}

/// Derives the storage key and bump of the Official record with this id.
pub fn derive_official_key(official_id: u64) -> (r: (Pubkey, u8))
    ensures
        r.0@ == spec_official_key(official_id),
        r.1 == spec_official_bump(official_id),
        r.0.wf(),
{
    let pid = program_id();
    let tag: Vec<u8> = vec![111u8, 102, 102, 105, 99, 105, 97, 108];
    assert(tag@ =~= spec_official_tag());
    let mut id_bytes: Vec<u8> = Vec::new();
    push_u64_le(&mut id_bytes, official_id);
    let mut seeds: Vec<Vec<u8>> = Vec::new();
    seeds.push(tag);
    seeds.push(id_bytes);
    proof {
        assert(seeds@.map_values(|s: Vec<u8>| s@) =~= spec_official_seeds(official_id));
    }
    find_pda(&pid, &seeds)
}

/// Derives the storage key and bump of the Video record for this official
/// and content hash.
pub fn derive_video_key(official_key: &Pubkey, video_hash: &Vec<u8>) -> (r: (Pubkey, u8))
    requires
        official_key.wf(),
        video_hash@.len() == 32,
    ensures
        r.0@ == spec_video_key(official_key@, video_hash@),
        r.1 == spec_video_bump(official_key@, video_hash@),
        r.0.wf(),
{
    let pid = program_id();
    let tag: Vec<u8> = vec![118u8, 105, 100, 101, 111];
    assert(tag@ =~= spec_video_tag());
    let key_bytes = copy_bytes(&official_key.bytes);
    let hash_bytes = copy_bytes(video_hash);
    let mut seeds: Vec<Vec<u8>> = Vec::new();
    seeds.push(tag);
    seeds.push(key_bytes);
    seeds.push(hash_bytes);
    proof {
        assert(seeds@.map_values(|s: Vec<u8>| s@) =~= spec_video_seeds(
            official_key@,
            video_hash@,
        ));
    }
    find_pda(&pid, &seeds)
}

} // verus!
