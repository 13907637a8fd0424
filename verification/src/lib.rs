//! An authoritative ledger of video-authenticity attestations. Registered
//! officials each have an authority that may register videos and a fixed
//! committee of three endorsers that vote on them; a 2-of-3 rule derives each
//! video's status from its votes. Records are append-only and carry a fixed
//! binary layout under deterministically derived storage keys.

pub mod bytes;
pub mod codec;
pub mod errors;
pub mod instructions;
pub mod key;
pub mod ledger;
pub mod pda;
pub mod state;

use vstd::prelude::*;

use crate::errors::TruChainError;
use crate::instructions::endorse_video::{
    spec_endorse_video_check, spec_endorsed_video, EndorseVideo,
};
use crate::instructions::register_official::{
    spec_new_official, spec_register_official_check, RegisterOfficial,
};
use crate::instructions::register_video::{
    spec_new_video, spec_register_video_check, RegisterVideo,
};
use crate::key::{Pubkey, KEY_LEN};
use crate::ledger::{Ledger, OfficialEntryView, VideoEntryView};
use crate::pda::{spec_official_key, spec_video_key};
use crate::state::video::HASH_LEN;

verus! {

/// Registers an official: on acceptance the ledger gains one Official record
/// under the key derived from `official_id`; on rejection it is unchanged.
pub fn register_official(
    ledger: &mut Ledger,
    accounts: &RegisterOfficial,
    official_id: u64,
    name: &Vec<u8>,
    authority: Pubkey,
    endorsers: Vec<Pubkey>,
) -> (r: Result<(), TruChainError>)
    requires
        old(ledger)@.wf(),
        authority@.len() == KEY_LEN,
        forall|i: int| 0 <= i < endorsers@.len() ==> (#[trigger] endorsers@[i])@.len() == KEY_LEN,
    ensures
        final(ledger)@.wf(),
        r == spec_register_official_check(
            old(ledger)@,
            official_id,
            name@,
            endorsers@.map_values(|k: Pubkey| k@),
        ),
        r is Err ==> final(ledger)@ == old(ledger)@,
        r is Ok ==> final(ledger)@.videos == old(ledger)@.videos && final(ledger)@.officials
            == old(ledger)@.officials.push(
            (OfficialEntryView {
                key: spec_official_key(official_id),
                record: spec_new_official(
                    official_id,
                    name@,
                    authority@,
                    endorsers@.map_values(|k: Pubkey| k@),
                ),
            }),
        ),
{
    instructions::register_official::handler(
        ledger,
        accounts,
        official_id,
        name,
        authority,
        endorsers,
    )
}

/// Registers a video: on acceptance the ledger gains one Video record under
/// the key derived from the owning official and the content hash; on
/// rejection it is unchanged. `now` is the clock collaborator's reading.
pub fn register_video(
    ledger: &mut Ledger,
    accounts: &RegisterVideo,
    video_hash: &Vec<u8>,
    ipfs_cid: &Vec<u8>,
    now: i64,
) -> (r: Result<(), TruChainError>)
    requires
        old(ledger)@.wf(),
        accounts.official.wf(),
        video_hash@.len() == HASH_LEN,
    ensures
        final(ledger)@.wf(),
        r == spec_register_video_check(
            old(ledger)@,
            accounts.official@,
            accounts.authority@,
            video_hash@,
            ipfs_cid@,
        ),
        r is Err ==> final(ledger)@ == old(ledger)@,
        r is Ok ==> final(ledger)@.officials == old(ledger)@.officials && final(ledger)@.videos
            == old(ledger)@.videos.push(
            (VideoEntryView {
                key: spec_video_key(accounts.official@, video_hash@),
                record: spec_new_video(accounts.official@, video_hash@, ipfs_cid@, now),
            }),
        ),
{
    instructions::register_video::handler(ledger, accounts, video_hash, ipfs_cid, now)
}

/// Endorses a video: on acceptance one vote is appended to the addressed
/// video and its status recomputed; on rejection the ledger is unchanged.
pub fn endorse_video(ledger: &mut Ledger, accounts: &EndorseVideo, is_authentic: bool) -> (r:
    Result<(), TruChainError>)
    requires
        old(ledger)@.wf(),
        accounts.endorser.wf(),
    ensures
        final(ledger)@.wf(),
        r == spec_endorse_video_check(
            old(ledger)@,
            accounts.official@,
            accounts.video@,
            accounts.endorser@,
        ),
        r is Err ==> final(ledger)@ == old(ledger)@,
        r is Ok ==> final(ledger)@.officials == old(ledger)@.officials && final(ledger)@.videos
            == old(ledger)@.videos.update(
            old(ledger)@.video_idx(accounts.video@),
            (VideoEntryView {
                key: accounts.video@,
                record: spec_endorsed_video(
                    old(ledger)@.video_at(accounts.video@),
                    accounts.endorser@,
                    is_authentic,
                ),
            }),
        ),
{
    instructions::endorse_video::handler(ledger, accounts, is_authentic)
}

} // verus!
