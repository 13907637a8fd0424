//! Registering a video under an official: checks that the signer is the
//! official's authority and that the content identifier is acceptable,
//! derives the record key from the owner and the content hash, and creates
//! the record if the key is free.

use vstd::prelude::*;

use crate::bytes::{copy_bytes, push_zero_bytes, zero_pad};
use crate::errors::TruChainError;
use crate::key::Pubkey;
use crate::ledger::{
    lemma_official_at, lemma_official_view_preserved, Ledger, LedgerView, VideoEntry,
    VideoEntryView,
};
use crate::pda::{derive_video_key, spec_video_bump, spec_video_key};
use crate::state::video::{Video, VideoStatus, VideoView, VoteView, CID_LEN, HASH_LEN};

verus! {

/// The account keys a RegisterVideo operation names: the Official record the
/// video is registered under, and the signer, who must be that official's
/// authority and pays for the allocation.
pub struct RegisterVideo {
    pub official: Pubkey,
    pub authority: Pubkey,
}

/// Which outcome the operation has on this ledger and these arguments: the
/// first failing predicate, in order, or acceptance.
pub open spec fn spec_register_video_check(
    l: LedgerView,
    official_key: Seq<u8>,
    signer: Seq<u8>,
    video_hash: Seq<u8>,
    ipfs_cid: Seq<u8>,
) -> Result<(), TruChainError> {
    if !(l.has_official_key(official_key) && l.official_at(official_key).authority == signer) {
        Err(TruChainError::UnauthorizedOfficial)
    } else if !(1 <= ipfs_cid.len() <= CID_LEN) {
        Err(TruChainError::InvalidIpfsCid)
    } else if l.has_video_key(spec_video_key(official_key, video_hash)) {
        Err(TruChainError::VideoAlreadyExists)
    } else {
        Ok(())
    }
}

/// The record an accepted operation creates: no votes yet, Unverified, and
/// the clock reading recorded verbatim.
pub open spec fn spec_new_video(
    official_key: Seq<u8>,
    video_hash: Seq<u8>,
    ipfs_cid: Seq<u8>,
    now: i64,
) -> VideoView {
    VideoView {
        official: official_key,
        video_hash,
        ipfs_cid: zero_pad(ipfs_cid, CID_LEN as nat),
        timestamp: now,
        votes: Seq::<VoteView>::empty(),
        status: VideoStatus::Unverified,
        bump: spec_video_bump(official_key, video_hash),
    }
}

/// Registering the same (official, content hash) pair twice cannot succeed:
/// once an accepted registration has put a record under the pair's derived
/// key, a second RegisterVideo for that pair is rejected, whatever its
/// signer, identifier or timestamp.
pub proof fn lemma_register_video_unique(
    l0: LedgerView,
    l1: LedgerView,
    official_key: Seq<u8>,
    video_hash: Seq<u8>,
    ipfs_cid1: Seq<u8>,
    now1: i64,
    signer2: Seq<u8>,
    ipfs_cid2: Seq<u8>,
)
    requires
        l1.videos == l0.videos.push(
            VideoEntryView {
                key: spec_video_key(official_key, video_hash),
                record: spec_new_video(official_key, video_hash, ipfs_cid1, now1),
            },
        ),
    ensures
        !(spec_register_video_check(l1, official_key, signer2, video_hash, ipfs_cid2) is Ok),
{
    let k = spec_video_key(official_key, video_hash);
    assert(l1.videos[l0.videos.len() as int].key == k);
    assert(l1.has_video_key(k));
}

/// Registers a video: on acceptance the ledger gains exactly one Video
/// record, stored under the key derived from the owning official and the
/// content hash; on any rejection the ledger is unchanged. `now` is the
/// clock collaborator's reading, recorded verbatim.
pub fn handler(
    ledger: &mut Ledger,
    accounts: &RegisterVideo,
    video_hash: &Vec<u8>,
    ipfs_cid: &Vec<u8>,
    now: i64,
) -> (r: Result<(), TruChainError>)
    requires
        old(ledger)@.wf(),
        accounts.official.wf(),
        video_hash@.len() == HASH_LEN,
    ensures
        final(ledger)@.wf(),
        r == spec_register_video_check(
            old(ledger)@,
            accounts.official@,
            accounts.authority@,
            video_hash@,
            ipfs_cid@,
        ),
        r is Err ==> final(ledger)@ == old(ledger)@,
        r is Ok ==> final(ledger)@.officials == old(ledger)@.officials && final(ledger)@.videos
            == old(ledger)@.videos.push(
            (VideoEntryView {
                key: spec_video_key(accounts.official@, video_hash@),
                record: spec_new_video(accounts.official@, video_hash@, ipfs_cid@, now),
            }),
        ),
{
    let oi = match ledger.find_official(&accounts.official) {
        None => {
            return Err(TruChainError::UnauthorizedOfficial);
        },
        Some(i) => i,
    };
    proof {
        lemma_official_at(ledger@, oi as int);
    }
    if !ledger.officials[oi].record.authority.eq_key(&accounts.authority) {
        return Err(TruChainError::UnauthorizedOfficial);
    }

    if ipfs_cid.len() < 1 || ipfs_cid.len() > CID_LEN {
        return Err(TruChainError::InvalidIpfsCid);
    }

    let (key, bump) = derive_video_key(&accounts.official, video_hash);
    match ledger.find_video(&key) {
        Some(_) => {
            return Err(TruChainError::VideoAlreadyExists);
        },
        None => {},
    }

    let mut padded = copy_bytes(ipfs_cid);
    push_zero_bytes(&mut padded, CID_LEN - ipfs_cid.len());
    assert(padded@ == zero_pad(ipfs_cid@, CID_LEN as nat));

    let record = Video {
        official: accounts.official.dup(),
        video_hash: copy_bytes(video_hash),
        ipfs_cid: padded,
        timestamp: now,
        votes: Vec::new(),
        status: VideoStatus::Unverified,
        bump,
    };
    let entry = VideoEntry { key, record };
    let ghost e = entry@;
    let ghost l0 = ledger@;
    ledger.videos.push(entry);

    proof {
        let l1 = ledger@;
        assert(l1.videos =~= l0.videos.push(e));
        assert(l1.officials =~= l0.officials);
        assert(e.record.votes =~= Seq::<VoteView>::empty());
        assert(e.record =~= spec_new_video(accounts.official@, video_hash@, ipfs_cid@, now));

        // The new record is well formed: empty votes give Unverified.
        assert(e.record.status_ok());
        assert(e.wf());

        // No stored video held the new key, so keys stay distinct.
        assert(forall|j: int| 0 <= j < l0.videos.len() ==> l0.videos[j].key != e.key);
        assert(forall|i2: int, j2: int|
            0 <= i2 < j2 < l1.videos.len() ==> (#[trigger] l1.videos[i2]).key != (
            #[trigger] l1.videos[j2]).key);

        // Every stored video, the new one included, still sees its owner.
        assert(l0.officials.is_prefix_of(l1.officials));
        assert forall|v: int| 0 <= v < l1.videos.len() implies l1.has_official_key(
            (#[trigger] l1.videos[v]).record.official,
        ) && l1.videos[v].record.votes_ok(
            l1.official_at(l1.videos[v].record.official),
        ) by {
            let off = l1.videos[v].record.official;
            if v < l0.videos.len() {
                assert(l0.has_official_key(off));
            } else {
                assert(off == accounts.official@);
                assert(l0.officials[oi as int].key == off);
                assert(l0.has_official_key(off));
            }
            lemma_official_view_preserved(l0, l1, off);
        }
        assert(l1.wf());
    }
    Ok(())
}

} // verus!
