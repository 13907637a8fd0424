//! Endorsing a video: checks that the video belongs to the supplied
//! official, that the signer sits on that official's committee and has not
//! voted yet, appends the vote and recomputes the status.

use vstd::prelude::*;

use crate::errors::TruChainError;
use crate::key::Pubkey;
use crate::ledger::{
    lemma_official_at, lemma_official_view_preserved, lemma_video_at, Ledger, LedgerView,
    VideoEntryView,
};
use crate::state::video::{spec_has_voted, votes_distinct, VideoView, Vote, VoteView, MAX_VOTES};

verus! {

/// The account keys an EndorseVideo operation names: the owning Official
/// record, the Video record voted on, and the signing endorser.
pub struct EndorseVideo {
    pub official: Pubkey,
    pub video: Pubkey,
    pub endorser: Pubkey,
}

/// Which outcome the operation has on this ledger and these keys: the first
/// failing predicate, in order, or acceptance.
pub open spec fn spec_endorse_video_check(
    l: LedgerView,
    official_key: Seq<u8>,
    video_key: Seq<u8>,
    signer: Seq<u8>,
) -> Result<(), TruChainError> {
    if !l.has_video_key(video_key) {
        Err(TruChainError::UnauthorizedOfficial)
    } else if l.video_at(video_key).official != official_key {
        Err(TruChainError::UnauthorizedOfficial)
    } else if !l.has_official_key(official_key) {
        Err(TruChainError::UnauthorizedOfficial)
    } else if !l.official_at(official_key).is_endorser(signer) {
        Err(TruChainError::UnauthorizedEndorser)
    } else if spec_has_voted(l.video_at(video_key).votes, signer) {
        Err(TruChainError::AlreadyVoted)
    } else if l.video_at(video_key).votes.len() >= MAX_VOTES {
        Err(TruChainError::TooManyVotes)
    } else {
        Ok(())
    }
}

/// The video after an accepted vote: the vote appended and the status
/// recomputed by the Status Rule.
pub open spec fn spec_endorsed_video(v: VideoView, signer: Seq<u8>, is_authentic: bool) -> VideoView {
    (VideoView { votes: v.votes.push(VoteView { endorser: signer, is_authentic }), ..v }).recomputed()
}

/// Once a video with room for another vote is Authentic or Disputed, an
/// accepted vote — whoever casts it and however they judge — leaves the
/// status unchanged.
pub proof fn lemma_endorsed_status_monotonic(v: VideoView, signer: Seq<u8>, is_authentic: bool)
    requires
        v.votes.len() < MAX_VOTES,
        v.status_ok(),
        v.status != crate::state::video::VideoStatus::Unverified,
    ensures
        spec_endorsed_video(v, signer, is_authentic).status == v.status,
{
    crate::state::video::lemma_status_stable_under_append(
        v.votes,
        VoteView { endorser: signer, is_authentic },
    );
}

/// On a well-formed ledger the vote-capacity rejection can never fire: a
/// full video holds three distinct votes from a three-member committee, so a
/// committee member who has not voted cannot exist. The check is kept as a
/// guard on the reservation, but every rejection it could signal is caught
/// earlier as AlreadyVoted or UnauthorizedEndorser.
pub proof fn lemma_vote_capacity_never_reached(
    l: LedgerView,
    official_key: Seq<u8>,
    video_key: Seq<u8>,
    signer: Seq<u8>,
)
    requires
        l.wf(),
    ensures
        spec_endorse_video_check(l, official_key, video_key, signer) != Err::<
            (),
            TruChainError,
        >(TruChainError::TooManyVotes),
{
    let c = spec_endorse_video_check(l, official_key, video_key, signer);
    if c == Err::<(), TruChainError>(TruChainError::TooManyVotes) {
        let v = l.video_at(video_key);
        let o = l.official_at(official_key);
        let vi = l.video_idx(video_key);
        assert(0 <= vi < l.videos.len() && l.videos[vi].key == video_key);
        assert(l.videos[vi].record == v);
        assert(v.votes.len() == 3);

        let oi = l.official_idx(official_key);
        assert(0 <= oi < l.officials.len() && l.officials[oi].key == official_key);
        assert(l.officials[oi].record == o);
        assert(v.official == official_key);
        assert(l.official_idx(v.official) == oi) by {
            lemma_official_at(l, oi);
        }
        assert(l.official_at(v.official) == o);
        assert(v.votes_ok(o));
        assert(o.committee_ok());

        // Each of the three distinct voters sits at a distinct committee
        // position, so the committee is exhausted; the signer's position is
        // one of them, which contradicts the signer not having voted.
        let e = o.endorsers;
        let j = choose|j: int| 0 <= j < e.len() && e[j] == signer;
        assert(o.is_endorser(signer));
        assert(0 <= j < 3 && e[j] == signer);
        let k0 = choose|k: int| 0 <= k < e.len() && e[k] == v.votes[0].endorser;
        let k1 = choose|k: int| 0 <= k < e.len() && e[k] == v.votes[1].endorser;
        let k2 = choose|k: int| 0 <= k < e.len() && e[k] == v.votes[2].endorser;
        assert(o.is_endorser(v.votes[0].endorser));
        assert(o.is_endorser(v.votes[1].endorser));
        assert(o.is_endorser(v.votes[2].endorser));
        assert(0 <= k0 < 3 && e[k0] == v.votes[0].endorser);
        assert(0 <= k1 < 3 && e[k1] == v.votes[1].endorser);
        assert(0 <= k2 < 3 && e[k2] == v.votes[2].endorser);
        assert(votes_distinct(v.votes));
        assert(v.votes[0].endorser != v.votes[1].endorser);
        assert(k0 != k1 && k0 != k2 && k1 != k2);
        assert(!spec_has_voted(v.votes, signer));
        assert(j != k0 && j != k1 && j != k2);
        assert(false);
    }
}

/// Endorses a video: on acceptance exactly one vote is appended to the
/// addressed video and its status is recomputed; on any rejection the ledger
/// is unchanged.
pub fn handler(ledger: &mut Ledger, accounts: &EndorseVideo, is_authentic: bool) -> (r: Result<
    (),
    TruChainError,
>)
    requires
        old(ledger)@.wf(),
        accounts.endorser.wf(),
    ensures
        final(ledger)@.wf(),
        r == spec_endorse_video_check(
            old(ledger)@,
            accounts.official@,
            accounts.video@,
            accounts.endorser@,
        ),
        r is Err ==> final(ledger)@ == old(ledger)@,
        r is Ok ==> final(ledger)@.officials == old(ledger)@.officials && final(ledger)@.videos
            == old(ledger)@.videos.update(
            old(ledger)@.video_idx(accounts.video@),
            (VideoEntryView {
                key: accounts.video@,
                record: spec_endorsed_video(
                    old(ledger)@.video_at(accounts.video@),
                    accounts.endorser@,
                    is_authentic,
                ),
            }),
        ),
{
    let ghost l0 = ledger@;
    let vi = match ledger.find_video(&accounts.video) {
        None => {
            return Err(TruChainError::UnauthorizedOfficial);
        },
        Some(i) => i,
    };
    proof {
        lemma_video_at(l0, vi as int);
    }
    if !ledger.videos[vi].record.official.eq_key(&accounts.official) {
        return Err(TruChainError::UnauthorizedOfficial);
    }

    let oi = match ledger.find_official(&accounts.official) {
        None => {
            return Err(TruChainError::UnauthorizedOfficial);
        },
        Some(i) => i,
    };
    proof {
        lemma_official_at(l0, oi as int);
    }
    if !ledger.officials[oi].record.has_endorser(&accounts.endorser) {
        return Err(TruChainError::UnauthorizedEndorser);
    }

    if ledger.videos[vi].record.has_vote_from(&accounts.endorser) {
        return Err(TruChainError::AlreadyVoted);
    }

    if ledger.videos[vi].record.votes.len() >= MAX_VOTES {
        return Err(TruChainError::TooManyVotes);
    }

    let mut entry = ledger.videos.remove(vi);
    entry.record.votes.push(Vote { endorser: accounts.endorser.dup(), is_authentic });
    entry.record.recompute_status();
    ledger.videos.insert(vi, entry);

    proof {
        let l1 = ledger@;
        let old_rec = l0.videos[vi as int].record;
        let w = VoteView { endorser: accounts.endorser@, is_authentic };
        let e = VideoEntryView { key: accounts.video@, record: spec_endorsed_video(old_rec, accounts.endorser@, is_authentic) };

        assert(l1.videos[vi as int].record.votes =~= old_rec.votes.push(w));
        assert(l1.videos[vi as int] =~= e);
        assert(l1.videos =~= l0.videos.update(vi as int, e));
        assert(l1.officials =~= l0.officials);

        // Keys of stored videos are untouched, so they stay distinct.
        assert(forall|i2: int|
            0 <= i2 < l1.videos.len() ==> (#[trigger] l1.videos[i2]).key == l0.videos[i2].key);
        assert(forall|i2: int, j2: int|
            0 <= i2 < j2 < l1.videos.len() ==> (#[trigger] l1.videos[i2]).key != (
            #[trigger] l1.videos[j2]).key);

        // The updated record is well formed: one more vote, from a committee
        // member who had not voted, and the status freshly recomputed.
        assert(forall|i2: int|
            0 <= i2 < old_rec.votes.len() ==> (#[trigger] old_rec.votes[i2]).endorser
                != accounts.endorser@);
        assert(l1.videos[vi as int].wf());

        // Every stored video still sees its owner unchanged.
        assert(l0.officials.is_prefix_of(l1.officials));
        assert forall|v: int| 0 <= v < l1.videos.len() implies l1.has_official_key(
            (#[trigger] l1.videos[v]).record.official,
        ) && l1.videos[v].record.votes_ok(
            l1.official_at(l1.videos[v].record.official),
        ) by {
            let off = l1.videos[v].record.official;
            assert(off == l0.videos[v].record.official);
            assert(l0.has_official_key(off));
            lemma_official_view_preserved(l0, l1, off);
            if v == vi as int {
                assert(l0.official_at(off) == l0.officials[oi as int].record);
                assert(l1.videos[v].record.votes_ok(l0.official_at(off)));
            }
        }
        assert(l1.wf());
    }
    Ok(())
}

} // verus!
