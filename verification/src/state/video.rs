//! The persistent record of one attested video: its owning official, content
//! hash and identifier, creation time, the committee's votes, and the status
//! the 2-of-3 rule derives from them.

use vstd::prelude::*;

use crate::key::{Pubkey, KEY_LEN};
use crate::state::official::OfficialView;

verus! {

/// Most votes a video can hold: one per committee member.
pub const MAX_VOTES: usize = 3;

/// Fixed width of the stored, zero-padded content-identifier buffer.
pub const CID_LEN: usize = 64;

/// Width of the content hash.
pub const HASH_LEN: usize = 32;

/// Allocated size of a Video record: discriminator, official key, hash,
/// content identifier, timestamp, vote count, three vote slots, status, bump.
pub const VIDEO_SIZE: usize = 8 + 32 + 32 + 64 + 8 + 4 + 3 * (32 + 1) + 1 + 1;

/// The derived verification classification of a video.
#[derive(Clone, Copy, PartialEq, Eq, Structural, Debug)]
pub enum VideoStatus {
    /// Fewer than two votes agree either way.
    Unverified,
    /// At least two endorsers voted authentic.
    Authentic,
    /// At least two endorsers voted not authentic.
    Disputed,
}

/// One endorser's judgment on one video.
pub struct Vote {
    /// The key of the committee member who voted.
    pub endorser: Pubkey,
    /// The judgment: true means authentic.
    pub is_authentic: bool,
}

/// The mathematical shape of a vote.
pub ghost struct VoteView {
    pub endorser: Seq<u8>,
    pub is_authentic: bool,
}

impl View for Vote {
    type V = VoteView;

    open spec fn view(&self) -> VoteView {
        VoteView { endorser: self.endorser@, is_authentic: self.is_authentic }
    }
}

/// The record of one attested video.
pub struct Video {
    /// Key of the owning Official record.
    pub official: Pubkey,
    /// Content hash of the full media file; opaque to the core.
    pub video_hash: Vec<u8>,
    /// Content identifier bytes, zero-padded to the fixed 64-byte buffer.
    pub ipfs_cid: Vec<u8>,
    /// Seconds since the external epoch, read once at creation.
    pub timestamp: i64,
    /// The committee's votes so far, in arrival order.
    pub votes: Vec<Vote>,
    /// The status the 2-of-3 rule derives from the current votes.
    pub status: VideoStatus,
    /// Derivation byte emitted when the record key was derived.
    pub bump: u8,
}

/// The mathematical shape of a Video record.
pub ghost struct VideoView {
    pub official: Seq<u8>,
    pub video_hash: Seq<u8>,
    pub ipfs_cid: Seq<u8>,
    pub timestamp: i64,
    pub votes: Seq<VoteView>,
    pub status: VideoStatus,
    pub bump: u8,
}

impl View for Video {
    type V = VideoView;

    open spec fn view(&self) -> VideoView {
        VideoView {
            official: self.official@,
            video_hash: self.video_hash@,
            ipfs_cid: self.ipfs_cid@,
            timestamp: self.timestamp,
            votes: self.votes@.map_values(|v: Vote| v@),
            status: self.status,
            bump: self.bump,
        }
    }
}

/// How many of the votes judge the video authentic.
pub open spec fn count_authentic(votes: Seq<VoteView>) -> nat
    decreases votes.len(),
{
    if votes.len() == 0 {
        0
    } else {
        count_authentic(votes.drop_last()) + if votes.last().is_authentic {
            1nat
        } else {
            0nat
        }
    }
}

/// The Status Rule: at least two authentic votes make the video Authentic;
/// failing that, at least two dissenting votes make it Disputed; otherwise it
/// stays Unverified.
pub open spec fn spec_status_of(votes: Seq<VoteView>) -> VideoStatus {
    if count_authentic(votes) >= 2 {
        VideoStatus::Authentic
    } else if votes.len() - count_authentic(votes) >= 2 {
        VideoStatus::Disputed
    } else {
        VideoStatus::Unverified
    }
}

/// No two votes come from the same endorser.
pub open spec fn votes_distinct(votes: Seq<VoteView>) -> bool {
    forall|i: int, j: int|
        0 <= i < j < votes.len() ==> (#[trigger] votes[i]).endorser != (
        #[trigger] votes[j]).endorser
}

/// Whether `k` already voted in `votes`.
pub open spec fn spec_has_voted(votes: Seq<VoteView>, k: Seq<u8>) -> bool {
    exists|i: int| 0 <= i < votes.len() && votes[i].endorser == k
}

/// The count of authentic votes never exceeds the number of votes.
pub proof fn lemma_count_authentic_le_len(votes: Seq<VoteView>)
    ensures
        count_authentic(votes) <= votes.len(),
    decreases votes.len(),
{
    if votes.len() > 0 {
        lemma_count_authentic_le_len(votes.drop_last());
    }
}

/// Appending a vote raises the authentic count by one exactly when the vote
/// is authentic.
pub proof fn lemma_count_authentic_push(votes: Seq<VoteView>, w: VoteView)
    ensures
        count_authentic(votes.push(w)) == count_authentic(votes) + if w.is_authentic {
            1nat
        } else {
            0nat
        },
{
    assert(votes.push(w).drop_last() =~= votes);
    assert(votes.push(w).last() == w);
}

/// Extending a counted prefix by one element.
pub proof fn lemma_count_authentic_prefix_step(votes: Seq<VoteView>, i: int)
    requires
        0 <= i < votes.len(),
    ensures
        count_authentic(votes.subrange(0, i + 1)) == count_authentic(votes.subrange(0, i))
            + if votes[i].is_authentic {
            1nat
        } else {
            0nat
        },
{
    assert(votes.subrange(0, i + 1).drop_last() =~= votes.subrange(0, i));
    assert(votes.subrange(0, i + 1).last() == votes[i]);
}

impl VideoView {
    /// Structural well-formedness: every fixed-width field has its width and
    /// the vote list fits its reservation.
    pub open spec fn wf(&self) -> bool {
        &&& self.official.len() == KEY_LEN
        &&& self.video_hash.len() == HASH_LEN
        &&& self.ipfs_cid.len() == CID_LEN
        &&& self.votes.len() <= MAX_VOTES
        &&& forall|i: int|
            0 <= i < self.votes.len() ==> (#[trigger] self.votes[i]).endorser.len() == KEY_LEN
    }

    /// The vote invariants against the owning official: at most one vote per
    /// endorser, and every voter sits on the official's committee.
    pub open spec fn votes_ok(&self, official: OfficialView) -> bool {
        &&& votes_distinct(self.votes)
        &&& forall|i: int|
            0 <= i < self.votes.len() ==> official.is_endorser(
                (#[trigger] self.votes[i]).endorser,
            )
    }

    /// The status invariant: the stored status is the Status Rule applied to
    /// the current votes.
    pub open spec fn status_ok(&self) -> bool {
        self.status == spec_status_of(self.votes)
    }

    /// This video with its status recomputed by the Status Rule.
    pub open spec fn recomputed(self) -> VideoView {
        VideoView { status: spec_status_of(self.votes), ..self }
    }
}

impl Video {
    /// Structural well-formedness of the executable record.
    pub open spec fn wf(&self) -> bool {
        self@.wf()
    }

    /// Whether the key `k` has already voted on this video.
    pub fn has_vote_from(&self, k: &Pubkey) -> (r: bool)
        ensures
            r == spec_has_voted(self@.votes, k@),
    {
        let mut i: usize = 0;
        while i < self.votes.len()
            invariant
                i <= self.votes@.len(),
                forall|j: int| 0 <= j < i ==> self@.votes[j].endorser != k@,
            decreases self.votes@.len() - i,
        {
            if self.votes[i].endorser.eq_key(k) {
                assert(self@.votes[i as int].endorser == k@);
                return true;
            }
            i = i + 1;
        }
        false
    }

    /// Recomputes the stored status from the current votes with the 2-of-3
    /// Status Rule; nothing else changes.
    pub fn recompute_status(&mut self)
        ensures
            final(self)@ == (old(self)@.recomputed()),
    {
        let n = self.votes.len();
        let mut authentic: usize = 0;
        let mut i: usize = 0;
        while i < n
            invariant
                i <= n,
                n == self.votes@.len(),
                *self == *old(self),
                authentic <= i,
                authentic == count_authentic(self@.votes.subrange(0, i as int)),
            decreases n - i,
        {
            proof {
                lemma_count_authentic_prefix_step(self@.votes, i as int);
            }
            if self.votes[i].is_authentic {
                authentic = authentic + 1;
            }
            i = i + 1;
        }
        proof {
            assert(self@.votes.subrange(0, n as int) =~= self@.votes);
        }
        let fake = n - authentic;
        self.status = if authentic >= 2 {
            VideoStatus::Authentic
        } else if fake >= 2 {
            VideoStatus::Disputed
        } else {
            VideoStatus::Unverified
        };
    }
}

/// The Status Rule is idempotent: recomputing the status of a video whose
/// status was just recomputed changes nothing.
pub proof fn lemma_status_rule_idempotent(v: VideoView)
    ensures
        v.recomputed().recomputed() == v.recomputed(),
{
}

/// The Status Rule is stable under appended votes: once a video with room for
/// another vote is Authentic or Disputed, no appended vote changes its
/// status.
pub proof fn lemma_status_stable_under_append(votes: Seq<VoteView>, w: VoteView)
    requires
        votes.len() < MAX_VOTES,
        spec_status_of(votes) != VideoStatus::Unverified,
    ensures
        spec_status_of(votes.push(w)) == spec_status_of(votes),
{
    lemma_count_authentic_le_len(votes);
    lemma_count_authentic_push(votes, w);
}

} // verus!
