//! The record store the operations act on: every Official and Video record,
//! addressed by its derived key. Records are create-once; the only mutation
//! is appending a vote to a video and recomputing its status.

use vstd::prelude::*;

use crate::key::Pubkey;
use crate::pda::{spec_official_bump, spec_official_key, spec_video_bump, spec_video_key};
use crate::state::official::{Official, OfficialView};
use crate::state::video::{Video, VideoView};

verus! {

/// An Official record together with the derived key it is stored under.
pub struct OfficialEntry {
    pub key: Pubkey,
    pub record: Official,
}

/// The mathematical shape of a stored Official record.
pub ghost struct OfficialEntryView {
    pub key: Seq<u8>,
    pub record: OfficialView,
}

impl View for OfficialEntry {
    type V = OfficialEntryView;

    open spec fn view(&self) -> OfficialEntryView {
        OfficialEntryView { key: self.key@, record: self.record@ }
    }
}

/// A Video record together with the derived key it is stored under.
pub struct VideoEntry {
    pub key: Pubkey,
    pub record: Video,
}

/// The mathematical shape of a stored Video record.
pub ghost struct VideoEntryView {
    pub key: Seq<u8>,
    pub record: VideoView,
}

impl View for VideoEntry {
    type V = VideoEntryView;

    open spec fn view(&self) -> VideoEntryView {
        VideoEntryView { key: self.key@, record: self.record@ }
    }
}

/// The whole record store.
pub struct Ledger {
    pub officials: Vec<OfficialEntry>,
    pub videos: Vec<VideoEntry>,
}

/// The mathematical shape of the record store.
pub ghost struct LedgerView {
    pub officials: Seq<OfficialEntryView>,
    pub videos: Seq<VideoEntryView>,
}

impl View for Ledger {
    type V = LedgerView;

    open spec fn view(&self) -> LedgerView {
        LedgerView {
            officials: self.officials@.map_values(|e: OfficialEntry| e@),
            videos: self.videos@.map_values(|e: VideoEntry| e@),
        }
    }
}

impl OfficialEntryView {
    /// A stored Official is well formed, satisfies the committee invariant,
    /// and sits under the key derived from its id, with the matching bump.
    pub open spec fn wf(&self) -> bool {
        &&& self.record.wf()
        &&& self.record.committee_ok()
        &&& self.key == spec_official_key(self.record.official_id)
        &&& self.record.bump == spec_official_bump(self.record.official_id)
    }
}

impl VideoEntryView {
    /// A stored Video is well formed and sits under the key derived from its
    /// owner and content hash, with the matching bump.
    pub open spec fn wf(&self) -> bool {
        &&& self.record.wf()
        &&& self.record.status_ok()
        &&& self.key == spec_video_key(self.record.official, self.record.video_hash)
        &&& self.record.bump == spec_video_bump(self.record.official, self.record.video_hash)
    }
}

impl LedgerView {
    /// Whether some Official record is stored under `k`.
    pub open spec fn has_official_key(&self, k: Seq<u8>) -> bool {
        exists|i: int| 0 <= i < self.officials.len() && self.officials[i].key == k
    }

    /// The position of the Official record stored under `k`.
    pub open spec fn official_idx(&self, k: Seq<u8>) -> int {
        choose|i: int| 0 <= i < self.officials.len() && self.officials[i].key == k
    }

    /// The Official record stored under `k`.
    pub open spec fn official_at(&self, k: Seq<u8>) -> OfficialView {
        self.officials[self.official_idx(k)].record
    }

    /// Whether some Video record is stored under `k`.
    pub open spec fn has_video_key(&self, k: Seq<u8>) -> bool {
        exists|i: int| 0 <= i < self.videos.len() && self.videos[i].key == k
    }

    /// The position of the Video record stored under `k`.
    pub open spec fn video_idx(&self, k: Seq<u8>) -> int {
        choose|i: int| 0 <= i < self.videos.len() && self.videos[i].key == k
    }

    /// The Video record stored under `k`.
    pub open spec fn video_at(&self, k: Seq<u8>) -> VideoView {
        self.videos[self.video_idx(k)].record
    }

    /// No two Official records share a key.
    pub open spec fn officials_distinct(&self) -> bool {
        forall|i: int, j: int|
            0 <= i < j < self.officials.len() ==> (#[trigger] self.officials[i]).key != (
            #[trigger] self.officials[j]).key
    }

    /// No two Video records share a key.
    pub open spec fn videos_distinct(&self) -> bool {
        forall|i: int, j: int|
            0 <= i < j < self.videos.len() ==> (#[trigger] self.videos[i]).key != (
            #[trigger] self.videos[j]).key
    }

    /// The ledger invariant: keys of each kind are pairwise distinct, every
    /// stored record is well formed under its derived key, and every video's
    /// votes respect the committee of its (stored) owning official.
    pub open spec fn wf(&self) -> bool {
        &&& self.officials_distinct()
        &&& forall|i: int| 0 <= i < self.officials.len() ==> (#[trigger] self.officials[i]).wf()
        &&& self.videos_distinct()
        &&& forall|i: int| 0 <= i < self.videos.len() ==> (#[trigger] self.videos[i]).wf()
        &&& forall|i: int|
            0 <= i < self.videos.len() ==> self.has_official_key(
                (#[trigger] self.videos[i]).record.official,
            ) && (#[trigger] self.videos[i]).record.votes_ok(
                self.official_at(self.videos[i].record.official),
            )
    }
}

/// In a well-formed ledger, each position holding an official's key is the
/// one position its lookup denotes.
pub proof fn lemma_official_at(l: LedgerView, i: int)
    requires
        l.officials_distinct(),
        0 <= i < l.officials.len(),
    ensures
        l.has_official_key(l.officials[i].key),
        l.official_idx(l.officials[i].key) == i,
        l.official_at(l.officials[i].key) == l.officials[i].record,
{
    let k = l.officials[i].key;
    assert(l.has_official_key(k));
    let j = l.official_idx(k);
    assert(0 <= j < l.officials.len() && l.officials[j].key == k);
    if i < j {
        assert(l.officials[i].key != l.officials[j].key);
    } else if j < i {
        assert(l.officials[j].key != l.officials[i].key);
    }
}

/// In a well-formed ledger, each position holding a video's key is the one
/// position its lookup denotes.
pub proof fn lemma_video_at(l: LedgerView, i: int)
    requires
        l.videos_distinct(),
        0 <= i < l.videos.len(),
    ensures
        l.has_video_key(l.videos[i].key),
        l.video_idx(l.videos[i].key) == i,
        l.video_at(l.videos[i].key) == l.videos[i].record,
{
    let k = l.videos[i].key;
    assert(l.has_video_key(k));
    let j = l.video_idx(k);
    assert(0 <= j < l.videos.len() && l.videos[j].key == k);
    if i < j {
        assert(l.videos[i].key != l.videos[j].key);
    } else if j < i {
        assert(l.videos[j].key != l.videos[i].key);
    }
}

/// In a well-formed ledger every video's status is the Status Rule applied
/// to its current votes, the votes number at most three, no endorser appears
/// twice among them, and every voter sits on the owning official's committee.
pub proof fn lemma_ledger_video_invariants(l: LedgerView, i: int)
    requires
        l.wf(),
        0 <= i < l.videos.len(),
    ensures
        l.videos[i].record.status == crate::state::video::spec_status_of(l.videos[i].record.votes),
        l.videos[i].record.votes.len() <= crate::state::video::MAX_VOTES,
        crate::state::video::votes_distinct(l.videos[i].record.votes),
        forall|j: int|
            0 <= j < l.videos[i].record.votes.len() ==> l.official_at(
                l.videos[i].record.official,
            ).is_endorser((#[trigger] l.videos[i].record.votes[j]).endorser),
{
}

/// Growing the official list leaves every stored official reachable under
/// its key, with the same record.
pub proof fn lemma_official_view_preserved(l0: LedgerView, l1: LedgerView, k: Seq<u8>)
    requires
        l0.officials_distinct(),
        l1.officials_distinct(),
        l0.officials.is_prefix_of(l1.officials),
        l0.has_official_key(k),
    ensures
        l1.has_official_key(k),
        l1.official_at(k) == l0.official_at(k),
{
    let j0 = l0.official_idx(k);
    assert(0 <= j0 < l0.officials.len() && l0.officials[j0].key == k);
    assert(l1.officials[j0] == l0.officials[j0]);
    lemma_official_at(l1, j0);
    lemma_official_at(l0, j0);
}

impl Ledger {
    /// An empty record store.
    pub fn new() -> (r: Ledger)
        ensures
            r@.officials.len() == 0,
            r@.videos.len() == 0,
            r@.wf(),
    {
        let r = Ledger { officials: Vec::new(), videos: Vec::new() };
        proof {
            assert(r@.officials =~= Seq::<OfficialEntryView>::empty());
            assert(r@.videos =~= Seq::<VideoEntryView>::empty());
        }
        r
    }

    /// Looks up the position of the Official record stored under `key`.
    pub fn find_official(&self, key: &Pubkey) -> (r: Option<usize>)
        ensures
            match r {
                Some(i) => 0 <= i < self@.officials.len() && self@.officials[i as int].key == key@,
                None => !self@.has_official_key(key@),
            },
    {
        let mut i: usize = 0;
        while i < self.officials.len()
            invariant
                i <= self.officials@.len(),
                forall|j: int| 0 <= j < i ==> self@.officials[j].key != key@,
            decreases self.officials@.len() - i,
        {
            if self.officials[i].key.eq_key(key) {
                assert(self@.officials[i as int].key == key@);
                return Some(i);
            }
            i = i + 1;
        }
        None
    }

    /// Looks up the position of the Video record stored under `key`.
    pub fn find_video(&self, key: &Pubkey) -> (r: Option<usize>)
        ensures
            match r {
                Some(i) => 0 <= i < self@.videos.len() && self@.videos[i as int].key == key@,
                None => !self@.has_video_key(key@),
            },
    {
        let mut i: usize = 0;
        while i < self.videos.len()
            invariant
                i <= self.videos@.len(),
                forall|j: int| 0 <= j < i ==> self@.videos[j].key != key@,
            decreases self.videos@.len() - i,
        {
            if self.videos[i].key.eq_key(key) {
                assert(self@.videos[i as int].key == key@);
                return Some(i);
            }
            i = i + 1;
        }
        None
    }
}

} // verus!
