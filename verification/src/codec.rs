//! The fixed binary layout of persistent records: an 8-byte discriminator,
//! the fields in declared order at fixed widths, zero-padded string buffers,
//! and a length-prefixed vote list inside a reservation sized for the
//! maximum. Serialized sizes are constant per kind.

use vstd::prelude::*;

use crate::bytes::{
    all_zero, bytes_eq, lemma_i64_le_round_trip, lemma_u32_le_round_trip, lemma_u64_le_round_trip,
    push_bytes, push_u32_le, push_u64_le, push_zero_bytes, read_bytes, read_u32_le, read_u64_le,
    spec_i64_from_le, spec_i64_le, spec_u32_from_le, spec_u32_le, spec_u64_from_le, spec_u64_le,
    zero_bytes,
};
use crate::key::{Pubkey, KEY_LEN};
use crate::state::official::{Official, OfficialView, OFFICIAL_SIZE};
use crate::state::video::{Video, VideoStatus, VideoView, Vote, VoteView, MAX_VOTES, VIDEO_SIZE};

verus! {

/// The discriminator of Official records: the ASCII bytes of "official".
pub open spec fn spec_official_disc() -> Seq<u8> {
    seq![111u8, 102, 102, 105, 99, 105, 97, 108]
}

/// The byte string an Official record serializes to.
pub open spec fn spec_ser_official(o: OfficialView) -> Seq<u8> {
    spec_official_disc() + spec_u64_le(o.official_id) + o.name + o.authority + o.endorsers[0]
        + o.endorsers[1] + o.endorsers[2] + seq![o.bump]
}

/// Whether `b` is the layout of some Official record: exact size and the
/// Official discriminator.
pub open spec fn valid_official_bytes(b: Seq<u8>) -> bool {
    &&& b.len() == OFFICIAL_SIZE
    &&& b.subrange(0, 8) == spec_official_disc()
}

/// The Official record read back from its layout.
pub open spec fn spec_deser_official(b: Seq<u8>) -> OfficialView
    recommends
        valid_official_bytes(b),
{
    OfficialView {
        official_id: spec_u64_from_le(b.subrange(8, 16)),
        name: b.subrange(16, 48),
        authority: b.subrange(48, 80),
        endorsers: seq![b.subrange(80, 112), b.subrange(112, 144), b.subrange(144, 176)],
        bump: b[176],
    }
}

/// Serializing a well-formed Official gives exactly 177 valid bytes, and
/// deserializing them yields the record back bit-identically.
pub proof fn lemma_official_round_trip(o: OfficialView)
    requires
        o.wf(),
    ensures
        spec_ser_official(o).len() == OFFICIAL_SIZE,
        valid_official_bytes(spec_ser_official(o)),
        spec_deser_official(spec_ser_official(o)) == o,
{
    let b = spec_ser_official(o);
    assert(b.len() == OFFICIAL_SIZE);
    assert(b.subrange(0, 8) =~= spec_official_disc());
    assert(b.subrange(8, 16) =~= spec_u64_le(o.official_id));
    lemma_u64_le_round_trip(o.official_id);
    assert(b.subrange(16, 48) =~= o.name);
    assert(b.subrange(48, 80) =~= o.authority);
    assert(b.subrange(80, 112) =~= o.endorsers[0]);
    assert(b.subrange(112, 144) =~= o.endorsers[1]);
    assert(b.subrange(144, 176) =~= o.endorsers[2]);
    assert(b[176] == o.bump);
    assert(spec_deser_official(b).endorsers =~= o.endorsers);
    assert(spec_deser_official(b) == o);
}

/// The Official discriminator as bytes.
fn official_disc() -> (r: Vec<u8>)
    ensures
        r@ == spec_official_disc(),
{
    let v: Vec<u8> = vec![111u8, 102, 102, 105, 99, 105, 97, 108];
    assert(v@ =~= spec_official_disc());
    v
}

/// Serializes an Official record into its fixed 177-byte layout.
pub fn serialize_official(o: &Official) -> (r: Vec<u8>)
    requires
        o.wf(),
    ensures
        r@ == spec_ser_official(o@),
        r@.len() == OFFICIAL_SIZE,
{
    let mut out = official_disc();
    push_u64_le(&mut out, o.official_id);
    push_bytes(&mut out, &o.name);
    push_bytes(&mut out, &o.authority.bytes);
    push_bytes(&mut out, &o.endorsers[0].bytes);
    push_bytes(&mut out, &o.endorsers[1].bytes);
    push_bytes(&mut out, &o.endorsers[2].bytes);
    out.push(o.bump);
    assert(out@ =~= spec_ser_official(o@));
    out
}

/// Deserializes a 177-byte Official layout; rejects anything that is not
/// one.
pub fn deserialize_official(b: &Vec<u8>) -> (r: Option<Official>)
    ensures
        r is Some <==> valid_official_bytes(b@),
        r is Some ==> r.unwrap()@ == spec_deser_official(b@) && r.unwrap().wf(),
{
    if b.len() != OFFICIAL_SIZE {
        return None;
    }
    let disc = read_bytes(b, 0, 8);
    let expected = official_disc();
    if !bytes_eq(&disc, &expected) {
        return None;
    }
    let official_id = read_u64_le(b, 8);
    let name = read_bytes(b, 16, 32);
    let authority = Pubkey::new(read_bytes(b, 48, 32));
    let mut endorsers: Vec<Pubkey> = Vec::new();
    endorsers.push(Pubkey::new(read_bytes(b, 80, 32)));
    endorsers.push(Pubkey::new(read_bytes(b, 112, 32)));
    endorsers.push(Pubkey::new(read_bytes(b, 144, 32)));
    let bump = b[176];
    let o = Official { official_id, name, authority, endorsers, bump };
    proof {
        assert(o@.endorsers =~= spec_deser_official(b@).endorsers);
        assert(o@ == spec_deser_official(b@));
    }
    Some(o)
}

/// The discriminator of Video records: the ASCII bytes of "video",
/// zero-padded to 8 bytes.
pub open spec fn spec_video_disc() -> Seq<u8> {
    seq![118u8, 105, 100, 101, 111, 0, 0, 0]
}

/// The byte a status stores as.
pub open spec fn spec_status_byte(s: VideoStatus) -> u8 {
    match s {
        VideoStatus::Unverified => 0u8,
        VideoStatus::Authentic => 1u8,
        VideoStatus::Disputed => 2u8,
    }
}

/// The status a byte under 3 stores.
pub open spec fn spec_status_from_byte(b: u8) -> VideoStatus
    recommends
        b < 3,
{
    if b == 0 {
        VideoStatus::Unverified
    } else if b == 1 {
        VideoStatus::Authentic
    } else {
        VideoStatus::Disputed
    }
}

/// One stored vote: the endorser key and one flag byte.
pub open spec fn spec_vote_slot(w: VoteView) -> Seq<u8> {
    w.endorser + seq![
        if w.is_authentic {
            1u8
        } else {
            0u8
        },
    ]
}

/// The used vote slots, in order.
pub open spec fn spec_vote_slots(votes: Seq<VoteView>) -> Seq<u8>
    decreases votes.len(),
{
    if votes.len() == 0 {
        Seq::empty()
    } else {
        spec_vote_slots(votes.drop_last()) + spec_vote_slot(votes.last())
    }
}

/// Each stored vote occupies 33 bytes.
pub proof fn lemma_vote_slots_len(votes: Seq<VoteView>)
    requires
        forall|i: int| 0 <= i < votes.len() ==> (#[trigger] votes[i]).endorser.len() == KEY_LEN,
    ensures
        spec_vote_slots(votes).len() == 33 * votes.len(),
    decreases votes.len(),
{
    if votes.len() > 0 {
        lemma_vote_slots_len(votes.drop_last());
    }
}

/// The slot region of vote `i` holds exactly that vote's slot bytes.
pub proof fn lemma_vote_slots_index(votes: Seq<VoteView>, i: int)
    requires
        forall|j: int| 0 <= j < votes.len() ==> (#[trigger] votes[j]).endorser.len() == KEY_LEN,
        0 <= i < votes.len(),
    ensures
        spec_vote_slots(votes).subrange(33 * i, 33 * i + 33) == spec_vote_slot(votes[i]),
    decreases votes.len(),
{
    lemma_vote_slots_len(votes);
    lemma_vote_slots_len(votes.drop_last());
    if i == votes.len() - 1 {
        assert(spec_vote_slots(votes).subrange(33 * i, 33 * i + 33) =~= spec_vote_slot(votes[i]));
    } else {
        lemma_vote_slots_index(votes.drop_last(), i);
        assert(spec_vote_slots(votes).subrange(33 * i, 33 * i + 33) =~= spec_vote_slots(
            votes.drop_last(),
        ).subrange(33 * i, 33 * i + 33));
    }
}

/// Serializing one more vote appends its slot.
pub proof fn lemma_vote_slots_prefix_step(votes: Seq<VoteView>, i: int)
    requires
        0 <= i < votes.len(),
    ensures
        spec_vote_slots(votes.subrange(0, i + 1)) == spec_vote_slots(votes.subrange(0, i))
            + spec_vote_slot(votes[i]),
{
    assert(votes.subrange(0, i + 1).drop_last() =~= votes.subrange(0, i));
    assert(votes.subrange(0, i + 1).last() == votes[i]);
}

/// The byte string a Video record serializes to: used vote slots first, the
/// rest of the reservation zero-filled.
pub open spec fn spec_ser_video(v: VideoView) -> Seq<u8> {
    spec_video_disc() + v.official + v.video_hash + v.ipfs_cid + spec_i64_le(v.timestamp)
        + spec_u32_le(v.votes.len() as u32) + spec_vote_slots(v.votes) + zero_bytes(
        (99 - 33 * v.votes.len()) as nat,
    ) + seq![spec_status_byte(v.status), v.bump]
}

/// Whether `b` is the layout of some Video record: exact size, the Video
/// discriminator, a vote count within the reservation, flag bytes that are
/// 0 or 1, unused slots zero-filled, and a known status byte.
pub open spec fn valid_video_bytes(b: Seq<u8>) -> bool {
    let n = spec_u32_from_le(b.subrange(144, 148)) as int;
    &&& b.len() == VIDEO_SIZE
    &&& b.subrange(0, 8) == spec_video_disc()
    &&& n <= MAX_VOTES
    &&& forall|i: int| 0 <= i < n ==> #[trigger] b[148 + 33 * i + 32] < 2
    &&& b.subrange(148 + 33 * n, 247) == zero_bytes((99 - 33 * n) as nat)
    &&& b[247] < 3
}

/// The Video record read back from its layout.
pub open spec fn spec_deser_video(b: Seq<u8>) -> VideoView
    recommends
        valid_video_bytes(b),
{
    VideoView {
        official: b.subrange(8, 40),
        video_hash: b.subrange(40, 72),
        ipfs_cid: b.subrange(72, 136),
        timestamp: spec_i64_from_le(b.subrange(136, 144)),
        votes: Seq::new(
            spec_u32_from_le(b.subrange(144, 148)) as nat,
            |i: int|
                VoteView {
                    endorser: b.subrange(148 + 33 * i, 148 + 33 * i + 32),
                    is_authentic: b[148 + 33 * i + 32] == 1,
                },
        ),
        status: spec_status_from_byte(b[247]),
        bump: b[248],
    }
}

/// Serializing a well-formed Video gives exactly 249 valid bytes, and
/// deserializing them yields the record back bit-identically.
pub proof fn lemma_video_round_trip(v: VideoView)
    requires
        v.wf(),
    ensures
        spec_ser_video(v).len() == VIDEO_SIZE,
        valid_video_bytes(spec_ser_video(v)),
        spec_deser_video(spec_ser_video(v)) == v,
{
    let b = spec_ser_video(v);
    let n = v.votes.len() as int;
    lemma_vote_slots_len(v.votes);
    assert(b.len() == VIDEO_SIZE);
    assert(b.subrange(0, 8) =~= spec_video_disc());
    assert(b.subrange(8, 40) =~= v.official);
    assert(b.subrange(40, 72) =~= v.video_hash);
    assert(b.subrange(72, 136) =~= v.ipfs_cid);
    assert(b.subrange(136, 144) =~= spec_i64_le(v.timestamp));
    lemma_i64_le_round_trip(v.timestamp);
    assert(b.subrange(144, 148) =~= spec_u32_le(v.votes.len() as u32));
    lemma_u32_le_round_trip(v.votes.len() as u32);
    assert(spec_u32_from_le(b.subrange(144, 148)) as int == n);
    assert(b.subrange(148, 148 + 33 * n) =~= spec_vote_slots(v.votes));
    assert(b.subrange(148 + 33 * n, 247) =~= zero_bytes((99 - 33 * n) as nat));
    assert(b[247] == spec_status_byte(v.status));
    assert(b[248] == v.bump);
    assert(spec_status_from_byte(spec_status_byte(v.status)) == v.status);

    let dv = spec_deser_video(b).votes;
    assert forall|i: int| 0 <= i < n implies dv[i] == v.votes[i] by {
        lemma_vote_slots_index(v.votes, i);
        assert(b.subrange(148 + 33 * i, 148 + 33 * i + 33) =~= spec_vote_slots(v.votes).subrange(
            33 * i,
            33 * i + 33,
        ));
        assert(b.subrange(148 + 33 * i, 148 + 33 * i + 32) =~= spec_vote_slot(
            v.votes[i],
        ).subrange(0, 32));
        assert(spec_vote_slot(v.votes[i]).subrange(0, 32) =~= v.votes[i].endorser);
        assert(b[148 + 33 * i + 32] == spec_vote_slot(v.votes[i])[32]);
        assert(dv[i].endorser =~= v.votes[i].endorser);
    }
    assert forall|i: int| 0 <= i < n implies #[trigger] b[148 + 33 * i + 32] < 2 by {
        lemma_vote_slots_index(v.votes, i);
        assert(b[148 + 33 * i + 32] == spec_vote_slot(v.votes[i])[32]);
    }
    assert(dv =~= v.votes);
    assert(spec_deser_video(b) == v);
}

/// The Video discriminator as bytes.
fn video_disc() -> (r: Vec<u8>)
    ensures
        r@ == spec_video_disc(),
{
    let v: Vec<u8> = vec![118u8, 105, 100, 101, 111, 0, 0, 0];
    assert(v@ =~= spec_video_disc());
    v
}

/// Serializes a Video record into its fixed 249-byte layout.
#[verifier::loop_isolation(false)]
pub fn serialize_video(v: &Video) -> (r: Vec<u8>)
    requires
        v.wf(),
    ensures
        r@ == spec_ser_video(v@),
        r@.len() == VIDEO_SIZE,
{
    let mut out = video_disc();
    push_bytes(&mut out, &v.official.bytes);
    push_bytes(&mut out, &v.video_hash);
    push_bytes(&mut out, &v.ipfs_cid);
    let ts_bits: u64 = #[verifier::truncate] (v.timestamp as u64);
    push_u64_le(&mut out, ts_bits);
    let n = v.votes.len();
    push_u32_le(&mut out, n as u32);
    let ghost prefix = out@;
    let mut i: usize = 0;
    while i < n
        invariant
            i <= n,
            out@ == prefix + spec_vote_slots(v@.votes.subrange(0, i as int)),
        decreases n - i,
    {
        proof {
            lemma_vote_slots_prefix_step(v@.votes, i as int);
        }
        push_bytes(&mut out, &v.votes[i].endorser.bytes);
        out.push(
            if v.votes[i].is_authentic {
                1u8
            } else {
                0u8
            },
        );
        proof {
            assert(out@ =~= prefix + spec_vote_slots(v@.votes.subrange(0, i + 1)));
        }
        i = i + 1;
    }
    proof {
        assert(v@.votes.subrange(0, n as int) =~= v@.votes);
    }
    push_zero_bytes(&mut out, 99 - 33 * n);
    let sb: u8 = match v.status {
        VideoStatus::Unverified => 0u8,
        VideoStatus::Authentic => 1u8,
        VideoStatus::Disputed => 2u8,
    };
    out.push(sb);
    out.push(v.bump);
    proof {
        lemma_vote_slots_len(v@.votes);
        assert(out@ =~= spec_ser_video(v@));
    }
    out
}

/// Deserializes a 249-byte Video layout; rejects anything that is not one.
#[verifier::loop_isolation(false)]
pub fn deserialize_video(b: &Vec<u8>) -> (r: Option<Video>)
    ensures
        r is Some <==> valid_video_bytes(b@),
        r is Some ==> r.unwrap()@ == spec_deser_video(b@) && r.unwrap().wf(),
{
    if b.len() != VIDEO_SIZE {
        return None;
    }
    let disc = read_bytes(b, 0, 8);
    let expected = video_disc();
    if !bytes_eq(&disc, &expected) {
        return None;
    }
    let official = Pubkey::new(read_bytes(b, 8, 32));
    let video_hash = read_bytes(b, 40, 32);
    let ipfs_cid = read_bytes(b, 72, 64);
    let ts_bits = read_u64_le(b, 136);
    let timestamp: i64 = #[verifier::truncate] (ts_bits as i64);
    let count32 = read_u32_le(b, 144);
    if count32 > 3 {
        return None;
    }
    let count = count32 as usize;
    let ghost dvotes = spec_deser_video(b@).votes;
    assert(dvotes.len() == count);
    let mut votes: Vec<Vote> = Vec::new();
    let mut i: usize = 0;
    while i < count
        invariant
            i <= count,
            votes@.map_values(|w: Vote| w@) == dvotes.subrange(0, i as int),
            forall|j: int| 0 <= j < i ==> #[trigger] b@[148 + 33 * j + 32] < 2,
        decreases count - i,
    {
        let off = 148 + 33 * i;
        let endorser = Pubkey::new(read_bytes(b, off, 32));
        let flag = b[off + 32];
        if flag > 1 {
            assert(b@[148 + 33 * (i as int) + 32] >= 2);
            assert(!valid_video_bytes(b@));
            return None;
        }
        votes.push(Vote { endorser, is_authentic: flag == 1 });
        proof {
            assert(votes@.map_values(|w: Vote| w@) =~= dvotes.subrange(0, i + 1));
        }
        i = i + 1;
    }
    if !all_zero(b, 148 + 33 * count, 99 - 33 * count) {
        return None;
    }
    let status_byte = b[247];
    if status_byte > 2 {
        return None;
    }
    let status = if status_byte == 0 {
        VideoStatus::Unverified
    } else if status_byte == 1 {
        VideoStatus::Authentic
    } else {
        VideoStatus::Disputed
    };
    let bump = b[248];
    let v = Video { official, video_hash, ipfs_cid, timestamp, votes, status, bump };
    proof {
        assert(v@.votes =~= dvotes);
        assert(v@ == spec_deser_video(b@));
        assert(valid_video_bytes(b@));
        assert(forall|j: int|
            0 <= j < v@.votes.len() ==> (#[trigger] v@.votes[j]).endorser.len() == KEY_LEN);
        assert(v.wf());
    }
    Some(v)
}

} // verus!
