use truchain::key::Pubkey;
use truchain::state::video::{Video, VideoStatus, Vote};

fn vote(n: u8, yes: bool) -> Vote {
    Vote { endorser: Pubkey::new(vec![n; 32]), is_authentic: yes }
}

fn video_with_votes(votes: Vec<Vote>) -> Video {
    Video {
        official: Pubkey::new(vec![7u8; 32]),
        video_hash: vec![0x55u8; 32],
        ipfs_cid: vec![0x51u8; 64],
        timestamp: 0,
        votes,
        status: VideoStatus::Unverified,
        bump: 254,
    }
}

#[test]
fn no_votes_is_unverified() {
    let mut v = video_with_votes(Vec::new());
    v.recompute_status();
    assert_eq!(v.status, VideoStatus::Unverified);
}

#[test]
fn one_vote_is_unverified() {
    let mut v = video_with_votes(vec![vote(1, true)]);
    v.recompute_status();
    assert_eq!(v.status, VideoStatus::Unverified);

    let mut v = video_with_votes(vec![vote(1, false)]);
    v.recompute_status();
    assert_eq!(v.status, VideoStatus::Unverified);
}

#[test]
fn split_pair_is_unverified() {
    let mut v = video_with_votes(vec![vote(1, true), vote(2, false)]);
    v.recompute_status();
    assert_eq!(v.status, VideoStatus::Unverified);
}

#[test]
fn two_authentic_is_authentic() {
    let mut v = video_with_votes(vec![vote(1, true), vote(2, true)]);
    v.recompute_status();
    assert_eq!(v.status, VideoStatus::Authentic);
}

#[test]
fn two_dissenting_is_disputed() {
    let mut v = video_with_votes(vec![vote(1, false), vote(3, false)]);
    v.recompute_status();
    assert_eq!(v.status, VideoStatus::Disputed);
}

#[test]
fn two_of_three_majority_decides() {
    let mut v = video_with_votes(vec![vote(1, true), vote(2, false), vote(3, true)]);
    v.recompute_status();
    assert_eq!(v.status, VideoStatus::Authentic);

    let mut v = video_with_votes(vec![vote(1, false), vote(2, true), vote(3, false)]);
    v.recompute_status();
    assert_eq!(v.status, VideoStatus::Disputed);
}

#[test]
fn recompute_is_idempotent() {
    let mut v = video_with_votes(vec![vote(1, true), vote(2, true), vote(3, false)]);
    v.recompute_status();
    let first = v.status;
    v.recompute_status();
    assert_eq!(v.status, first);
    assert_eq!(v.status, VideoStatus::Authentic);
}
