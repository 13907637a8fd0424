use truchain::errors::TruChainError;
use truchain::instructions::endorse_video::EndorseVideo;
use truchain::instructions::register_official::RegisterOfficial;
use truchain::instructions::register_video::RegisterVideo;
use truchain::key::Pubkey;
use truchain::ledger::Ledger;
use truchain::pda::{derive_official_key, derive_video_key};
use truchain::state::video::VideoStatus;
use truchain::{endorse_video, register_official, register_video};

fn filled_key(n: u8) -> Pubkey {
    Pubkey::new(vec![n; 32])
}

/// A ledger holding official id 1 with authority 10 and endorsers 1, 2, 3,
/// and one video under hash 0xAA with cid "Qm..." at t=1000. Returns the
/// ledger and the video's key.
fn seeded_ledger() -> (Ledger, Pubkey) {
    let mut ledger = Ledger::new();
    let r = register_official(
        &mut ledger,
        &RegisterOfficial { admin: filled_key(9) },
        1,
        &b"Dept".to_vec(),
        filled_key(10),
        vec![filled_key(1), filled_key(2), filled_key(3)],
    );
    assert_eq!(r, Ok(()));
    let (official_key, _) = derive_official_key(1);
    let hash = vec![0xAAu8; 32];
    let (video_key, _) = derive_video_key(&official_key, &hash);
    let r = register_video(
        &mut ledger,
        &RegisterVideo { official: official_key.dup(), authority: filled_key(10) },
        &hash,
        &b"Qm1234".to_vec(),
        1000,
    );
    assert_eq!(r, Ok(()));
    (ledger, video_key)
}

fn endorse(ledger: &mut Ledger, video_key: &Pubkey, endorser: Pubkey, yes: bool) -> Result<(), TruChainError> {
    let (official_key, _) = derive_official_key(1);
    endorse_video(
        ledger,
        &EndorseVideo { official: official_key, video: video_key.dup(), endorser },
        yes,
    )
}

#[test]
fn s1_authentic_at_two_votes() {
    let (mut ledger, video_key) = seeded_ledger();
    assert_eq!(ledger.videos[0].record.status, VideoStatus::Unverified);
    assert_eq!(ledger.videos[0].record.votes.len(), 0);
    assert_eq!(ledger.videos[0].record.timestamp, 1000);

    assert_eq!(endorse(&mut ledger, &video_key, filled_key(1), true), Ok(()));
    assert_eq!(ledger.videos[0].record.status, VideoStatus::Unverified);
    assert_eq!(ledger.videos[0].record.votes.len(), 1);
    assert!(ledger.videos[0].record.votes[0].is_authentic);

    assert_eq!(endorse(&mut ledger, &video_key, filled_key(2), true), Ok(()));
    assert_eq!(ledger.videos[0].record.status, VideoStatus::Authentic);
    assert_eq!(ledger.videos[0].record.votes.len(), 2);
}

#[test]
fn s2_disputed_at_two_votes() {
    let (mut ledger, video_key) = seeded_ledger();
    assert_eq!(endorse(&mut ledger, &video_key, filled_key(1), false), Ok(()));
    assert_eq!(ledger.videos[0].record.status, VideoStatus::Unverified);
    assert_eq!(endorse(&mut ledger, &video_key, filled_key(3), false), Ok(()));
    assert_eq!(ledger.videos[0].record.status, VideoStatus::Disputed);
}

#[test]
fn s3_third_vote_cannot_flip() {
    let (mut ledger, video_key) = seeded_ledger();
    assert_eq!(endorse(&mut ledger, &video_key, filled_key(1), true), Ok(()));
    assert_eq!(endorse(&mut ledger, &video_key, filled_key(2), true), Ok(()));
    assert_eq!(ledger.videos[0].record.status, VideoStatus::Authentic);
    assert_eq!(endorse(&mut ledger, &video_key, filled_key(3), false), Ok(()));
    assert_eq!(ledger.videos[0].record.votes.len(), 3);
    assert_eq!(ledger.videos[0].record.status, VideoStatus::Authentic);
}

#[test]
fn s4_unauthorized_endorser_rejected() {
    let (mut ledger, video_key) = seeded_ledger();
    let r = endorse(&mut ledger, &video_key, filled_key(77), true);
    assert_eq!(r, Err(TruChainError::UnauthorizedEndorser));
    assert_eq!(ledger.videos[0].record.votes.len(), 0);
    assert_eq!(ledger.videos[0].record.status, VideoStatus::Unverified);
}

#[test]
fn s5_double_vote_rejected() {
    let (mut ledger, video_key) = seeded_ledger();
    assert_eq!(endorse(&mut ledger, &video_key, filled_key(1), true), Ok(()));
    let r = endorse(&mut ledger, &video_key, filled_key(1), false);
    assert_eq!(r, Err(TruChainError::AlreadyVoted));
    assert_eq!(ledger.videos[0].record.votes.len(), 1);
    assert!(ledger.videos[0].record.votes[0].is_authentic);
}

#[test]
fn s6_non_authority_cannot_register() {
    let mut ledger = Ledger::new();
    let r = register_official(
        &mut ledger,
        &RegisterOfficial { admin: filled_key(9) },
        1,
        &b"Dept".to_vec(),
        filled_key(10),
        vec![filled_key(1), filled_key(2), filled_key(3)],
    );
    assert_eq!(r, Ok(()));
    let (official_key, _) = derive_official_key(1);
    let r = register_video(
        &mut ledger,
        &RegisterVideo { official: official_key, authority: filled_key(11) },
        &vec![0xAAu8; 32],
        &b"Qm1234".to_vec(),
        1000,
    );
    assert_eq!(r, Err(TruChainError::UnauthorizedOfficial));
    assert_eq!(ledger.videos.len(), 0);
}

#[test]
fn endorse_wrong_official_reference_rejected() {
    let (mut ledger, video_key) = seeded_ledger();
    let r = register_official(
        &mut ledger,
        &RegisterOfficial { admin: filled_key(9) },
        2,
        &b"Other".to_vec(),
        filled_key(20),
        vec![filled_key(4), filled_key(5), filled_key(6)],
    );
    assert_eq!(r, Ok(()));
    let (other_key, _) = derive_official_key(2);
    let r = endorse_video(
        &mut ledger,
        &EndorseVideo { official: other_key, video: video_key, endorser: filled_key(4) },
        true,
    );
    assert_eq!(r, Err(TruChainError::UnauthorizedOfficial));
    assert_eq!(ledger.videos[0].record.votes.len(), 0);
}
