use truchain::codec::{
    deserialize_official, deserialize_video, serialize_official, serialize_video,
};
use truchain::key::Pubkey;
use truchain::state::official::Official;
use truchain::state::video::{Video, VideoStatus, Vote};

fn sample_official() -> Official {
    let mut name = b"Dept of Records".to_vec();
    name.resize(32, 0);
    Official {
        official_id: 0x0102030405060708,
        name,
        authority: Pubkey::new(vec![10u8; 32]),
        endorsers: vec![
            Pubkey::new(vec![1u8; 32]),
            Pubkey::new(vec![2u8; 32]),
            Pubkey::new(vec![3u8; 32]),
        ],
        bump: 253,
    }
}

fn sample_video(votes: Vec<Vote>, status: VideoStatus) -> Video {
    let mut cid = b"QmSampleCid".to_vec();
    cid.resize(64, 0);
    Video {
        official: Pubkey::new(vec![7u8; 32]),
        video_hash: vec![0x55u8; 32],
        ipfs_cid: cid,
        timestamp: -1234567890,
        votes,
        status,
        bump: 252,
    }
}

#[test]
fn official_round_trip_is_bit_identical() {
    let o = sample_official();
    let bytes = serialize_official(&o);
    assert_eq!(bytes.len(), 177);
    let back = deserialize_official(&bytes).expect("valid layout");
    assert_eq!(back.official_id, o.official_id);
    assert_eq!(back.name, o.name);
    assert_eq!(back.authority.bytes, o.authority.bytes);
    assert_eq!(back.endorsers.len(), 3);
    for i in 0..3 {
        assert_eq!(back.endorsers[i].bytes, o.endorsers[i].bytes);
    }
    assert_eq!(back.bump, o.bump);
    let again = serialize_official(&back);
    assert_eq!(again, bytes);
}

#[test]
fn official_layout_field_positions() {
    let o = sample_official();
    let bytes = serialize_official(&o);
    // id stored little-endian after the 8-byte discriminator
    assert_eq!(bytes[8], 0x08);
    assert_eq!(bytes[15], 0x01);
    assert_eq!(&bytes[16..20], b"Dept");
    assert_eq!(bytes[48], 10);
    assert_eq!(bytes[80], 1);
    assert_eq!(bytes[112], 2);
    assert_eq!(bytes[144], 3);
    assert_eq!(bytes[176], 253);
}

#[test]
fn video_round_trip_with_votes() {
    let votes = vec![
        Vote { endorser: Pubkey::new(vec![1u8; 32]), is_authentic: true },
        Vote { endorser: Pubkey::new(vec![2u8; 32]), is_authentic: false },
    ];
    let v = sample_video(votes, VideoStatus::Unverified);
    let bytes = serialize_video(&v);
    assert_eq!(bytes.len(), 249);
    let back = deserialize_video(&bytes).expect("valid layout");
    assert_eq!(back.official.bytes, v.official.bytes);
    assert_eq!(back.video_hash, v.video_hash);
    assert_eq!(back.ipfs_cid, v.ipfs_cid);
    assert_eq!(back.timestamp, v.timestamp);
    assert_eq!(back.votes.len(), 2);
    assert_eq!(back.votes[0].endorser.bytes, vec![1u8; 32]);
    assert!(back.votes[0].is_authentic);
    assert_eq!(back.votes[1].endorser.bytes, vec![2u8; 32]);
    assert!(!back.votes[1].is_authentic);
    assert_eq!(back.status, VideoStatus::Unverified);
    assert_eq!(back.bump, v.bump);
    let again = serialize_video(&back);
    assert_eq!(again, bytes);
}

#[test]
fn video_round_trip_without_votes() {
    let v = sample_video(Vec::new(), VideoStatus::Unverified);
    let bytes = serialize_video(&v);
    assert_eq!(bytes.len(), 249);
    // empty vote list: zero count and a zero-filled reservation
    assert_eq!(&bytes[144..148], &[0u8, 0, 0, 0]);
    assert!(bytes[148..247].iter().all(|b| *b == 0));
    let back = deserialize_video(&bytes).expect("valid layout");
    assert_eq!(back.votes.len(), 0);
    assert_eq!(serialize_video(&back), bytes);
}

#[test]
fn video_layout_field_positions() {
    let votes = vec![Vote { endorser: Pubkey::new(vec![4u8; 32]), is_authentic: true }];
    let v = sample_video(votes, VideoStatus::Authentic);
    let bytes = serialize_video(&v);
    assert_eq!(bytes[8], 7); // official key
    assert_eq!(bytes[40], 0x55); // hash
    assert_eq!(&bytes[72..74], b"Qm"); // cid
    assert_eq!(&bytes[144..148], &[1u8, 0, 0, 0]); // vote count u32 le
    assert_eq!(bytes[148], 4); // first vote endorser
    assert_eq!(bytes[180], 1); // first vote flag
    assert!(bytes[181..247].iter().all(|b| *b == 0)); // unused slots
    assert_eq!(bytes[247], 1); // status byte: Authentic
    assert_eq!(bytes[248], 252); // bump
}

#[test]
fn deserialize_official_rejects_bad_input() {
    let o = sample_official();
    let bytes = serialize_official(&o);

    let mut short = bytes.clone();
    short.pop();
    assert!(deserialize_official(&short).is_none());

    let mut bad_disc = bytes.clone();
    bad_disc[0] ^= 0xFF;
    assert!(deserialize_official(&bad_disc).is_none());

    // a video layout is not an official layout
    let v = sample_video(Vec::new(), VideoStatus::Unverified);
    assert!(deserialize_official(&serialize_video(&v)).is_none());
}

#[test]
fn deserialize_video_rejects_bad_input() {
    let v = sample_video(
        vec![Vote { endorser: Pubkey::new(vec![4u8; 32]), is_authentic: true }],
        VideoStatus::Unverified,
    );
    let bytes = serialize_video(&v);

    let mut short = bytes.clone();
    short.pop();
    assert!(deserialize_video(&short).is_none());

    let mut bad_disc = bytes.clone();
    bad_disc[0] ^= 0xFF;
    assert!(deserialize_video(&bad_disc).is_none());

    let mut bad_count = bytes.clone();
    bad_count[144] = 4;
    assert!(deserialize_video(&bad_count).is_none());

    let mut bad_flag = bytes.clone();
    bad_flag[180] = 2;
    assert!(deserialize_video(&bad_flag).is_none());

    let mut bad_pad = bytes.clone();
    bad_pad[200] = 1;
    assert!(deserialize_video(&bad_pad).is_none());

    let mut bad_status = bytes.clone();
    bad_status[247] = 3;
    assert!(deserialize_video(&bad_status).is_none());

    // an official layout is not a video layout
    assert!(deserialize_video(&serialize_official(&sample_official())).is_none());
}
