use truchain::errors::TruChainError;
use truchain::instructions::register_official::RegisterOfficial;
use truchain::instructions::register_video::RegisterVideo;
use truchain::key::Pubkey;
use truchain::ledger::Ledger;
use truchain::pda::{derive_official_key, derive_video_key};
use truchain::{register_official, register_video};

fn byte_key(n: u8) -> Pubkey {
    Pubkey::new(vec![n; 32])
}

fn register_default_official(ledger: &mut Ledger, id: u64) -> Result<(), TruChainError> {
    register_official(
        ledger,
        &RegisterOfficial { admin: byte_key(9) },
        id,
        &b"Dept".to_vec(),
        byte_key(10),
        vec![byte_key(1), byte_key(2), byte_key(3)],
    )
}

#[test]
fn duplicate_official_id_rejected() {
    let mut ledger = Ledger::new();
    assert_eq!(register_default_official(&mut ledger, 1), Ok(()));
    let r = register_official(
        &mut ledger,
        &RegisterOfficial { admin: byte_key(8) },
        1,
        &b"Another".to_vec(),
        byte_key(11),
        vec![byte_key(4), byte_key(5), byte_key(6)],
    );
    assert_eq!(r, Err(TruChainError::VideoAlreadyExists));
    assert_eq!(ledger.officials.len(), 1);
}

#[test]
fn duplicate_video_rejected() {
    let mut ledger = Ledger::new();
    assert_eq!(register_default_official(&mut ledger, 1), Ok(()));
    let (official_key, _) = derive_official_key(1);
    let hash = vec![0x55u8; 32];
    let accounts = RegisterVideo { official: official_key.dup(), authority: byte_key(10) };
    assert_eq!(register_video(&mut ledger, &accounts, &hash, &b"QmA".to_vec(), 1), Ok(()));
    let r = register_video(&mut ledger, &accounts, &hash, &b"QmB".to_vec(), 2);
    assert_eq!(r, Err(TruChainError::VideoAlreadyExists));
    assert_eq!(ledger.videos.len(), 1);
}

#[test]
fn same_official_may_register_two_hashes() {
    let mut ledger = Ledger::new();
    assert_eq!(register_default_official(&mut ledger, 1), Ok(()));
    let (official_key, _) = derive_official_key(1);
    let accounts = RegisterVideo { official: official_key.dup(), authority: byte_key(10) };
    assert_eq!(register_video(&mut ledger, &accounts, &vec![0x55u8; 32], &b"QmA".to_vec(), 1), Ok(()));
    assert_eq!(register_video(&mut ledger, &accounts, &vec![0x56u8; 32], &b"QmB".to_vec(), 2), Ok(()));
    assert_eq!(ledger.videos.len(), 2);
}

#[test]
fn derived_keys_deterministic_and_distinct() {
    let (k1a, b1a) = derive_official_key(1);
    let (k1b, b1b) = derive_official_key(1);
    let (k2, _) = derive_official_key(2);
    assert_eq!(k1a.bytes, k1b.bytes);
    assert_eq!(b1a, b1b);
    assert_ne!(k1a.bytes, k2.bytes);
    assert_eq!(k1a.bytes.len(), 32);
    // The derived key is not the seed material echoed back.
    assert_ne!(k1a.bytes, vec![1u8; 32]);

    let hash = vec![0x55u8; 32];
    let (v1, _) = derive_video_key(&k1a, &hash);
    let (v2, _) = derive_video_key(&k2, &hash);
    assert_ne!(v1.bytes, v2.bytes);
    assert_ne!(v1.bytes, k1a.bytes);
}

#[test]
fn empty_name_rejected() {
    let mut ledger = Ledger::new();
    let r = register_official(
        &mut ledger,
        &RegisterOfficial { admin: byte_key(9) },
        1,
        &Vec::new(),
        byte_key(10),
        vec![byte_key(1), byte_key(2), byte_key(3)],
    );
    assert_eq!(r, Err(TruChainError::InvalidOfficialName));
    assert_eq!(ledger.officials.len(), 0);
}

#[test]
fn long_name_rejected() {
    let mut ledger = Ledger::new();
    let r = register_official(
        &mut ledger,
        &RegisterOfficial { admin: byte_key(9) },
        1,
        &vec![0x41u8; 33],
        byte_key(10),
        vec![byte_key(1), byte_key(2), byte_key(3)],
    );
    assert_eq!(r, Err(TruChainError::InvalidOfficialName));
}

#[test]
fn name_of_32_bytes_accepted_and_padded_name_stored() {
    let mut ledger = Ledger::new();
    let r = register_official(
        &mut ledger,
        &RegisterOfficial { admin: byte_key(9) },
        1,
        &vec![0x41u8; 32],
        byte_key(10),
        vec![byte_key(1), byte_key(2), byte_key(3)],
    );
    assert_eq!(r, Ok(()));
    assert_eq!(ledger.officials[0].record.name, vec![0x41u8; 32]);

    let r = register_official(
        &mut ledger,
        &RegisterOfficial { admin: byte_key(9) },
        2,
        &b"Ab".to_vec(),
        byte_key(10),
        vec![byte_key(1), byte_key(2), byte_key(3)],
    );
    assert_eq!(r, Ok(()));
    let mut expected = b"Ab".to_vec();
    expected.extend(vec![0u8; 30]);
    assert_eq!(ledger.officials[1].record.name, expected);
}

#[test]
fn wrong_endorser_count_rejected() {
    let mut ledger = Ledger::new();
    let r = register_official(
        &mut ledger,
        &RegisterOfficial { admin: byte_key(9) },
        1,
        &b"Dept".to_vec(),
        byte_key(10),
        vec![byte_key(1), byte_key(2)],
    );
    assert_eq!(r, Err(TruChainError::InvalidEndorserCount));
}

#[test]
fn duplicate_endorsers_rejected() {
    let mut ledger = Ledger::new();
    let r = register_official(
        &mut ledger,
        &RegisterOfficial { admin: byte_key(9) },
        1,
        &b"Dept".to_vec(),
        byte_key(10),
        vec![byte_key(1), byte_key(2), byte_key(1)],
    );
    assert_eq!(r, Err(TruChainError::DuplicateEndorsers));
}

#[test]
fn zero_endorser_rejected() {
    let mut ledger = Ledger::new();
    let r = register_official(
        &mut ledger,
        &RegisterOfficial { admin: byte_key(9) },
        1,
        &b"Dept".to_vec(),
        byte_key(10),
        vec![byte_key(1), byte_key(2), byte_key(0)],
    );
    assert_eq!(r, Err(TruChainError::InvalidEndorser));
}

#[test]
fn empty_cid_rejected() {
    let mut ledger = Ledger::new();
    assert_eq!(register_default_official(&mut ledger, 1), Ok(()));
    let (official_key, _) = derive_official_key(1);
    let accounts = RegisterVideo { official: official_key, authority: byte_key(10) };
    let r = register_video(&mut ledger, &accounts, &vec![0x55u8; 32], &Vec::new(), 1);
    assert_eq!(r, Err(TruChainError::InvalidIpfsCid));
}

#[test]
fn long_cid_rejected() {
    let mut ledger = Ledger::new();
    assert_eq!(register_default_official(&mut ledger, 1), Ok(()));
    let (official_key, _) = derive_official_key(1);
    let accounts = RegisterVideo { official: official_key, authority: byte_key(10) };
    let r = register_video(&mut ledger, &accounts, &vec![0x55u8; 32], &vec![0x51u8; 65], 1);
    assert_eq!(r, Err(TruChainError::InvalidIpfsCid));
}

#[test]
fn unknown_official_cannot_register_video() {
    let mut ledger = Ledger::new();
    let (official_key, _) = derive_official_key(1);
    let accounts = RegisterVideo { official: official_key, authority: byte_key(10) };
    let r = register_video(&mut ledger, &accounts, &vec![0x55u8; 32], &b"QmA".to_vec(), 1);
    assert_eq!(r, Err(TruChainError::UnauthorizedOfficial));
}

#[test]
fn registered_video_records_clock_reading() {
    let mut ledger = Ledger::new();
    assert_eq!(register_default_official(&mut ledger, 1), Ok(()));
    let (official_key, _) = derive_official_key(1);
    let accounts = RegisterVideo { official: official_key, authority: byte_key(10) };
    assert_eq!(register_video(&mut ledger, &accounts, &vec![0x55u8; 32], &b"QmA".to_vec(), -7), Ok(()));
    assert_eq!(ledger.videos[0].record.timestamp, -7);
    let mut expected_cid = b"QmA".to_vec();
    expected_cid.extend(vec![0u8; 61]);
    assert_eq!(ledger.videos[0].record.ipfs_cid, expected_cid);
}
