//! The closed set of failure reasons an operation can surface. Every error is
//! terminal for its operation and leaves the ledger unchanged.

use vstd::prelude::*;

verus! {

/// Why an operation was rejected.
#[derive(Clone, Copy, PartialEq, Eq, Structural, Debug)]
pub enum TruChainError {
    /// The signer is not the official's authority, or the video references a
    /// different official than the one supplied.
    UnauthorizedOfficial,
    /// The endorse signer is not among the official's endorsers.
    UnauthorizedEndorser,
    /// The endorse signer already has a vote on this video.
    AlreadyVoted,
    /// The video already holds the most votes it can.
    TooManyVotes,
    /// The derived record key already holds a record.
    VideoAlreadyExists,
    /// The official name is empty or longer than 32 bytes.
    InvalidOfficialName,
    /// The content identifier is empty or longer than 64 bytes.
    InvalidIpfsCid,
    /// The endorser list does not hold exactly 3 keys.
    InvalidEndorserCount,
    /// The endorser list repeats a key.
    DuplicateEndorsers,
    /// An endorser key is the zero key or the reserved system sentinel.
    InvalidEndorser,
}

} // verus!
