//! The 32-byte account key: the identity the core compares and stores. The
//! identity layer supplies the actual cryptography; the core only reads keys
//! as plain bytes.

use vstd::prelude::*;

use crate::bytes::{bytes_eq, copy_bytes, zero_bytes};

verus! {

/// Width of an account key in bytes.
pub const KEY_LEN: usize = 32;

/// A public key as the core sees it: 32 opaque bytes.
pub struct Pubkey {
    pub bytes: Vec<u8>,
}

impl View for Pubkey {
    type V = Seq<u8>;

    open spec fn view(&self) -> Seq<u8> {
        self.bytes@
    }
}

/// The all-zero key, never a valid endorser.
pub open spec fn spec_zero_key() -> Seq<u8> {
    zero_bytes(KEY_LEN as nat)
}

/// The reserved system-program sentinel of the host platform, whose address
/// is the zero byte pattern; also never a valid endorser.
pub open spec fn spec_system_key() -> Seq<u8> {
    zero_bytes(KEY_LEN as nat)
}

/// A key an official's committee may contain: well-formed, not the zero key
/// and not the system sentinel.
pub open spec fn spec_valid_endorser_key(k: Seq<u8>) -> bool {
    &&& k.len() == KEY_LEN
    &&& k != spec_zero_key()
    &&& k != spec_system_key()
}

impl Pubkey {
    /// A key is well formed when it holds exactly 32 bytes.
    pub open spec fn wf(&self) -> bool {
        self@.len() == KEY_LEN
    }

    /// Wraps raw bytes as a key.
    pub fn new(bytes: Vec<u8>) -> (r: Pubkey)
        ensures
            r@ == bytes@,
    {
        Pubkey { bytes }
    }

    /// An owned copy of this key.
    pub fn dup(&self) -> (r: Pubkey)
        ensures
            r@ == self@,
    {
        Pubkey { bytes: copy_bytes(&self.bytes) }
    }

    /// Whether two keys hold the same bytes.
    pub fn eq_key(&self, other: &Pubkey) -> (r: bool)
        ensures
            r == (self@ == other@),
    {
        bytes_eq(&self.bytes, &other.bytes)
    }

    /// Whether this key is the all-zero key.
    pub fn is_zero(&self) -> (r: bool)
        ensures
            r == (self@ == spec_zero_key()),
    {
        if self.bytes.len() != KEY_LEN {
            assert(self@ !~= spec_zero_key());
            return false;
        }
        let mut i: usize = 0;
        while i < KEY_LEN
            invariant
                i <= KEY_LEN,
                self@.len() == KEY_LEN,
                forall|j: int| 0 <= j < i ==> self@[j] == 0u8,
            decreases KEY_LEN - i,
        {
            if self.bytes[i] != 0u8 {
                assert(self@ !~= spec_zero_key());
                return false;
            }
            i = i + 1;
        }
        assert(self@ =~= spec_zero_key());
        true
    }

    /// Whether this key may sit on an official's committee.
    pub fn is_valid_endorser_key(&self) -> (r: bool)
        ensures
            r == spec_valid_endorser_key(self@),
    {
        if self.bytes.len() != KEY_LEN {
            return false;
        }
        // The system sentinel shares the zero byte pattern, so one
        // comparison rules out both reserved keys.
        !self.is_zero()
    }
}

/// A sequence of keys with no repeated key.
pub open spec fn spec_keys_distinct(keys: Seq<Seq<u8>>) -> bool {
    forall|i: int, j: int| 0 <= i < j < keys.len() ==> keys[i] != keys[j]
}

} // verus!
