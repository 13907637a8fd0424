//! The persistent identity of a single content source: its caller-chosen id,
//! display name, registering authority and fixed committee of three
//! endorsers.

use vstd::prelude::*;

use crate::key::{spec_keys_distinct, spec_valid_endorser_key, Pubkey, KEY_LEN};

verus! {

/// Fixed width of the stored, zero-padded name buffer.
pub const NAME_LEN: usize = 32;

/// Number of keys on an official's committee.
pub const ENDORSER_COUNT: usize = 3;

/// Allocated size of an Official record: discriminator, id, name, authority,
/// three endorsers, bump.
pub const OFFICIAL_SIZE: usize = 8 + 8 + 32 + 32 + 32 * 3 + 1;

/// The record identifying one official.
pub struct Official {
    /// Caller-chosen unique identifier.
    pub official_id: u64,
    /// UTF-8 name bytes, zero-padded to the fixed 32-byte buffer.
    pub name: Vec<u8>,
    /// The key allowed to register videos for this official.
    pub authority: Pubkey,
    /// The fixed committee of three endorser keys, in the order provided.
    pub endorsers: Vec<Pubkey>,
    /// Derivation byte emitted when the record key was derived.
    pub bump: u8,
}

/// The mathematical shape of an Official record.
pub ghost struct OfficialView {
    pub official_id: u64,
    pub name: Seq<u8>,
    pub authority: Seq<u8>,
    pub endorsers: Seq<Seq<u8>>,
    pub bump: u8,
}

impl View for Official {
    type V = OfficialView;

    open spec fn view(&self) -> OfficialView {
        OfficialView {
            official_id: self.official_id,
            name: self.name@,
            authority: self.authority@,
            endorsers: self.endorsers@.map_values(|k: Pubkey| k@),
            bump: self.bump,
        }
    }
}

impl OfficialView {
    /// Structural well-formedness: every fixed-width field has its width.
    pub open spec fn wf(&self) -> bool {
        &&& self.name.len() == NAME_LEN
        &&& self.authority.len() == KEY_LEN
        &&& self.endorsers.len() == ENDORSER_COUNT
        &&& forall|i: int|
            0 <= i < self.endorsers.len() ==> (#[trigger] self.endorsers[i]).len() == KEY_LEN
    }

    /// The committee invariant: three pairwise-distinct keys, none the zero
    /// key or the reserved system sentinel.
    pub open spec fn committee_ok(&self) -> bool {
        &&& self.endorsers.len() == ENDORSER_COUNT
        &&& spec_keys_distinct(self.endorsers)
        &&& forall|i: int|
            0 <= i < self.endorsers.len() ==> spec_valid_endorser_key(
                #[trigger] self.endorsers[i],
            )
    }

    /// Whether `k` is one of this official's endorsers.
    pub open spec fn is_endorser(&self, k: Seq<u8>) -> bool {
        exists|i: int| 0 <= i < self.endorsers.len() && self.endorsers[i] == k
    }
}

impl Official {
    /// Structural well-formedness of the executable record.
    pub open spec fn wf(&self) -> bool {
        self@.wf()
    }

    /// Whether the signer key `k` is one of this official's endorsers.
    pub fn has_endorser(&self, k: &Pubkey) -> (r: bool)
        ensures
            r == self@.is_endorser(k@),
    {
        let mut i: usize = 0;
        while i < self.endorsers.len()
            invariant
                i <= self.endorsers@.len(),
                forall|j: int| 0 <= j < i ==> self@.endorsers[j] != k@,
        decreases self.endorsers@.len() - i,
        {
            if self.endorsers[i].eq_key(k) {
                assert(self@.endorsers[i as int] == k@);
                return true;
            }
            i = i + 1;
        }
        false
    }
}

} // verus!
