//! Registering a new official: validates the name and the endorser
//! committee, derives the record key from the official id, and creates the
//! record if the key is free.

use vstd::prelude::*;

use crate::bytes::{copy_bytes, push_zero_bytes, zero_pad};
use crate::errors::TruChainError;
use crate::key::{spec_keys_distinct, spec_valid_endorser_key, Pubkey, KEY_LEN};
use crate::ledger::{Ledger, LedgerView, OfficialEntry, OfficialEntryView};
use crate::pda::{derive_official_key, spec_official_bump, spec_official_key};
use crate::state::official::{Official, OfficialView, ENDORSER_COUNT, NAME_LEN};

verus! {

/// The account keys a RegisterOfficial operation names: the bootstrap payer
/// that signs and funds the allocation. It is not consulted by any validity
/// rule.
pub struct RegisterOfficial {
    pub admin: Pubkey,
}

/// Which outcome the operation has on this ledger and these arguments: the
/// first failing predicate, in order, or acceptance.
pub open spec fn spec_register_official_check(
    l: LedgerView,
    official_id: u64,
    name: Seq<u8>,
    endorsers: Seq<Seq<u8>>,
) -> Result<(), TruChainError> {
    if !(1 <= name.len() <= NAME_LEN) {
        Err(TruChainError::InvalidOfficialName)
    } else if endorsers.len() != ENDORSER_COUNT {
        Err(TruChainError::InvalidEndorserCount)
    } else if !spec_keys_distinct(endorsers) {
        Err(TruChainError::DuplicateEndorsers)
    } else if !(forall|i: int|
        0 <= i < endorsers.len() ==> spec_valid_endorser_key(#[trigger] endorsers[i])) {
        Err(TruChainError::InvalidEndorser)
    } else if l.has_official_key(spec_official_key(official_id)) {
        Err(TruChainError::VideoAlreadyExists)
    } else {
        Ok(())
    }
}

/// The record an accepted operation creates.
pub open spec fn spec_new_official(
    official_id: u64,
    name: Seq<u8>,
    authority: Seq<u8>,
    endorsers: Seq<Seq<u8>>,
) -> OfficialView {
    OfficialView {
        official_id,
        name: zero_pad(name, NAME_LEN as nat),
        authority,
        endorsers,
        bump: spec_official_bump(official_id),
    }
}

/// Registering the same official id twice cannot succeed: once an accepted
/// registration has put a record under the id's derived key, a second
/// RegisterOfficial with that id is rejected, whatever its other arguments.
pub proof fn lemma_register_official_unique(
    l0: LedgerView,
    l1: LedgerView,
    official_id: u64,
    name1: Seq<u8>,
    authority1: Seq<u8>,
    endorsers1: Seq<Seq<u8>>,
    name2: Seq<u8>,
    endorsers2: Seq<Seq<u8>>,
)
    requires
        spec_register_official_check(l0, official_id, name1, endorsers1) is Ok,
        l1.officials == l0.officials.push(
            OfficialEntryView {
                key: spec_official_key(official_id),
                record: spec_new_official(official_id, name1, authority1, endorsers1),
            },
        ),
    ensures
        !(spec_register_official_check(l1, official_id, name2, endorsers2) is Ok),
{
    let k = spec_official_key(official_id);
    assert(l1.officials[l0.officials.len() as int].key == k);
    assert(l1.has_official_key(k));
}

/// Registers an official: on acceptance the ledger gains exactly one
/// Official record, stored under the key derived from `official_id`; on any
/// rejection the ledger is unchanged.
#[verifier::loop_isolation(false)]
pub fn handler(
    ledger: &mut Ledger,
    accounts: &RegisterOfficial,
    official_id: u64,
    name: &Vec<u8>,
    authority: Pubkey,
    endorsers: Vec<Pubkey>,
) -> (r: Result<(), TruChainError>)
    requires
        old(ledger)@.wf(),
        authority@.len() == KEY_LEN,
        forall|i: int| 0 <= i < endorsers@.len() ==> (#[trigger] endorsers@[i])@.len() == KEY_LEN,
    ensures
        final(ledger)@.wf(),
        r == spec_register_official_check(
            old(ledger)@,
            official_id,
            name@,
            endorsers@.map_values(|k: Pubkey| k@),
        ),
        r is Err ==> final(ledger)@ == old(ledger)@,
        r is Ok ==> final(ledger)@.videos == old(ledger)@.videos && final(ledger)@.officials
            == old(ledger)@.officials.push(
            (OfficialEntryView {
                key: spec_official_key(official_id),
                record: spec_new_official(
                    official_id,
                    name@,
                    authority@,
                    endorsers@.map_values(|k: Pubkey| k@),
                ),
            }),
        ),
{
    let ghost evs = endorsers@.map_values(|k: Pubkey| k@);

    if name.len() < 1 || name.len() > NAME_LEN {
        return Err(TruChainError::InvalidOfficialName);
    }
    if endorsers.len() != ENDORSER_COUNT {
        return Err(TruChainError::InvalidEndorserCount);
    }

    let n = endorsers.len();
    let mut i: usize = 0;
    while i < n
        invariant
            n == endorsers@.len(),
            evs == endorsers@.map_values(|k: Pubkey| k@),
            i <= n,
            forall|a: int, b: int| 0 <= a < b < n && a < i ==> evs[a] != evs[b],
        decreases n - i,
    {
        let mut j: usize = i + 1;
        while j < n
            invariant
                n == endorsers@.len(),
                evs == endorsers@.map_values(|k: Pubkey| k@),
                i < n,
                i + 1 <= j <= n,
                forall|a: int, b: int| 0 <= a < b < n && a < i ==> evs[a] != evs[b],
                forall|b: int| i < b < j ==> evs[i as int] != evs[b],
            decreases n - j,
        {
            if endorsers[i].eq_key(&endorsers[j]) {
                assert(evs[i as int] == evs[j as int]);
                assert(!spec_keys_distinct(evs));
                return Err(TruChainError::DuplicateEndorsers);
            }
            j = j + 1;
        }
        i = i + 1;
    }
    assert(spec_keys_distinct(evs));

    let mut i: usize = 0;
    while i < n
        invariant
            n == endorsers@.len(),
            evs == endorsers@.map_values(|k: Pubkey| k@),
            i <= n,
            forall|j: int| 0 <= j < i ==> spec_valid_endorser_key(#[trigger] evs[j]),
        decreases n - i,
    {
        if !endorsers[i].is_valid_endorser_key() {
            assert(!spec_valid_endorser_key(evs[i as int]));
            return Err(TruChainError::InvalidEndorser);
        }
        i = i + 1;
    }

    let (key, bump) = derive_official_key(official_id);
    match ledger.find_official(&key) {
        Some(_) => {
            return Err(TruChainError::VideoAlreadyExists);
        },
        None => {},
    }

    let mut padded = copy_bytes(name);
    push_zero_bytes(&mut padded, NAME_LEN - name.len());
    assert(padded@ == zero_pad(name@, NAME_LEN as nat));

    let record = Official { official_id, name: padded, authority, endorsers, bump };
    let entry = OfficialEntry { key, record };
    let ghost e = entry@;
    let ghost l0 = ledger@;
    ledger.officials.push(entry);

    proof {
        let l1 = ledger@;
        assert(l1.officials =~= l0.officials.push(e));
        assert(l1.videos =~= l0.videos);
        assert(e.record =~= spec_new_official(official_id, name@, authority@, evs));

        // The new entry is well formed under its derived key.
        assert(e.wf());

        // No stored official held the new key, so keys stay distinct.
        assert(forall|j: int| 0 <= j < l0.officials.len() ==> l0.officials[j].key != e.key);
        assert(forall|i2: int, j2: int|
            0 <= i2 < j2 < l1.officials.len() ==> (#[trigger] l1.officials[i2]).key != (
            #[trigger] l1.officials[j2]).key);

        // Every stored video still sees its owner unchanged.
        assert forall|v: int| 0 <= v < l1.videos.len() implies l1.has_official_key(
            (#[trigger] l1.videos[v]).record.official,
        ) && l1.videos[v].record.votes_ok(
            l1.official_at(l1.videos[v].record.official),
        ) by {
            let off = l0.videos[v].record.official;
            assert(l0.has_official_key(off));
            let j0 = l0.official_idx(off);
            assert(l1.officials[j0].key == off);
            assert(l1.has_official_key(off));
            crate::ledger::lemma_official_at(l1, j0);
            crate::ledger::lemma_official_at(l0, j0);
            assert(l1.official_at(off) == l0.official_at(off));
        }
        assert(l1.wf());
    }
    Ok(())
}

} // verus!
