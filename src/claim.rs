use vstd::prelude::*;

use crate::address::{
    be_bytes, be_bytes_spec, bytes_to_vec, found_view, keys_eq, program_address_of,
    try_find_program_address,
};
use crate::error::TokenBridgeError;

verus! {

/// The identity of a governance message: where it came from and its sequence.
#[derive(Debug, Clone, Copy)]
pub struct ClaimKey {
    pub emitter_chain: u16,
    pub emitter_address: [u8; 32],
    pub sequence: u64,
}

/// The seeds of the claim record of `key`: the emitter address, then the emitter chain
/// and the sequence, both big-endian.
pub open spec fn claim_seeds(key: ClaimKey) -> Seq<Seq<u8>> {
    seq![
        key.emitter_address@,
        be_bytes_spec(key.emitter_chain as nat, 2),
        be_bytes_spec(key.sequence as nat, 8),
    ]
}

/// Where the claim record of `key` lives for the program `program_id`.
pub open spec fn claim_address_of(key: ClaimKey, program_id: Seq<u8>) -> Option<(Seq<u8>, u8)> {
    program_address_of(claim_seeds(key), program_id)
}

/// Derives where the claim record of `key` lives for the program `program_id`.
pub fn derive_claim_address(key: &ClaimKey, program_id: &[u8; 32]) -> (r: Option<([u8; 32], u8)>)
    ensures
        found_view(r) == claim_address_of(*key, program_id@),
{
    let address = bytes_to_vec(&key.emitter_address);
    let chain = be_bytes(key.emitter_chain as u64, 2);
    let sequence = be_bytes(key.sequence, 8);
    assert(address.deep_view() =~= address@);
    assert(chain.deep_view() =~= chain@);
    assert(sequence.deep_view() =~= sequence@);
    let mut seeds: Vec<Vec<u8>> = Vec::new();
    seeds.push(address);
    seeds.push(chain);
    seeds.push(sequence);
    assert(seeds.deep_view() =~= claim_seeds(*key));
    try_find_program_address(&seeds, program_id)
}

/// The claim records created so far. A record is only ever added, at most once per
/// key, and never updated or removed.
pub struct ClaimTable {
    claims: Vec<ClaimKey>,
}

impl View for ClaimTable {
    type V = Set<ClaimKey>;

    closed spec fn view(&self) -> Set<ClaimKey> {
        self.claims@.to_set()
    }
}

/// Equality of two keys, compared field by field.
fn same_key(a: &ClaimKey, b: &ClaimKey) -> (r: bool)
    ensures
        r == (*a == *b),
{
    let r = a.emitter_chain == b.emitter_chain && a.sequence == b.sequence && keys_eq(
        &a.emitter_address,
        &b.emitter_address,
    );
    proof {
        if a.emitter_address@ == b.emitter_address@ {
            assert(a.emitter_address =~= b.emitter_address);
        }
    }
    r
}

impl ClaimTable {
    /// Records are kept once each.
    pub closed spec fn wf(&self) -> bool {
        self.claims@.no_duplicates()
    }

    /// A table with no claim in it.
    pub fn new() -> (r: ClaimTable)
        ensures
            r.wf(),
            r@ == Set::<ClaimKey>::empty(),
    {
        let r = ClaimTable { claims: Vec::new() };
        assert(r@ =~= Set::<ClaimKey>::empty());
        r
    }

    /// Whether `key` has been claimed.
    pub fn contains(&self, key: &ClaimKey) -> (r: bool)
        ensures
            r == self@.contains(*key),
    {
        let mut i: usize = 0;
        while i < self.claims.len()
            invariant
                0 <= i <= self.claims@.len(),
                forall|j: int| 0 <= j < i ==> self.claims@[j] != *key,
            decreases self.claims@.len() - i,
        {
            if same_key(&self.claims[i], key) {
                assert(self.claims@.contains(*key));
                return true;
            }
            i = i + 1;
        }
        false
    }

    /// Creates the claim record for `key`, or fails with `AlreadyExecuted` where it
    /// exists, leaving the table as it was.
    pub fn claim(&mut self, key: ClaimKey) -> (r: Result<(), TokenBridgeError>)
        requires
            old(self).wf(),
        ensures
            final(self).wf(),
            old(self)@.contains(key) ==> r == Err::<(), TokenBridgeError>(
                TokenBridgeError::AlreadyExecuted,
            ) && final(self)@ == old(self)@,
            !old(self)@.contains(key) ==> r is Ok && final(self)@ == old(self)@.insert(key),
    {
        if self.contains(&key) {
            return Err(TokenBridgeError::AlreadyExecuted);
        }
        let ghost before = self.claims@;
        self.claims.push(key);
        proof {
            assert(self.claims@ == before.push(key));
            assert forall|a: ClaimKey| self.claims@.contains(a) <==> (before.contains(a) || a == key) by {
                if self.claims@.contains(a) {
                    let j = choose|j: int| 0 <= j < self.claims@.len() && self.claims@[j] == a;
                    if j < before.len() {
                        assert(before[j] == a);
                    }
                }
                if before.contains(a) {
                    let j = choose|j: int| 0 <= j < before.len() && before[j] == a;
                    assert(self.claims@[j] == a);
                }
                if a == key {
                    assert(self.claims@[before.len() as int] == a);
                }
            }
            assert(self@ =~= old(self)@.insert(key));
        }
        Ok(())
    }
}

} // verus!
