//! Account identities and the deterministic derivation of the addresses
//! that belong to a challenge (its escrow vaults and participant records).

use vstd::prelude::*;
use vstd::bytes::{spec_u64_to_le_bytes, u64_to_le_bytes};

verus! {

/// A 32-byte account identity.
#[derive(Clone, Copy, Debug)]
pub struct Address(pub [u8; 32]);

impl View for Address {
    type V = Seq<u8>;

    open spec fn view(&self) -> Seq<u8> {
        self.0@
    }
}

impl PartialEq for Address {
    fn eq(&self, other: &Address) -> (r: bool) {
        let mut i: usize = 0;
        while i < 32
            invariant
                0 <= i <= 32,
                forall|k: int| 0 <= k < i ==> self.0@[k] == other.0@[k],
            decreases 32 - i,
        {
            if self.0[i] != other.0[i] {
                return false;
            }
            i = i + 1;
        }
        proof {
            assert(self.0@ =~= other.0@);
        }
        true
    }
}

impl vstd::std_specs::cmp::PartialEqSpecImpl for Address {
    open spec fn obeys_eq_spec() -> bool {
        true
    }

    open spec fn eq_spec(&self, other: &Address) -> bool {
        self@ == other@
    }
}

impl Eq for Address {
}

/// The identity made of 32 zero bytes, which stands for "no account".
pub open spec fn zero_address() -> Seq<u8> {
    Seq::new(32, |_i: int| 0u8)
}

impl Address {
    /// The all-zero identity, used where no account has been recorded yet.
    pub fn zero() -> (r: Address)
        ensures
            r@ == zero_address(),
    {
        let r = Address([0u8; 32]);
        proof {
            assert(r@ =~= zero_address());
        }
        r
    }
}

/// Seed tag of a challenge record: the ASCII text `challenge`.
pub open spec fn challenge_tag() -> Seq<u8> {
    seq![99u8, 104u8, 97u8, 108u8, 108u8, 101u8, 110u8, 103u8, 101u8]
}

/// Seed tag of a challenge's native-value escrow vault: the ASCII text `vault`.
pub open spec fn vault_tag() -> Seq<u8> {
    seq![118u8, 97u8, 117u8, 108u8, 116u8]
}

/// Seed tag of a challenge's token escrow account: the ASCII text `escrow_token`.
pub open spec fn escrow_token_tag() -> Seq<u8> {
    seq![101u8, 115u8, 99u8, 114u8, 111u8, 119u8, 95u8, 116u8, 111u8, 107u8, 101u8, 110u8]
}

/// Seed tag of a participant record: the ASCII text `participant`.
pub open spec fn participant_tag() -> Seq<u8> {
    seq![112u8, 97u8, 114u8, 116u8, 105u8, 99u8, 105u8, 112u8, 97u8, 110u8, 116u8]
}

/// The program-derived address of `seeds` under `program_id`, with its bump
/// seed, or `None` where no bump seed yields an address off the curve or the
/// seeds exceed the derivation's limits.
pub uninterp spec fn program_address_of(seeds: Seq<Seq<u8>>, program_id: Seq<u8>) -> Option<(Seq<u8>, u8)>;

/// What a derivation result says, over plain byte sequences.
pub open spec fn derived_view(r: Option<(Address, u8)>) -> Option<(Seq<u8>, u8)> {
    match r {
        Some((a, bump)) => Some((a@, bump)),
        None => None,
    }
}

/// The byte sequences that a list of seeds holds.
pub open spec fn seeds_view(seeds: Seq<Vec<u8>>) -> Seq<Seq<u8>> {
    seeds.map_values(|s: Vec<u8>| s@)
}

/// Relies on anchor_lang's `Pubkey::try_find_program_address` (solana-program):
/// a deterministic search over bump seeds, depending on the seeds and the
/// program identity alone.
#[verifier::external_body]
fn find_program_address(seeds: &Vec<Vec<u8>>, program_id: &Address) -> (r: Option<(Address, u8)>)
    ensures
        derived_view(r) == program_address_of(seeds_view(seeds@), program_id@),
{
    let slices: Vec<&[u8]> = seeds.iter().map(|s| s.as_slice()).collect();
    let program = anchor_lang::prelude::Pubkey::new_from_array(program_id.0);
    match anchor_lang::prelude::Pubkey::try_find_program_address(&slices, &program) {
        Some((key, bump)) => Some((Address(key.to_bytes()), bump)),
        None => None,
    }
}

fn tag_bytes(tag: &[u8]) -> (r: Vec<u8>)
    ensures
        r@ == tag@,
{
    vstd::slice::slice_to_vec(tag)
}

fn derive_pair(tag: &[u8], key: &Address, program_id: &Address) -> (r: Option<(Address, u8)>)
    ensures
        derived_view(r) == program_address_of(seq![tag@, key@], program_id@),
{
    let mut seeds: Vec<Vec<u8>> = Vec::new();
    seeds.push(tag_bytes(tag));
    seeds.push(vstd::slice::slice_to_vec(key.0.as_slice()));
    proof {
        assert(seeds_view(seeds@) =~= seq![tag@, key@]);
    }
    find_program_address(&seeds, program_id)
}

/// The address and bump seed of the native-value escrow vault of the
/// challenge at `challenge`.
pub fn vault_address(program_id: &Address, challenge: &Address) -> (r: Option<(Address, u8)>)
    ensures
        derived_view(r) == program_address_of(seq![vault_tag(), challenge@], program_id@),
{
    let tag: [u8; 5] = [118u8, 97u8, 117u8, 108u8, 116u8];
    proof {
        assert(tag@ =~= vault_tag());
    }
    derive_pair(tag.as_slice(), challenge, program_id)
}

/// The address and bump seed of the token escrow account of the challenge
/// at `challenge`.
pub fn escrow_token_address(program_id: &Address, challenge: &Address) -> (r: Option<(Address, u8)>)
    ensures
        derived_view(r) == program_address_of(seq![escrow_token_tag(), challenge@], program_id@),
{
    let tag: [u8; 12] = [101u8, 115u8, 99u8, 114u8, 111u8, 119u8, 95u8, 116u8, 111u8, 107u8, 101u8, 110u8];
    proof {
        assert(tag@ =~= escrow_token_tag());
    }
    derive_pair(tag.as_slice(), challenge, program_id)
}

/// The address and bump seed of the challenge that `creator` opens at time
/// `created_at`.
pub fn challenge_address(program_id: &Address, creator: &Address, created_at: i64) -> (r: Option<(Address, u8)>)
    ensures
        derived_view(r) == program_address_of(
            seq![challenge_tag(), creator@, spec_u64_to_le_bytes(created_at as u64)],
            program_id@,
        ),
{
    let tag: [u8; 9] = [99u8, 104u8, 97u8, 108u8, 108u8, 101u8, 110u8, 103u8, 101u8];
    let mut seeds: Vec<Vec<u8>> = Vec::new();
    seeds.push(tag_bytes(tag.as_slice()));
    seeds.push(vstd::slice::slice_to_vec(creator.0.as_slice()));
    seeds.push(u64_to_le_bytes(created_at as u64));
    proof {
        assert(tag@ =~= challenge_tag());
        assert(seeds_view(seeds@) =~= seq![
            challenge_tag(),
            creator@,
            spec_u64_to_le_bytes(created_at as u64),
        ]);
    }
    find_program_address(&seeds, program_id)
}

/// The address and bump seed of the record of `player` in the challenge at
/// `challenge`; one per pair, so a player has one record per challenge.
pub fn participant_address(program_id: &Address, challenge: &Address, player: &Address) -> (r: Option<(Address, u8)>)
    ensures
        derived_view(r) == program_address_of(
            seq![participant_tag(), challenge@, player@],
            program_id@,
        ),
{
    let tag: [u8; 11] = [112u8, 97u8, 114u8, 116u8, 105u8, 99u8, 105u8, 112u8, 97u8, 110u8, 116u8];
    let mut seeds: Vec<Vec<u8>> = Vec::new();
    seeds.push(tag_bytes(tag.as_slice()));
    seeds.push(vstd::slice::slice_to_vec(challenge.0.as_slice()));
    seeds.push(vstd::slice::slice_to_vec(player.0.as_slice()));
    proof {
        assert(tag@ =~= participant_tag());
        assert(seeds_view(seeds@) =~= seq![participant_tag(), challenge@, player@]);
    }
    find_program_address(&seeds, program_id)
}

/// Whether `claimed` is the native-value escrow vault of the challenge at
/// `challenge`: anyone can recompute the vault's address from the
/// challenge's identity instead of trusting a pointer to it.
pub fn is_vault_of(program_id: &Address, challenge: &Address, claimed: &Address) -> (r: bool)
    ensures
        r == (match program_address_of(seq![vault_tag(), challenge@], program_id@) {
            Some((a, _bump)) => a == claimed@,
            None => false,
        }),
{
    match vault_address(program_id, challenge) {
        Some((a, _bump)) => a == *claimed,
        None => false,
    }
}

/// Whether `claimed` is the token escrow account of the challenge at
/// `challenge`.
pub fn is_escrow_token_of(program_id: &Address, challenge: &Address, claimed: &Address) -> (r: bool)
    ensures
        r == (match program_address_of(seq![escrow_token_tag(), challenge@], program_id@) {
            Some((a, _bump)) => a == claimed@,
            None => false,
        }),
{
    match escrow_token_address(program_id, challenge) {
        Some((a, _bump)) => a == *claimed,
        None => false,
    }
}

} // verus!
