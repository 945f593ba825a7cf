use vstd::prelude::*;
use solana_program::pubkey::Pubkey;

verus! {

/// A 32-byte account address (a public key or a program-derived address).
#[derive(Clone, Copy, Debug)]
pub struct Address {
    pub bytes: [u8; 32],
}

impl View for Address {
    type V = Seq<u8>;

    open spec fn view(&self) -> Seq<u8> {
        self.bytes@
    }
}

impl Address {
    pub fn new(bytes: [u8; 32]) -> (r: Address)
        ensures
            r.bytes == bytes,
    {
        Address { bytes }
    }

    /// The address's bytes as a vector.
    pub fn to_vec(&self) -> (r: Vec<u8>)
        ensures
            r@ == self@,
    {
        let mut v: Vec<u8> = Vec::new();
        let mut i: usize = 0;
        while i < 32
            invariant
                i <= 32,
                self@.len() == 32,
                v@ == self@.subrange(0, i as int),
            decreases 32 - i,
        {
            v.push(self.bytes[i]);
            i = i + 1;
            assert(v@ =~= self@.subrange(0, i as int));
        }
        assert(v@ =~= self@);
        v
    }

    /// Byte-wise equality of two addresses.
    pub fn same(&self, other: &Address) -> (r: bool)
        ensures
            r == (self@ == other@),
    {
        let mut i: usize = 0;
        while i < 32
            invariant
                i <= 32,
                self@.len() == 32,
                other@.len() == 32,
                forall|j: int| 0 <= j < i ==> self@[j] == other@[j],
            decreases 32 - i,
        {
            if self.bytes[i] != other.bytes[i] {
                return false;
            }
            i = i + 1;
        }
        assert(self@ =~= other@);
        true
    }
}

impl PartialEq for Address {
    fn eq(&self, other: &Address) -> (r: bool) {
        self.same(other)
    }
}

impl vstd::std_specs::cmp::PartialEqSpecImpl for Address {
    open spec fn obeys_eq_spec() -> bool {
        true
    }

    open spec fn eq_spec(&self, other: &Address) -> bool {
        self@ == other@
    }
}

impl Eq for Address {}

/// Two addresses with the same bytes are the same value.
pub proof fn lemma_address_ext(a: Address, b: Address)
    requires
        a@ == b@,
    ensures
        a == b,
{
    assert(a.bytes =~= b.bytes);
}

/// The program-derived address for `seeds` under `program_id`, with its bump
/// seed, as the host's address derivation computes it; `None` when no bump
/// seed yields an address off the curve.
pub uninterp spec fn program_address(seeds: Seq<Seq<u8>>, program_id: Seq<u8>) -> Option<(Seq<u8>, u8)>;

pub open spec fn seeds_view(seeds: Seq<Vec<u8>>) -> Seq<Seq<u8>> {
    seeds.map_values(|s: Vec<u8>| s@)
}

/// Relies on `Pubkey::try_find_program_address`: it returns the derived
/// address and bump seed for the seeds and program id, a function of those
/// bytes alone, or `None` when no bump seed works.
#[verifier::external_body]
fn try_find_program_address(seeds: &Vec<Vec<u8>>, program_id: &Address) -> (r: Option<(Address, u8)>)
    ensures
        match r {
            Some((a, bump)) => program_address(seeds_view(seeds@), program_id@) == Some((a@, bump)),
            None => program_address(seeds_view(seeds@), program_id@) is None,
        },
{
    let refs: Vec<&[u8]> = seeds.iter().map(|s| s.as_slice()).collect();
    Pubkey::try_find_program_address(&refs, &Pubkey::new_from_array(program_id.bytes)).map(
        |(key, bump)| (Address { bytes: key.to_bytes() }, bump),
    )
}

} // verus!

verus! {

/// The ASCII bytes of `faucet_config`, the seed label of the configuration record.
pub open spec fn config_label() -> Seq<u8> {
    seq![102u8, 97, 117, 99, 101, 116, 95, 99, 111, 110, 102, 105, 103]
}

/// The ASCII bytes of `user_claim`, the seed label of a user's claim record.
pub open spec fn user_claim_label() -> Seq<u8> {
    seq![117u8, 115, 101, 114, 95, 99, 108, 97, 105, 109]
}

/// Seeds of the configuration record: its label alone.
pub open spec fn config_seeds() -> Seq<Seq<u8>> {
    seq![config_label()]
}

/// Seeds of the claim record of `user`: the label, then the user's address.
pub open spec fn user_claim_seeds(user: Seq<u8>) -> Seq<Seq<u8>> {
    seq![user_claim_label(), user]
}

/// A derived address with the seeds that let the program sign for it: the
/// derivation seeds followed by the one-byte bump seed.
#[derive(Debug)]
pub struct Derived {
    pub address: Address,
    pub signer_seeds: Vec<Vec<u8>>,
}

/// `d` is the derivation of `seeds` under `program_id`.
pub open spec fn derived_from(d: Derived, seeds: Seq<Seq<u8>>, program_id: Seq<u8>) -> bool {
    match program_address(seeds, program_id) {
        Some((a, bump)) => d.address@ == a && seeds_view(d.signer_seeds@) == seeds.push(seq![bump]),
        None => false,
    }
}

/// Derives the program address of `seeds` under `program_id`, with the
/// signer seeds for it.
pub fn derive_address(seeds: Vec<Vec<u8>>, program_id: &Address) -> (r: Option<Derived>)
    ensures
        match r {
            Some(d) => derived_from(d, seeds_view(seeds@), program_id@),
            None => program_address(seeds_view(seeds@), program_id@) is None,
        },
{
    match try_find_program_address(&seeds, program_id) {
        Some((address, bump)) => {
            let mut signer_seeds = seeds;
            let ghost before = signer_seeds@;
            let bump_seed: Vec<u8> = vec![bump];
            assert(bump_seed@ =~= seq![bump]);
            signer_seeds.push(bump_seed);
            assert(seeds_view(signer_seeds@) =~= seeds_view(before).push(seq![bump]));
            Some(Derived { address, signer_seeds })
        },
        None => None,
    }
}

/// Derives the address of the configuration record.
pub fn derive_config_address(program_id: &Address) -> (r: Option<Derived>)
    ensures
        match r {
            Some(d) => derived_from(d, config_seeds(), program_id@),
            None => program_address(config_seeds(), program_id@) is None,
        },
{
    // "faucet_config"
    let label: Vec<u8> = vec![102u8, 97, 117, 99, 101, 116, 95, 99, 111, 110, 102, 105, 103];
    let seeds: Vec<Vec<u8>> = vec![label];
    assert(seeds_view(seeds@) =~= config_seeds());
    derive_address(seeds, program_id)
}

/// Derives the address of the claim record of `user`.
pub fn derive_user_claim_address(program_id: &Address, user: &Address) -> (r: Option<Derived>)
    ensures
        match r {
            Some(d) => derived_from(d, user_claim_seeds(user@), program_id@),
            None => program_address(user_claim_seeds(user@), program_id@) is None,
        },
{
    // "user_claim"
    let label: Vec<u8> = vec![117u8, 115, 101, 114, 95, 99, 108, 97, 105, 109];
    let key: Vec<u8> = user.to_vec();
    let seeds: Vec<Vec<u8>> = vec![label, key];
    assert(seeds_view(seeds@) =~= user_claim_seeds(user@));
    derive_address(seeds, program_id)
}

/// Derivation is a function of its inputs: two derivations of the same seeds
/// under the same program give the same address and the same signer seeds.
pub proof fn lemma_derive_deterministic(d1: Derived, d2: Derived, seeds: Seq<Seq<u8>>, program_id: Seq<u8>)
    requires
        derived_from(d1, seeds, program_id),
        derived_from(d2, seeds, program_id),
    ensures
        d1.address == d2.address,
        seeds_view(d1.signer_seeds@) == seeds_view(d2.signer_seeds@),
{
    lemma_address_ext(d1.address, d2.address);
}

} // verus!
