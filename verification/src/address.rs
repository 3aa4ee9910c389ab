//! Account identities and the deterministic derivation of program addresses.

use anchor_lang::prelude::Pubkey;
use vstd::bytes::{spec_u64_to_le_bytes, u64_to_le_bytes};
use vstd::prelude::*;

verus! {

/// A 32-byte account identity.
#[derive(Clone, Copy, Debug, Eq)]
pub struct Address {
    pub bytes: [u8; 32],
}

impl View for Address {
    type V = Seq<u8>;

    open spec fn view(&self) -> Seq<u8> {
        self.bytes@
    }
}

/// The views of a list of seeds.
pub open spec fn seeds_view(seeds: Seq<Vec<u8>>) -> Seq<Seq<u8>> {
    Seq::new(seeds.len(), |i: int| seeds[i]@)
}

/// The address that `Pubkey::create_program_address` derives from `seeds` for the program
/// `program_id`, or `None` where it reports an error.
pub uninterp spec fn program_address(seeds: Seq<Seq<u8>>, program_id: Seq<u8>) -> Option<Seq<u8>>;

/// The address and bump seed that `Pubkey::try_find_program_address` finds for `seeds` and the
/// program `program_id`, or `None` where it finds none.
pub uninterp spec fn found_program_address(seeds: Seq<Seq<u8>>, program_id: Seq<u8>) -> Option<
    (Seq<u8>, u8),
>;

/// `Pubkey::create_program_address`: hashes the seeds, the program id and a fixed marker into an
/// address, and reports an error where a seed list is too long or the hash lies on the curve.
/// The contract only names the result: the same seeds and program id give the same address.
#[verifier::external_body]
pub(crate) fn create_program_address(seeds: &Vec<Vec<u8>>, program_id: &Address) -> (r: Option<
    Address,
>)
    ensures
        match r {
            Some(a) => program_address(seeds_view(seeds@), program_id@) == Some(a@),
            None => program_address(seeds_view(seeds@), program_id@) is None,
        },
{
    let parts: Vec<&[u8]> = seeds.iter().map(|s| s.as_slice()).collect();
    match Pubkey::create_program_address(&parts, &Pubkey::new_from_array(program_id.bytes)) {
        Ok(key) => Some(Address { bytes: key.to_bytes() }),
        Err(_) => None,
    }
}

/// `Pubkey::try_find_program_address`: tries the bump seeds from 255 downwards and returns the
/// first address that `create_program_address` accepts for the seeds followed by that bump,
/// together with the bump. The contract names the result and states that the address found is
/// the one derived from the seeds with the bump appended.
#[verifier::external_body]
pub(crate) fn try_find_program_address(seeds: &Vec<Vec<u8>>, program_id: &Address) -> (r: Option<
    (Address, u8),
>)
    ensures
        match r {
            Some((a, bump)) => {
                &&& found_program_address(seeds_view(seeds@), program_id@) == Some((a@, bump))
                &&& program_address(seeds_view(seeds@).push(seq![bump]), program_id@) == Some(a@)
            },
            None => found_program_address(seeds_view(seeds@), program_id@) is None,
        },
{
    let parts: Vec<&[u8]> = seeds.iter().map(|s| s.as_slice()).collect();
    match Pubkey::try_find_program_address(&parts, &Pubkey::new_from_array(program_id.bytes)) {
        Some((key, bump)) => Some((Address { bytes: key.to_bytes() }, bump)),
        None => None,
    }
}

impl PartialEq for Address {
    /// Compares two addresses byte by byte.
    fn eq(&self, other: &Address) -> (b: bool) {
        let mut i: usize = 0;
        while i < 32
            invariant
                i <= 32,
                forall|j: int| 0 <= j < i ==> self.bytes[j] == other.bytes[j],
            decreases 32 - i,
        {
            if self.bytes[i] != other.bytes[i] {
                return false;
            }
            i = i + 1;
        }
        assert(self.bytes =~= other.bytes);
        true
    }
}

impl vstd::std_specs::cmp::PartialEqSpecImpl for Address {
    open spec fn obeys_eq_spec() -> bool {
        true
    }

    open spec fn eq_spec(&self, other: &Address) -> bool {
        *self == *other
    }
}

impl Address {
    /// Wraps the given 32 bytes.
    pub fn new(bytes: [u8; 32]) -> (a: Address)
        ensures
            a.bytes == bytes,
    {
        Address { bytes }
    }

    /// Two addresses with the same bytes are the same address.
    pub proof fn lemma_view_injective(a: Address, b: Address)
        requires
            a@ == b@,
        ensures
            a == b,
    {
        assert(a.bytes =~= b.bytes);
    }

    /// The 32 bytes as a vector.
    pub fn to_vec(&self) -> (v: Vec<u8>)
        ensures
            v@ == self@,
    {
        let mut v: Vec<u8> = Vec::new();
        let mut i: usize = 0;
        while i < 32
            invariant
                i <= 32,
                v@ == self@.subrange(0, i as int),
            decreases 32 - i,
        {
            v.push(self.bytes[i]);
            i = i + 1;
        }
        v
    }
}

/// The bytes of the word `escrow`, which sets the addresses of escrow records apart from any
/// other address that the program derives.
pub open spec fn escrow_tag() -> Seq<u8> {
    seq![101u8, 115u8, 99u8, 114u8, 111u8, 119u8]
}

/// The seeds of the escrow record that `maker` opens under the nonce `seed`.
pub open spec fn escrow_seeds(maker: Address, seed: u64) -> Seq<Seq<u8>> {
    seq![escrow_tag(), maker@, spec_u64_to_le_bytes(seed)]
}

/// The seeds with which the program signs for an escrow record: its seeds and its bump.
pub open spec fn escrow_signer_seeds(maker: Address, seed: u64, bump: u8) -> Seq<Seq<u8>> {
    escrow_seeds(maker, seed).push(seq![bump])
}

/// The seeds of the holding account associated with `wallet` for `mint` under `token_program`.
pub open spec fn associated_seeds(wallet: Address, token_program: Address, mint: Address) -> Seq<
    Seq<u8>,
> {
    seq![wallet@, token_program@, mint@]
}

/// The address and bump of the escrow record of `maker` and `seed` under `program_id`.
pub open spec fn escrow_address(program_id: Address, maker: Address, seed: u64) -> Option<
    (Seq<u8>, u8),
> {
    found_program_address(escrow_seeds(maker, seed), program_id@)
}

/// The address for which the program signs with the seeds of an escrow record and `bump`.
pub open spec fn signed_address(program_id: Address, maker: Address, seed: u64, bump: u8) -> Option<
    Seq<u8>,
> {
    program_address(escrow_signer_seeds(maker, seed, bump), program_id@)
}

/// The address of the holding account associated with `wallet` for `mint`.
pub open spec fn associated_address(
    associated_program: Address,
    wallet: Address,
    token_program: Address,
    mint: Address,
) -> Option<Seq<u8>> {
    match found_program_address(
        associated_seeds(wallet, token_program, mint),
        associated_program@,
    ) {
        Some((a, _)) => Some(a),
        None => None,
    }
}

/// Builds the seeds of an escrow record.
pub fn escrow_seeds_vec(maker: &Address, seed: u64) -> (v: Vec<Vec<u8>>)
    ensures
        seeds_view(v@) == escrow_seeds(*maker, seed),
{
    let mut tag: Vec<u8> = Vec::new();
    tag.push(101u8);
    tag.push(115u8);
    tag.push(99u8);
    tag.push(114u8);
    tag.push(111u8);
    tag.push(119u8);
    assert(tag@ =~= escrow_tag());
    let mut v: Vec<Vec<u8>> = Vec::new();
    v.push(tag);
    v.push(maker.to_vec());
    v.push(u64_to_le_bytes(seed));
    assert(seeds_view(v@) =~= escrow_seeds(*maker, seed));
    v
}

/// Builds the seeds with which the program signs for an escrow record.
pub fn escrow_signer_seeds_vec(maker: &Address, seed: u64, bump: u8) -> (v: Vec<Vec<u8>>)
    ensures
        seeds_view(v@) == escrow_signer_seeds(*maker, seed, bump),
{
    let mut v = escrow_seeds_vec(maker, seed);
    let ghost before = v@;
    let mut last: Vec<u8> = Vec::new();
    last.push(bump);
    assert(last@ =~= seq![bump]);
    v.push(last);
    assert(seeds_view(v@) =~= seeds_view(before).push(seq![bump]));
    v
}

/// Finds the address and bump of the escrow record of `maker` and `seed`.
pub fn find_escrow_address(program_id: &Address, maker: &Address, seed: u64) -> (r: Option<
    (Address, u8),
>)
    ensures
        match r {
            Some((a, bump)) => {
                &&& escrow_address(*program_id, *maker, seed) == Some((a@, bump))
                &&& signed_address(*program_id, *maker, seed, bump) == Some(a@)
            },
            None => escrow_address(*program_id, *maker, seed) is None,
        },
{
    let seeds = escrow_seeds_vec(maker, seed);
    try_find_program_address(&seeds, program_id)
}

/// Derives the address for which the program signs with the seeds of an escrow record and
/// `bump`.
pub fn derive_escrow_address(program_id: &Address, maker: &Address, seed: u64, bump: u8) -> (r:
    Option<Address>)
    ensures
        match r {
            Some(a) => signed_address(*program_id, *maker, seed, bump) == Some(a@),
            None => signed_address(*program_id, *maker, seed, bump) is None,
        },
{
    let seeds = escrow_signer_seeds_vec(maker, seed, bump);
    create_program_address(&seeds, program_id)
}

/// Finds the address of the holding account associated with `wallet` for `mint`.
pub fn find_associated_address(
    associated_program: &Address,
    wallet: &Address,
    token_program: &Address,
    mint: &Address,
) -> (r: Option<Address>)
    ensures
        match r {
            Some(a) => associated_address(*associated_program, *wallet, *token_program, *mint)
                == Some(a@),
            None => associated_address(*associated_program, *wallet, *token_program, *mint)
                is None,
        },
{
    let mut seeds: Vec<Vec<u8>> = Vec::new();
    seeds.push(wallet.to_vec());
    seeds.push(token_program.to_vec());
    seeds.push(mint.to_vec());
    assert(seeds_view(seeds@) =~= associated_seeds(*wallet, *token_program, *mint));
    match try_find_program_address(&seeds, associated_program) {
        Some((a, _)) => Some(a),
        None => None,
    }
}

} // verus!
