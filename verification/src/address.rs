//! Identities and the addresses derived from them.
//!
//! A review is stored at an address computed from its title and its
//! author, so the same pair always names the same place and nobody but the
//! author can name it by signing.

use anchor_lang::prelude::Pubkey;
use vstd::prelude::*;

verus! {

/// A 32-byte identity: an author, a program, or the place where an account
/// is stored.
#[derive(Clone, Copy, Debug, Eq)]
pub struct Address {
    pub bytes: [u8; 32],
}

impl View for Address {
    type V = Seq<u8>;

    open spec fn view(&self) -> Seq<u8> {
        self.bytes@
    }
}

impl PartialEq for Address {
    fn eq(&self, other: &Address) -> (same: bool) {
        let mut i: usize = 0;
        while i < 32
            invariant
                i <= 32,
                forall|k: int| 0 <= k < i ==> self.bytes[k] == other.bytes[k],
            decreases 32 - i,
        {
            if self.bytes[i] != other.bytes[i] {
                return false;
            }
            i += 1;
        }
        proof {
            assert(self.bytes =~= other.bytes);
        }
        true
    }
}

impl vstd::std_specs::cmp::PartialEqSpecImpl for Address {
    open spec fn obeys_eq_spec() -> bool {
        true
    }

    open spec fn eq_spec(&self, other: &Address) -> bool {
        *self == *other
    }
}

/// Two identities are the same exactly when their bytes are.
pub proof fn lemma_address_by_bytes(a: Address, b: Address)
    ensures
        (a == b) <==> (a@ == b@),
{
    if a@ == b@ {
        assert(forall|i: int| 0 <= i < 32 ==> a.bytes[i] == a@[i]);
        assert(forall|i: int| 0 <= i < 32 ==> b.bytes[i] == b@[i]);
        assert(a.bytes =~= b.bytes);
    }
}

/// The identity whose bytes are `bytes`, for a run of 32 bytes.
pub open spec fn address_of(bytes: Seq<u8>) -> Address {
    choose|a: Address| a@ == bytes
}

/// An identity is the one that its bytes name.
pub proof fn lemma_address_of(a: Address)
    ensures
        address_of(a@) == a,
{
    lemma_address_by_bytes(a, address_of(a@));
}

/// The seed from which the address of the reward mint is derived.
pub open spec fn mint_seed() -> Seq<u8> {
    seq![109u8, 105u8, 110u8, 116u8]
}

/// The bytes of the identity of this program, under which every address is
/// derived.
pub open spec fn program_id_spec() -> Seq<u8> {
    seq![
        187u8, 176u8, 97u8, 121u8, 124u8, 72u8, 53u8, 92u8,
        156u8, 94u8, 81u8, 244u8, 72u8, 198u8, 29u8, 60u8,
        121u8, 136u8, 28u8, 96u8, 143u8, 240u8, 101u8, 167u8,
        201u8, 14u8, 171u8, 97u8, 68u8, 248u8, 31u8, 158u8,
    ]
}

/// The program-derived address of a list of seeds under a program, with the
/// bump seed that was found for it; `None` where the search finds none.
pub uninterp spec fn program_address(seeds: Seq<Seq<u8>>, program_id: Seq<u8>) -> Option<
    (Seq<u8>, u8),
>;

/// What a derivation found, as plain sequences.
pub open spec fn found_view(found: Option<(Address, u8)>) -> Option<(Seq<u8>, u8)> {
    match found {
        Some((address, bump)) => Some((address@, bump)),
        None => None,
    }
}

/// What a derivation found, with the address as an identity.
pub open spec fn found_address(found: Option<(Seq<u8>, u8)>) -> Option<(Address, u8)> {
    match found {
        Some((address, bump)) => Some((address_of(address), bump)),
        None => None,
    }
}

/// Reading a derivation as sequences and back gives the derivation.
pub proof fn lemma_found_address(found: Option<(Address, u8)>)
    ensures
        found_address(found_view(found)) == found,
{
    if let Some((address, _)) = found {
        lemma_address_of(address);
    }
}

/// Whether a list of seeds is one for which no address is searched: with
/// the bump seed it would have more than 16 seeds, or one of its seeds has
/// more than 32 bytes.
pub open spec fn seeds_exceed_limits(seeds: Seq<Seq<u8>>) -> bool {
    seeds.len() >= 16 || exists|i: int| 0 <= i < seeds.len() && (#[trigger] seeds[i]).len() > 32
}

/// Calls `Pubkey::try_find_program_address` of solana-program. Off chain that
/// function hashes the seeds, a bump seed, the program's identity and a fixed
/// marker, counting the bump down from 255 until the hash is no point of the
/// curve, and gives `None` where a seed is too long, the seeds are too many
/// or no bump fits. It reads nothing but its arguments, so its result is
/// named by [`program_address`]. Of that result the contract claims only
/// that it is `None` for seeds over the limits.
#[verifier::external_body]
fn try_find_program_address(seeds: &Vec<Vec<u8>>, program_id: &Address) -> (found: Option<
    (Address, u8),
>)
    ensures
        found_view(found) == program_address(seeds.deep_view(), program_id@),
        seeds_exceed_limits(seeds.deep_view()) ==> found is None,
{
    let parts: Vec<&[u8]> = seeds.iter().map(|seed| seed.as_slice()).collect();
    let program = Pubkey::new_from_array(program_id.bytes);
    match Pubkey::try_find_program_address(&parts, &program) {
        Some((key, bump)) => Some((Address { bytes: key.to_bytes() }, bump)),
        None => None,
    }
}

/// The identity of this program.
pub fn program_id() -> (id: Address)
    ensures
        id@ == program_id_spec(),
{
    let id = Address {
        bytes: [
            187, 176, 97, 121, 124, 72, 53, 92,
            156, 94, 81, 244, 72, 198, 29, 60,
            121, 136, 28, 96, 143, 240, 101, 167,
            201, 14, 171, 97, 68, 248, 31, 158,
        ],
    };
    assert(id@ =~= program_id_spec());
    id
}

/// The deep view of a list of seeds holds the bytes of each seed in turn.
proof fn lemma_seeds_view(seeds: Vec<Vec<u8>>)
    ensures
        seeds.deep_view().len() == seeds@.len(),
        forall|i: int| 0 <= i < seeds@.len() ==> #[trigger] seeds.deep_view()[i] == seeds@[i]@,
{
    assert forall|i: int| 0 <= i < seeds@.len() implies #[trigger] seeds.deep_view()[i]
        == seeds@[i]@ by {
        assert(seeds.deep_view()[i] == seeds@[i].deep_view());
        assert(seeds@[i].deep_view() =~= seeds@[i]@);
    }
}

/// An owned copy of a run of bytes.
fn copy_bytes(bytes: &[u8]) -> (copy: Vec<u8>)
    ensures
        copy@ == bytes@,
{
    let mut copy: Vec<u8> = Vec::new();
    copy.extend_from_slice(bytes);
    assert(copy@ =~= bytes@);
    copy
}

/// Where the review of the author under `title` is stored, as a function of
/// those two alone; `None` where no address can be derived from them.
pub open spec fn derive_spec(title: Seq<u8>, reviewer: Address) -> Option<Address> {
    match found_address(program_address(seq![title, reviewer@], program_id_spec())) {
        Some((address, _)) => Some(address),
        None => None,
    }
}

/// Where the reward mint is stored, with the bump seed that signs for it.
pub open spec fn mint_address_spec() -> Option<(Address, u8)> {
    found_address(program_address(seq![mint_seed()], program_id_spec()))
}

/// Derives the address at which the review of the author under `title` is
/// stored. The result depends on the two arguments only. It is `None` where
/// no address can be derived from them, as for a title of more than 32
/// bytes.
pub fn derive(title: &[u8], reviewer: &Address) -> (address: Option<Address>)
    ensures
        address == derive_spec(title@, *reviewer),
        title@.len() > 32 ==> address is None,
{
    let mut seeds: Vec<Vec<u8>> = Vec::new();
    seeds.push(copy_bytes(title));
    seeds.push(copy_bytes(reviewer.bytes.as_slice()));
    proof {
        lemma_seeds_view(seeds);
        assert(seeds.deep_view() =~= seq![title@, reviewer@]);
        assert(seeds.deep_view()[0] == title@);
    }
    let found = try_find_program_address(&seeds, &program_id());
    proof {
        lemma_found_address(found);
    }
    match found {
        Some((address, _)) => Some(address),
        None => None,
    }
}

/// The seeds with which the program signs for the reward mint: the seed of
/// the mint, then the bump seed that was found for its address.
pub fn mint_signer_seeds(bump: u8) -> (seeds: Vec<Vec<u8>>)
    ensures
        seeds.deep_view() == seq![mint_seed(), seq![bump]],
{
    let mut seed: Vec<u8> = Vec::new();
    seed.push(109);
    seed.push(105);
    seed.push(110);
    seed.push(116);
    assert(seed@ =~= mint_seed());
    let mut last: Vec<u8> = Vec::new();
    last.push(bump);
    assert(last@ =~= seq![bump]);
    let mut seeds: Vec<Vec<u8>> = Vec::new();
    seeds.push(seed);
    seeds.push(last);
    proof {
        lemma_seeds_view(seeds);
        assert(seeds.deep_view() =~= seq![mint_seed(), seq![bump]]);
    }
    seeds
}

/// Derives the address of the reward mint and the bump seed with which the
/// program signs for it.
pub fn mint_address() -> (found: Option<(Address, u8)>)
    ensures
        found == mint_address_spec(),
{
    let mut seed: Vec<u8> = Vec::new();
    seed.push(109);
    seed.push(105);
    seed.push(110);
    seed.push(116);
    assert(seed@ =~= mint_seed());
    let mut seeds: Vec<Vec<u8>> = Vec::new();
    seeds.push(seed);
    proof {
        lemma_seeds_view(seeds);
        assert(seeds.deep_view() =~= seq![mint_seed()]);
    }
    let found = try_find_program_address(&seeds, &program_id());
    proof {
        lemma_found_address(found);
    }
    found
}

} // verus!
