use vstd::prelude::*;
use vstd::string::StringSliceAdditionalSpecFns;
use crate::keys::Pubkey;

verus! {

/// The SHA-256 digest of a byte string.
pub uninterp spec fn sha256(data: Seq<u8>) -> Seq<u8>;

/// The program-derived address for a list of seeds under a program, with the bump seed
/// that was found for it; `None` where no address can be derived.
pub uninterp spec fn program_address(seeds: Seq<Seq<u8>>, program_id: Seq<u8>) -> Option<
    (Seq<u8>, u8),
>;

/// A derived address and its bump seed, by the bytes of the address.
pub open spec fn address_view(found: Option<(Pubkey, u8)>) -> Option<(Seq<u8>, u8)> {
    match found {
        Some((address, bump)) => Some((address@, bump)),
        None => None,
    }
}

/// Trusted, not proved. Calls `anchor_lang::solana_program::hash::hash`, which returns
/// the SHA-256 digest of its argument as 32 bytes. The contract claims no more than that
/// the result is that digest, which it gives the name `sha256`.
#[verifier::external_body]
pub(crate) fn hash_bytes(data: &[u8]) -> (digest: [u8; 32])
    ensures
        digest@ == sha256(data@),
{
    anchor_lang::solana_program::hash::hash(data).to_bytes()
}

/// Trusted, not proved. Calls `Pubkey::try_find_program_address` of `anchor_lang`, which
/// tries the bump seeds from 255 downwards, hashes the seeds, the bump seed and the
/// program id, and returns the first hash that lies off the curve with its bump seed, or
/// `None` where there is none or the seeds are too many or too long. The result depends
/// on the seeds and the program id alone. The contract claims no more than that the
/// result is what that search yields, which it gives the name `program_address`.
#[verifier::external_body]
pub(crate) fn try_find_program_address(seeds: &Vec<Vec<u8>>, program_id: &Pubkey) -> (found:
    Option<(Pubkey, u8)>)
    ensures
        address_view(found) == program_address(seeds.deep_view(), program_id@),
{
    let mut slices: Vec<&[u8]> = Vec::with_capacity(seeds.len());
    for seed in seeds {
        slices.push(seed.as_slice());
    }
    let program = anchor_lang::prelude::Pubkey::new_from_array(program_id.bytes);
    match anchor_lang::prelude::Pubkey::try_find_program_address(&slices, &program) {
        Some((address, bump)) => Some((Pubkey { bytes: address.to_bytes() }, bump)),
        None => None,
    }
}

/// The seed `market`, which marks a market's own address.
pub open spec fn market_seed() -> Seq<u8> {
    seq![109u8, 97u8, 114u8, 107u8, 101u8, 116u8]
}

/// The seed `pool_authority`, which marks the address that signs for a market's pool.
pub open spec fn pool_authority_seed() -> Seq<u8> {
    seq![
        112u8, 111u8, 111u8, 108u8, 95u8, 97u8, 117u8, 116u8, 104u8, 111u8, 114u8, 105u8, 116u8,
        121u8,
    ]
}

/// The seed `pool_vault`, which marks the address that holds a market's collateral.
pub open spec fn pool_vault_seed() -> Seq<u8> {
    seq![112u8, 111u8, 111u8, 108u8, 95u8, 118u8, 97u8, 117u8, 108u8, 116u8]
}

/// The address of the market that `creator` opens on `statement`, derived from the seeds
/// `market`, the creator's address and the digest of the statement's bytes.
pub open spec fn market_address(program_id: Seq<u8>, creator: Seq<u8>, statement: Seq<u8>)
    -> Option<(Seq<u8>, u8)> {
    program_address(seq![market_seed(), creator, sha256(statement)], program_id)
}

/// The address that signs for the pool of the market at `market`.
pub open spec fn pool_authority_address(program_id: Seq<u8>, market: Seq<u8>) -> Option<
    (Seq<u8>, u8),
> {
    program_address(seq![pool_authority_seed(), market], program_id)
}

/// The address that holds the collateral of the market at `market`.
pub open spec fn pool_vault_address(program_id: Seq<u8>, market: Seq<u8>) -> Option<
    (Seq<u8>, u8),
> {
    program_address(seq![pool_vault_seed(), market], program_id)
}

/// The 32 bytes of an array as a vector.
fn bytes_to_vec(bytes: &[u8; 32]) -> (v: Vec<u8>)
    ensures
        v@ == bytes@,
{
    let mut v: Vec<u8> = Vec::new();
    let mut i: usize = 0;
    while i < 32
        invariant
            i <= 32,
            v@ == bytes@.subrange(0, i as int),
        decreases 32 - i,
    {
        v.push(bytes[i]);
        i = i + 1;
    }
    v
}

/// Derives the address of the market that `creator` opens on `statement`.
pub fn derive_market_address(program_id: &Pubkey, creator: &Pubkey, statement: &str) -> (found:
    Option<(Pubkey, u8)>)
    ensures
        address_view(found) == market_address(program_id@, creator@, statement.spec_bytes()),
{
    let digest = hash_bytes(statement.as_bytes());
    let mut seeds: Vec<Vec<u8>> = Vec::new();
    seeds.push(vec![109u8, 97u8, 114u8, 107u8, 101u8, 116u8]);
    seeds.push(bytes_to_vec(&creator.bytes));
    seeds.push(bytes_to_vec(&digest));
    proof {
        let expected = seq![market_seed(), creator@, sha256(statement.spec_bytes())];
        assert(seeds@[0].deep_view() =~= expected[0]);
        assert(seeds@[1].deep_view() =~= expected[1]);
        assert(seeds@[2].deep_view() =~= expected[2]);
        assert(seeds.deep_view() =~= expected);
    }
    try_find_program_address(&seeds, program_id)
}

/// Derives the address that signs for the pool of the market at `market`.
pub fn derive_pool_authority(program_id: &Pubkey, market: &Pubkey) -> (found: Option<
    (Pubkey, u8),
>)
    ensures
        address_view(found) == pool_authority_address(program_id@, market@),
{
    let mut seeds: Vec<Vec<u8>> = Vec::new();
    seeds.push(
        vec![
            112u8, 111u8, 111u8, 108u8, 95u8, 97u8, 117u8, 116u8, 104u8, 111u8, 114u8, 105u8,
            116u8, 121u8,
        ],
    );
    seeds.push(bytes_to_vec(&market.bytes));
    proof {
        let expected = seq![pool_authority_seed(), market@];
        assert(seeds@[0].deep_view() =~= expected[0]);
        assert(seeds@[1].deep_view() =~= expected[1]);
        assert(seeds.deep_view() =~= expected);
    }
    try_find_program_address(&seeds, program_id)
}

/// Derives the address that holds the collateral of the market at `market`.
pub fn derive_pool_vault(program_id: &Pubkey, market: &Pubkey) -> (found: Option<(Pubkey, u8)>)
    ensures
        address_view(found) == pool_vault_address(program_id@, market@),
{
    let mut seeds: Vec<Vec<u8>> = Vec::new();
    seeds.push(vec![112u8, 111u8, 111u8, 108u8, 95u8, 118u8, 97u8, 117u8, 108u8, 116u8]);
    seeds.push(bytes_to_vec(&market.bytes));
    proof {
        let expected = seq![pool_vault_seed(), market@];
        assert(seeds@[0].deep_view() =~= expected[0]);
        assert(seeds@[1].deep_view() =~= expected[1]);
        assert(seeds.deep_view() =~= expected);
    }
    try_find_program_address(&seeds, program_id)
}

} // verus!
