//! Program-derived addresses: where the records of a pool and of a grant live.

use vstd::prelude::*;
use vstd::utf8::encode_utf8;
use anchor_lang::prelude::Pubkey;
use crate::address::Address;

verus! {

/// The address under which this program is deployed. Every record address is
/// derived under it.
pub const PROGRAM_ID: [u8; 32] = [
    9, 43, 225, 230, 237, 13, 216, 237, 44, 121, 170, 202, 171, 13, 123, 122,
    17, 76, 28, 165, 22, 109, 84, 97, 252, 22, 20, 59, 1, 116, 88, 174,
];

/// The longest seed, in bytes, from which an address is derived. A company
/// name is handed over in two seeds, of which the first holds this many bytes
/// at most.
pub const MAX_SEED_LEN: usize = 32;

/// The address and bump seed that `Pubkey::try_find_program_address` derives
/// from `seeds` under the program `program_id`, or `None` where it derives none.
pub uninterp spec fn program_address(seeds: Seq<Seq<u8>>, program_id: Seq<u8>) -> Option<(Seq<u8>, u8)>;

/// Calls `Pubkey::try_find_program_address`, which hashes the seeds, a bump
/// seed and the program id, and looks for the highest bump seed whose hash is
/// no point of the curve. Nothing of this is proved here. The contract claims
/// one thing of it: that its result depends on the seeds and the program id
/// alone, which is what giving it the name `program_address` says. Whether an
/// address is found is not promised.
#[verifier::external_body]
pub(crate) fn find_program_address(seeds: &Vec<Vec<u8>>, program_id: &Address) -> (found: Option<(Address, u8)>)
    ensures
        viewed(found) == program_address(seeds.deep_view(), program_id@),
{
    let parts: Vec<&[u8]> = seeds.iter().map(|seed| seed.as_slice()).collect();
    let program = Pubkey::new_from_array(program_id.bytes);
    let found = Pubkey::try_find_program_address(&parts, &program);
    found.map(|(key, bump)| (Address { bytes: key.to_bytes() }, bump))
}

/// A derived address and its bump seed, the address taken by its bytes.
pub open spec fn viewed(found: Option<(Address, u8)>) -> Option<(Seq<u8>, u8)> {
    match found {
        Some((address, bump)) => Some((address@, bump)),
        None => None,
    }
}

/// Where the bytes of `company_name` are split into two seeds: after
/// `MAX_SEED_LEN` bytes, or at the end of a shorter name.
pub open spec fn name_split(company_name: Seq<char>) -> int {
    if encode_utf8(company_name).len() <= MAX_SEED_LEN {
        encode_utf8(company_name).len() as int
    } else {
        MAX_SEED_LEN as int
    }
}

/// The first seed of `company_name`: its bytes up to the split.
pub open spec fn name_head_spec(company_name: Seq<char>) -> Seq<u8> {
    encode_utf8(company_name).subrange(0, name_split(company_name))
}

/// The second seed of `company_name`: its bytes from the split on. It is empty
/// for a name of `MAX_SEED_LEN` bytes or fewer.
pub open spec fn name_tail_spec(company_name: Seq<char>) -> Seq<u8> {
    encode_utf8(company_name).subrange(
        name_split(company_name),
        encode_utf8(company_name).len() as int,
    )
}

/// The seeds of a pool's record: a tag and the company name in its two seeds.
pub open spec fn pool_seeds(company_name: Seq<char>) -> Seq<Seq<u8>> {
    seq![
        encode_utf8("vesting_pool"@),
        name_head_spec(company_name),
        name_tail_spec(company_name),
    ]
}

/// The seeds of a pool's treasury: a tag and the company name in its two
/// seeds.
pub open spec fn treasury_seeds(company_name: Seq<char>) -> Seq<Seq<u8>> {
    seq![
        encode_utf8("vesting_treasury"@),
        name_head_spec(company_name),
        name_tail_spec(company_name),
    ]
}

/// The seeds of a grant's record: a tag, the beneficiary and the pool's address.
pub open spec fn grant_seeds(beneficiary: Seq<u8>, vesting_account: Seq<u8>) -> Seq<Seq<u8>> {
    seq![encode_utf8("employee_vesting"@), beneficiary, vesting_account]
}

/// The seeds with which a pool's treasury signs for itself: those of its
/// address, followed by its bump seed.
pub open spec fn treasury_signer_seeds_spec(company_name: Seq<char>, bump: u8) -> Seq<Seq<u8>> {
    treasury_seeds(company_name).push(seq![bump])
}

/// Where the pool of `company_name` lives, with the bump seed of that address.
pub open spec fn pool_address_spec(company_name: Seq<char>) -> Option<(Seq<u8>, u8)> {
    program_address(pool_seeds(company_name), PROGRAM_ID@)
}

/// Where the treasury of the pool of `company_name` lives, with its bump seed.
pub open spec fn treasury_address_spec(company_name: Seq<char>) -> Option<(Seq<u8>, u8)> {
    program_address(treasury_seeds(company_name), PROGRAM_ID@)
}

/// Where the grant of `beneficiary` under the pool at `vesting_account` lives,
/// with its bump seed.
pub open spec fn grant_address_spec(beneficiary: Seq<u8>, vesting_account: Seq<u8>) -> Option<(Seq<u8>, u8)> {
    program_address(grant_seeds(beneficiary, vesting_account), PROGRAM_ID@)
}

/// The address under which this program is deployed.
pub fn program_id() -> (id: Address)
    ensures
        id@ == PROGRAM_ID@,
{
    Address::new(PROGRAM_ID)
}

/// The first seed of `company_name`: its first `MAX_SEED_LEN` bytes, or all of
/// a shorter name.
pub fn name_head(company_name: &str) -> (head: &[u8])
    ensures
        head@ == name_head_spec(company_name@),
        head@.len() <= MAX_SEED_LEN,
{
    let bytes = company_name.as_bytes();
    if bytes.len() <= MAX_SEED_LEN {
        assert(bytes@ =~= name_head_spec(company_name@));
        bytes
    } else {
        vstd::slice::slice_subrange(bytes, 0, MAX_SEED_LEN)
    }
}

/// The second seed of `company_name`: what follows its first `MAX_SEED_LEN`
/// bytes. Together the two seeds hold every byte of the name, in order.
pub fn name_tail(company_name: &str) -> (tail: &[u8])
    ensures
        tail@ == name_tail_spec(company_name@),
        name_head_spec(company_name@) + tail@ == encode_utf8(company_name@),
        encode_utf8(company_name@).len() <= 2 * MAX_SEED_LEN ==> tail@.len() <= MAX_SEED_LEN,
{
    let bytes = company_name.as_bytes();
    assert(name_head_spec(company_name@) + name_tail_spec(company_name@) =~= encode_utf8(
        company_name@,
    ));
    if bytes.len() <= MAX_SEED_LEN {
        vstd::slice::slice_subrange(bytes, bytes.len(), bytes.len())
    } else {
        vstd::slice::slice_subrange(bytes, MAX_SEED_LEN, bytes.len())
    }
}

/// Derives the address of the pool of `company_name`.
pub fn pool_address(company_name: &str) -> (found: Option<(Address, u8)>)
    ensures
        viewed(found) == pool_address_spec(company_name@),
{
    let mut seeds: Vec<Vec<u8>> = Vec::new();
    seeds.push("vesting_pool".as_bytes_vec());
    seeds.push(vstd::slice::slice_to_vec(name_head(company_name)));
    seeds.push(vstd::slice::slice_to_vec(name_tail(company_name)));
    assert(seeds.deep_view() =~~= pool_seeds(company_name@));
    find_program_address(&seeds, &program_id())
}

/// Derives the address of the treasury of the pool of `company_name`.
pub fn treasury_address(company_name: &str) -> (found: Option<(Address, u8)>)
    ensures
        viewed(found) == treasury_address_spec(company_name@),
{
    let mut seeds: Vec<Vec<u8>> = Vec::new();
    seeds.push("vesting_treasury".as_bytes_vec());
    seeds.push(vstd::slice::slice_to_vec(name_head(company_name)));
    seeds.push(vstd::slice::slice_to_vec(name_tail(company_name)));
    assert(seeds.deep_view() =~~= treasury_seeds(company_name@));
    find_program_address(&seeds, &program_id())
}

/// Derives the address of the grant of `beneficiary` under the pool at
/// `vesting_account`.
pub fn grant_address(beneficiary: &Address, vesting_account: &Address) -> (found: Option<(Address, u8)>)
    ensures
        viewed(found) == grant_address_spec(beneficiary@, vesting_account@),
{
    let mut seeds: Vec<Vec<u8>> = Vec::new();
    seeds.push("employee_vesting".as_bytes_vec());
    seeds.push(beneficiary.to_vec());
    seeds.push(vesting_account.to_vec());
    assert(seeds.deep_view() =~~= grant_seeds(beneficiary@, vesting_account@));
    find_program_address(&seeds, &program_id())
}

/// The seeds with which the treasury of the pool of `company_name` signs a
/// transfer out of itself, `bump` being the bump seed of its address.
pub fn treasury_signer_seeds(company_name: &str, bump: u8) -> (seeds: Vec<Vec<u8>>)
    ensures
        seeds.deep_view() == treasury_signer_seeds_spec(company_name@, bump),
{
    let mut seeds: Vec<Vec<u8>> = Vec::new();
    seeds.push("vesting_treasury".as_bytes_vec());
    seeds.push(vstd::slice::slice_to_vec(name_head(company_name)));
    seeds.push(vstd::slice::slice_to_vec(name_tail(company_name)));
    let mut last: Vec<u8> = Vec::new();
    last.push(bump);
    seeds.push(last);
    assert(seeds.deep_view() =~~= treasury_signer_seeds_spec(company_name@, bump));
    seeds
}

} // verus!
