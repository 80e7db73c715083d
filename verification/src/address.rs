//! Account identities and the addresses derived from seeds.
//!
//! Records of this program live at addresses derived from seeds and the
//! program's own identity. Nobody holds a key for such an address: to show
//! that it controls one, the program presents the seeds again.

use anchor_lang::prelude::Pubkey;
use vstd::prelude::*;
use vstd::utf8::encode_utf8;

verus! {

/// The identity of an account: 32 bytes.
#[derive(Clone, Copy, Debug)]
pub struct Address {
    pub bytes: [u8; 32],
}

impl View for Address {
    type V = Seq<u8>;

    open spec fn view(&self) -> Seq<u8> {
        self.bytes@
    }
}

impl Address {
    /// The identity with these bytes.
    pub fn new(bytes: [u8; 32]) -> (address: Address)
        ensures
            address.bytes == bytes,
    {
        Address { bytes }
    }

    /// Whether two identities are the same, byte for byte.
    pub fn same(&self, other: &Address) -> (equal: bool)
        ensures
            equal == (*self == *other),
            equal == (self@ == other@),
    {
        let mut i: usize = 0;
        while i < 32
            invariant
                i <= 32,
                forall|j: int| 0 <= j < i ==> self.bytes[j] == other.bytes[j],
            decreases 32 - i,
        {
            if self.bytes[i] != other.bytes[i] {
                return false;
            }
            i += 1;
        }
        assert(self.bytes =~= other.bytes);
        true
    }

    /// The bytes as a seed.
    pub fn to_seed(&self) -> (seed: Vec<u8>)
        ensures
            seed@ == self@,
    {
        let mut seed: Vec<u8> = Vec::new();
        let mut i: usize = 0;
        while i < 32
            invariant
                i <= 32,
                seed@ == self@.subrange(0, i as int),
            decreases 32 - i,
        {
            seed.push(self.bytes[i]);
            assert(seed@ =~= self@.subrange(0, i + 1));
            i += 1;
        }
        assert(self@.subrange(0, 32) =~= self@);
        seed
    }
}

/// What `Pubkey::try_find_program_address` returns for these seeds and this
/// program: the derived address and the bump seed that gave it, or `None`.
pub uninterp spec fn found_program_address(seeds: Seq<Seq<u8>>, program_id: Seq<u8>) -> Option<
    (Seq<u8>, u8),
>;

/// What `Pubkey::create_program_address` returns for these seeds and this
/// program: the derived address, or `None` where it returns an error.
pub uninterp spec fn created_program_address(seeds: Seq<Seq<u8>>, program_id: Seq<u8>) -> Option<
    Seq<u8>,
>;

/// The seeds with the bump seed as one more seed of a single byte.
pub open spec fn with_bump(seeds: Seq<Seq<u8>>, bump: u8) -> Seq<Seq<u8>> {
    seeds.push(seq![bump])
}

/// A found address and its bump, as bytes.
pub open spec fn found_view(found: Option<(Address, u8)>) -> Option<(Seq<u8>, u8)> {
    match found {
        Some((address, bump)) => Some((address@, bump)),
        None => None,
    }
}

/// The address that was found, where one was.
pub open spec fn found_address(found: Option<(Seq<u8>, u8)>) -> Seq<u8> {
    match found {
        Some((address, _)) => address,
        None => Seq::empty(),
    }
}

/// The bump seed that was found, where one was.
pub open spec fn found_bump(found: Option<(Seq<u8>, u8)>) -> u8 {
    match found {
        Some((_, bump)) => bump,
        None => 0,
    }
}

/// A derived address, as bytes.
pub open spec fn created_view(created: Option<Address>) -> Option<Seq<u8>> {
    match created {
        Some(address) => Some(address@),
        None => None,
    }
}

/// Calls `Pubkey::try_find_program_address`. That function hashes the seeds,
/// one candidate bump seed and the program's identity, from bump 255
/// downwards, and returns the first address that `create_program_address`
/// accepts, with its bump. The contract names that result and says that
/// `create_program_address` on the same seeds followed by the bump gives the
/// same address; nothing here is proved of either.
#[verifier::external_body]
pub(crate) fn try_find_program_address(seeds: &Vec<Vec<u8>>, program_id: &Address) -> (found:
    Option<(Address, u8)>)
    ensures
        found_view(found) == found_program_address(seeds.deep_view(), program_id@),
        found matches Some((address, bump)) ==> created_program_address(
            with_bump(seeds.deep_view(), bump),
            program_id@,
        ) == Some(address@),
{
    let parts: Vec<&[u8]> = seeds.iter().map(|seed| seed.as_slice()).collect();
    Pubkey::try_find_program_address(&parts, &Pubkey::new_from_array(program_id.bytes)).map(
        |(key, bump)| (Address { bytes: key.to_bytes() }, bump),
    )
}

/// Calls `Pubkey::create_program_address`, which hashes the seeds and the
/// program's identity into an address and refuses seeds that are too many or
/// too long, and a hash that is a point of the curve. The contract names the
/// result, with `None` for every refusal.
#[verifier::external_body]
pub(crate) fn create_program_address(seeds: &Vec<Vec<u8>>, program_id: &Address) -> (created:
    Option<Address>)
    ensures
        created_view(created) == created_program_address(seeds.deep_view(), program_id@),
{
    let parts: Vec<&[u8]> = seeds.iter().map(|seed| seed.as_slice()).collect();
    Pubkey::create_program_address(&parts, &Pubkey::new_from_array(program_id.bytes)).ok().map(
        |key| Address { bytes: key.to_bytes() },
    )
}

/// The tag that opens the seeds of every treasury.
pub const TREASURY_TAG: &'static str = "vesting_treasury";

/// The tag that opens the seeds of every employee record.
pub const EMPLOYEE_TAG: &'static str = "employee_vesting";

/// The seeds of a company's vesting record: its name.
pub open spec fn vesting_account_seeds(company_name: Seq<char>) -> Seq<Seq<u8>> {
    seq![encode_utf8(company_name)]
}

/// The seeds of a company's treasury: the treasury tag, then its name.
pub open spec fn treasury_seeds(company_name: Seq<char>) -> Seq<Seq<u8>> {
    seq![encode_utf8(TREASURY_TAG@), encode_utf8(company_name)]
}

/// The seeds of an employee record: the employee tag, the beneficiary, then
/// the company's vesting record.
pub open spec fn employee_seeds(beneficiary: Seq<u8>, vesting_account: Seq<u8>) -> Seq<Seq<u8>> {
    seq![encode_utf8(EMPLOYEE_TAG@), beneficiary, vesting_account]
}

/// Seen through `deep_view`, a list of seeds is the list of their bytes.
proof fn lemma_seeds_deep_view(seeds: Vec<Vec<u8>>)
    ensures
        seeds.deep_view().len() == seeds@.len(),
        forall|i: int| 0 <= i < seeds@.len() ==> #[trigger] seeds.deep_view()[i] == seeds@[i]@,
{
    assert forall|i: int| 0 <= i < seeds@.len() implies #[trigger] seeds.deep_view()[i]
        == seeds@[i]@ by {
        assert(seeds@[i].deep_view() =~= seeds@[i]@);
    }
}

/// Builds the seeds of a company's vesting record.
pub(crate) fn build_vesting_account_seeds(company_name: &str) -> (seeds: Vec<Vec<u8>>)
    ensures
        seeds.deep_view() == vesting_account_seeds(company_name@),
{
    let mut seeds: Vec<Vec<u8>> = Vec::new();
    seeds.push(company_name.as_bytes_vec());
    proof {
        lemma_seeds_deep_view(seeds);
    }
    assert(seeds.deep_view() =~= vesting_account_seeds(company_name@));
    seeds
}

/// Builds the seeds of a company's treasury.
pub(crate) fn build_treasury_seeds(company_name: &str) -> (seeds: Vec<Vec<u8>>)
    ensures
        seeds.deep_view() == treasury_seeds(company_name@),
{
    let mut seeds: Vec<Vec<u8>> = Vec::new();
    seeds.push(TREASURY_TAG.as_bytes_vec());
    seeds.push(company_name.as_bytes_vec());
    proof {
        lemma_seeds_deep_view(seeds);
    }
    assert(seeds.deep_view() =~= treasury_seeds(company_name@));
    seeds
}

/// Builds the seeds of an employee record.
pub(crate) fn build_employee_seeds(beneficiary: &Address, vesting_account: &Address) -> (seeds: Vec<
    Vec<u8>,
>)
    ensures
        seeds.deep_view() == employee_seeds(beneficiary@, vesting_account@),
{
    let mut seeds: Vec<Vec<u8>> = Vec::new();
    seeds.push(EMPLOYEE_TAG.as_bytes_vec());
    seeds.push(beneficiary.to_seed());
    seeds.push(vesting_account.to_seed());
    proof {
        lemma_seeds_deep_view(seeds);
    }
    assert(seeds.deep_view() =~= employee_seeds(beneficiary@, vesting_account@));
    seeds
}

/// Adds the bump seed to the seeds.
pub(crate) fn push_bump(seeds: Vec<Vec<u8>>, bump: u8) -> (bumped: Vec<Vec<u8>>)
    ensures
        bumped.deep_view() == with_bump(seeds.deep_view(), bump),
{
    let mut bumped = seeds;
    let mut last: Vec<u8> = Vec::new();
    last.push(bump);
    bumped.push(last);
    proof {
        lemma_seeds_deep_view(seeds);
        lemma_seeds_deep_view(bumped);
    }
    assert(bumped.deep_view() =~= with_bump(seeds.deep_view(), bump));
    bumped
}

/// The address of a company's vesting record under this program, with its
/// bump, where one can be derived.
pub fn find_vesting_account_address(program_id: &Address, company_name: &str) -> (found: Option<
    (Address, u8),
>)
    ensures
        found_view(found) == found_program_address(
            vesting_account_seeds(company_name@),
            program_id@,
        ),
        found matches Some((address, bump)) ==> created_program_address(
            with_bump(vesting_account_seeds(company_name@), bump),
            program_id@,
        ) == Some(address@),
{
    let seeds = build_vesting_account_seeds(company_name);
    try_find_program_address(&seeds, program_id)
}

/// The address of a company's treasury under this program, with its bump,
/// where one can be derived.
pub fn find_treasury_address(program_id: &Address, company_name: &str) -> (found: Option<
    (Address, u8),
>)
    ensures
        found_view(found) == found_program_address(treasury_seeds(company_name@), program_id@),
        found matches Some((address, bump)) ==> created_program_address(
            with_bump(treasury_seeds(company_name@), bump),
            program_id@,
        ) == Some(address@),
{
    let seeds = build_treasury_seeds(company_name);
    try_find_program_address(&seeds, program_id)
}

/// The address of a beneficiary's record under a company's vesting record,
/// with its bump, where one can be derived.
pub fn find_employee_account_address(
    program_id: &Address,
    beneficiary: &Address,
    vesting_account: &Address,
) -> (found: Option<(Address, u8)>)
    ensures
        found_view(found) == found_program_address(
            employee_seeds(beneficiary@, vesting_account@),
            program_id@,
        ),
        found matches Some((address, bump)) ==> created_program_address(
            with_bump(employee_seeds(beneficiary@, vesting_account@), bump),
            program_id@,
        ) == Some(address@),
{
    let seeds = build_employee_seeds(beneficiary, vesting_account);
    try_find_program_address(&seeds, program_id)
}

} // verus!
