use vstd::prelude::*;
use crate::identity::{copy_bytes, Identity};

verus! {

/// The derived identity and bump seed that the host ledger's program-address
/// derivation yields for a seed sequence under a program identity, or `None`
/// where no viable bump exists (too many seeds, an over-long seed, a program
/// identity that is not 32 bytes, or no bump leaving the curve).
///
/// The derivation is a fixed, collision-resistant hash construction; only its
/// determinism and the 32-byte shape of its result are relied on here.
pub uninterp spec fn spec_derive(seeds: Seq<Seq<u8>>, program_id: Seq<u8>) -> Option<(Seq<u8>, u8)>;

/// The view of a seed list: each seed as its byte sequence.
pub open spec fn seeds_view(seeds: Seq<Vec<u8>>) -> Seq<Seq<u8>> {
    Seq::new(seeds.len(), |i: int| seeds[i]@)
}

/// Relies on `solana_pubkey::Pubkey::try_find_program_address` (the type that
/// `anchor_lang` re-exports as its `Pubkey`): the result depends on the seed
/// bytes and the program identity alone, and a derived address is 32 bytes.
/// A program identity that is not 32 bytes yields `None`, as does a seed
/// sequence for which the derivation itself finds no viable bump.
#[verifier::external_body]
fn derive_address_raw(seeds: &Vec<Vec<u8>>, program_id: &Identity) -> (r: Option<(Identity, u8)>)
    ensures
        (r matches Some(p) ==> spec_derive(seeds_view(seeds@), program_id@) == Some((p.0@, p.1))
            && p.0@.len() == 32),
        (r is None ==> spec_derive(seeds_view(seeds@), program_id@) is None),
{
    let pid = match solana_pubkey::Pubkey::try_from(program_id.bytes.as_slice()) {
        Ok(p) => p,
        Err(_) => return None,
    };
    let seed_refs: Vec<&[u8]> = seeds.iter().map(|s| s.as_slice()).collect();
    match solana_pubkey::Pubkey::try_find_program_address(&seed_refs, &pid) {
        Some((addr, bump)) => Some((Identity { bytes: addr.to_bytes().to_vec() }, bump)),
        None => None,
    }
}

/// The literal seed tag of custody accounts.
pub open spec fn treasury_tag() -> Seq<u8> {
    seq![118u8, 101, 115, 116, 105, 110, 103, 95, 116, 114, 101, 97, 115, 117, 114, 121]
}

/// The literal seed tag of employee schedules.
pub open spec fn employee_tag() -> Seq<u8> {
    seq![101u8, 109, 112, 108, 111, 121, 101, 101, 95, 118, 101, 115, 116, 105, 110, 103]
}

/// The seed sequence of a ledger: the company name alone.
pub open spec fn ledger_seeds(company: Seq<u8>) -> Seq<Seq<u8>> {
    seq![company]
}

/// The seed sequence of a custody account: the treasury tag, then the
/// company name.
pub open spec fn treasury_seeds(company: Seq<u8>) -> Seq<Seq<u8>> {
    seq![treasury_tag(), company]
}

/// The seed sequence of an employee schedule: the employee tag, the
/// beneficiary identity, then the ledger identity.
pub open spec fn employee_seeds(beneficiary: Seq<u8>, ledger: Seq<u8>) -> Seq<Seq<u8>> {
    seq![employee_tag(), beneficiary, ledger]
}

/// The bytes `b"vesting_treasury"`.
fn treasury_tag_bytes() -> (r: Vec<u8>)
    ensures
        r@ == treasury_tag(),
{
    let mut v: Vec<u8> = Vec::new();
    v.push(118);
    v.push(101);
    v.push(115);
    v.push(116);
    v.push(105);
    v.push(110);
    v.push(103);
    v.push(95);
    v.push(116);
    v.push(114);
    v.push(101);
    v.push(97);
    v.push(115);
    v.push(117);
    v.push(114);
    v.push(121);
    assert(v@ =~= treasury_tag());
    v
}

/// The bytes `b"employee_vesting"`.
fn employee_tag_bytes() -> (r: Vec<u8>)
    ensures
        r@ == employee_tag(),
{
    let mut v: Vec<u8> = Vec::new();
    v.push(101);
    v.push(109);
    v.push(112);
    v.push(108);
    v.push(111);
    v.push(121);
    v.push(101);
    v.push(101);
    v.push(95);
    v.push(118);
    v.push(101);
    v.push(115);
    v.push(116);
    v.push(105);
    v.push(110);
    v.push(103);
    assert(v@ =~= employee_tag());
    v
}

/// Derives the identity of the ledger registered under a company name.
pub fn derive_ledger_address(program_id: &Identity, company_name: &Vec<u8>) -> (r: Option<(
    Identity,
    u8,
)>)
    ensures
        (r matches Some(p) ==> spec_derive(ledger_seeds(company_name@), program_id@) == Some(
            (p.0@, p.1),
        ) && p.0@.len() == 32),
        (r is None ==> spec_derive(ledger_seeds(company_name@), program_id@) is None),
{
    let mut seeds: Vec<Vec<u8>> = Vec::new();
    seeds.push(copy_bytes(company_name));
    assert(seeds_view(seeds@) =~= ledger_seeds(company_name@));
    derive_address_raw(&seeds, program_id)
}

/// Derives the identity of the custody account of a company's ledger.
pub fn derive_treasury_address(program_id: &Identity, company_name: &Vec<u8>) -> (r: Option<(
    Identity,
    u8,
)>)
    ensures
        (r matches Some(p) ==> spec_derive(treasury_seeds(company_name@), program_id@) == Some(
            (p.0@, p.1),
        ) && p.0@.len() == 32),
        (r is None ==> spec_derive(treasury_seeds(company_name@), program_id@) is None),
{
    let mut seeds: Vec<Vec<u8>> = Vec::new();
    seeds.push(treasury_tag_bytes());
    seeds.push(copy_bytes(company_name));
    assert(seeds_view(seeds@) =~= treasury_seeds(company_name@));
    derive_address_raw(&seeds, program_id)
}

/// Derives the identity of the schedule of a beneficiary under a ledger.
pub fn derive_employee_address(program_id: &Identity, beneficiary: &Identity, ledger: &Identity) -> (r: Option<(Identity, u8)>)
    ensures
        (r matches Some(p) ==> spec_derive(employee_seeds(beneficiary@, ledger@), program_id@)
            == Some((p.0@, p.1)) && p.0@.len() == 32),
        (r is None ==> spec_derive(employee_seeds(beneficiary@, ledger@), program_id@) is None),
{
    let mut seeds: Vec<Vec<u8>> = Vec::new();
    seeds.push(employee_tag_bytes());
    seeds.push(copy_bytes(&beneficiary.bytes));
    seeds.push(copy_bytes(&ledger.bytes));
    assert(seeds_view(seeds@) =~= employee_seeds(beneficiary@, ledger@));
    derive_address_raw(&seeds, program_id)
}

} // verus!
