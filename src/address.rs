use vstd::prelude::*;
use crate::key::Key;

verus! {

/// The address that program-address derivation gives for `seeds` under
/// `program_id`, or `None` where no bump seed yields an address.
pub uninterp spec fn program_address_of(seeds: Seq<Seq<u8>>, program_id: Seq<u8>) -> Option<Seq<u8>>;

pub open spec fn key_opt_view(k: Option<Key>) -> Option<Seq<u8>> {
    match k {
        Some(a) => Some(a@),
        None => None,
    }
}

/// Namespace of profile records: the bytes of "user".
pub open spec fn user_tag() -> Seq<u8> {
    seq![117u8, 115u8, 101u8, 114u8]
}

/// Namespace of payment-link records: the bytes of "payment_link".
pub open spec fn payment_link_tag() -> Seq<u8> {
    seq![112u8, 97u8, 121u8, 109u8, 101u8, 110u8, 116u8, 95u8, 108u8, 105u8, 110u8, 107u8]
}

pub open spec fn profile_seeds(owner: Seq<u8>) -> Seq<Seq<u8>> {
    seq![user_tag(), owner]
}

pub open spec fn payment_link_seeds(owner: Seq<u8>, idx: u8) -> Seq<Seq<u8>> {
    seq![payment_link_tag(), owner, seq![idx]]
}

/// Where the profile of `owner` lives.
pub open spec fn profile_address_of(program_id: Seq<u8>, owner: Seq<u8>) -> Option<Seq<u8>> {
    program_address_of(profile_seeds(owner), program_id)
}

/// Where the payment link of `owner` with index `idx` lives.
pub open spec fn payment_link_address_of(program_id: Seq<u8>, owner: Seq<u8>, idx: u8) -> Option<Seq<u8>> {
    program_address_of(payment_link_seeds(owner, idx), program_id)
}

/// Relies on `Pubkey::try_find_program_address` (anchor_lang's `Pubkey`, the
/// `Address` of solana-address): the address it finds depends on the seeds and
/// the program id alone, and it returns `None`, never panicking, where no bump
/// seed gives an off-curve address or the seeds exceed its limits.
#[verifier::external_body]
fn find_program_address(seeds: &Vec<Vec<u8>>, program_id: &Key) -> (r: Option<Key>)
    ensures
        key_opt_view(r) == program_address_of(seeds.deep_view(), program_id@),
{
    let slices: Vec<&[u8]> = seeds.iter().map(|s| s.as_slice()).collect();
    let program = anchor_lang::prelude::Pubkey::new_from_array(program_id.bytes);
    anchor_lang::prelude::Pubkey::try_find_program_address(&slices, &program)
        .map(|(found, _bump)| Key { bytes: found.to_bytes() })
}

fn user_tag_bytes() -> (r: Vec<u8>)
    ensures
        r@ == user_tag(),
{
    let r: Vec<u8> = vec![117u8, 115u8, 101u8, 114u8];
    assert(r@ =~= user_tag());
    r
}

fn payment_link_tag_bytes() -> (r: Vec<u8>)
    ensures
        r@ == payment_link_tag(),
{
    let r: Vec<u8> = vec![112u8, 97u8, 121u8, 109u8, 101u8, 110u8, 116u8, 95u8, 108u8, 105u8, 110u8, 107u8];
    assert(r@ =~= payment_link_tag());
    r
}

/// Derives the address of `owner`'s profile record.
pub fn profile_address(program_id: &Key, owner: &Key) -> (r: Option<Key>)
    ensures
        key_opt_view(r) == profile_address_of(program_id@, owner@),
{
    let tag = user_tag_bytes();
    let owner_bytes = owner.to_vec();
    assert(tag.deep_view() =~= tag@);
    assert(owner_bytes.deep_view() =~= owner_bytes@);
    let seeds: Vec<Vec<u8>> = vec![tag, owner_bytes];
    assert(seeds.deep_view() =~= profile_seeds(owner@));
    find_program_address(&seeds, program_id)
}

/// Derives the address of `owner`'s payment link with index `idx`.
pub fn payment_link_address(program_id: &Key, owner: &Key, idx: u8) -> (r: Option<Key>)
    ensures
        key_opt_view(r) == payment_link_address_of(program_id@, owner@, idx),
{
    let tag = payment_link_tag_bytes();
    let owner_bytes = owner.to_vec();
    let idx_bytes: Vec<u8> = vec![idx];
    assert(tag.deep_view() =~= tag@);
    assert(owner_bytes.deep_view() =~= owner_bytes@);
    assert(idx_bytes.deep_view() =~= seq![idx]);
    let seeds: Vec<Vec<u8>> = vec![tag, owner_bytes, idx_bytes];
    assert(seeds.deep_view() =~= payment_link_seeds(owner@, idx));
    find_program_address(&seeds, program_id)
}

} // verus!
