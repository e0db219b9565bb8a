use vstd::prelude::*;
use crate::key::{Key, PROGRAM_ID};

verus! {

/// What `Pubkey::create_program_address` yields for these seeds and this
/// program: the address, or nothing where the seeds are rejected.
pub uninterp spec fn program_address(seeds: Seq<Seq<u8>>, program_id: Seq<u8>) -> Option<Seq<u8>>;

/// What `Pubkey::try_find_program_address` yields for these seeds and this
/// program: the address and its bump seed, or nothing.
pub uninterp spec fn found_program_address(seeds: Seq<Seq<u8>>, program_id: Seq<u8>) -> Option<(Seq<u8>, u8)>;

pub open spec fn seeds_view(seeds: Seq<Vec<u8>>) -> Seq<Seq<u8>> {
    seeds.map_values(|s: Vec<u8>| s@)
}

/// Relies on anchor_lang's `Pubkey::create_program_address`: hashes the seeds
/// with the program id and returns the address unless it lies on the curve or
/// a seed is too long. A function of its arguments alone.
#[verifier::external_body]
fn create_program_address(seeds: &Vec<Vec<u8>>, program_id: &Key) -> (r: Option<Key>)
    ensures
        match r {
            Some(k) => program_address(seeds_view(seeds@), program_id@) == Some(k@),
            None => program_address(seeds_view(seeds@), program_id@) is None,
        },
{
    let parts: Vec<&[u8]> = seeds.iter().map(|s| s.as_slice()).collect();
    let pid = anchor_lang::prelude::Pubkey::new_from_array(program_id.bytes);
    anchor_lang::prelude::Pubkey::create_program_address(&parts, &pid).ok().map(|k| Key { bytes: k.to_bytes() })
}

/// Relies on anchor_lang's `Pubkey::try_find_program_address`: tries bump
/// seeds from 255 down and returns the first address that
/// `create_program_address` accepts for the seeds followed by that bump.
#[verifier::external_body]
fn try_find_program_address(seeds: &Vec<Vec<u8>>, program_id: &Key) -> (r: Option<(Key, u8)>)
    ensures
        match r {
            Some((k, b)) => found_program_address(seeds_view(seeds@), program_id@) == Some((k@, b))
                && program_address(seeds_view(seeds@).push(seq![b]), program_id@) == Some(k@),
            None => found_program_address(seeds_view(seeds@), program_id@) is None,
        },
{
    let parts: Vec<&[u8]> = seeds.iter().map(|s| s.as_slice()).collect();
    let pid = anchor_lang::prelude::Pubkey::new_from_array(program_id.bytes);
    anchor_lang::prelude::Pubkey::try_find_program_address(&parts, &pid).map(|(k, b)| (Key { bytes: k.to_bytes() }, b))
}

/// The tag of the authority that owns every holding account.
pub open spec fn vault_owner_tag() -> Seq<u8> {
    seq![118u8, 97u8, 117u8, 108u8, 116u8, 95u8, 111u8, 119u8, 110u8, 101u8, 114u8]
}

/// The tag of a holding account's address.
pub open spec fn vault_tag() -> Seq<u8> {
    seq![116u8, 111u8, 107u8, 101u8, 110u8, 49u8, 95u8, 118u8, 97u8, 117u8, 108u8, 116u8]
}

/// Seeds of the protocol authority, before its bump.
pub open spec fn vault_owner_seeds() -> Seq<Seq<u8>> {
    seq![vault_owner_tag()]
}

/// Seeds of the holding account of a depositor and a mint, before its bump.
pub open spec fn vault_seeds(depositor: Seq<u8>, mint: Seq<u8>) -> Seq<Seq<u8>> {
    seq![vault_tag(), depositor, mint]
}

/// The protocol authority that a bump seed derives, if any.
pub open spec fn signer_for_bump(bump: u8) -> Option<Seq<u8>> {
    program_address(vault_owner_seeds().push(seq![bump]), PROGRAM_ID@)
}

/// The protocol authority with its canonical bump.
pub open spec fn canonical_vault_owner() -> Option<(Seq<u8>, u8)> {
    found_program_address(vault_owner_seeds(), PROGRAM_ID@)
}

/// The holding account address of a depositor and a mint.
pub open spec fn canonical_vault(depositor: Seq<u8>, mint: Seq<u8>) -> Option<(Seq<u8>, u8)> {
    found_program_address(vault_seeds(depositor, mint), PROGRAM_ID@)
}

pub open spec fn key_of(r: Option<(Seq<u8>, u8)>) -> Option<Seq<u8>> {
    match r {
        Some((k, _)) => Some(k),
        None => None,
    }
}

pub open spec fn opt_view(k: Option<Key>) -> Option<Seq<u8>> {
    match k {
        Some(k) => Some(k@),
        None => None,
    }
}

fn vault_owner_tag_bytes() -> (r: Vec<u8>)
    ensures
        r@ == vault_owner_tag(),
{
    let r: Vec<u8> = vec![118u8, 97u8, 117u8, 108u8, 116u8, 95u8, 111u8, 119u8, 110u8, 101u8, 114u8];
    assert(r@ =~= vault_owner_tag());
    r
}

fn vault_tag_bytes() -> (r: Vec<u8>)
    ensures
        r@ == vault_tag(),
{
    let r: Vec<u8> = vec![116u8, 111u8, 107u8, 101u8, 110u8, 49u8, 95u8, 118u8, 97u8, 117u8, 108u8, 116u8];
    assert(r@ =~= vault_tag());
    r
}

fn key_bytes(k: &Key) -> (r: Vec<u8>)
    ensures
        r@ == k@,
{
    let mut r: Vec<u8> = Vec::new();
    let mut i: usize = 0;
    while i < 32
        invariant
            0 <= i <= 32,
            k.bytes@.len() == 32,
            r@ == k.bytes@.take(i as int),
        decreases 32 - i,
    {
        r.push(k.bytes[i]);
        assert(r@ =~= k.bytes@.take(i as int + 1));
        i = i + 1;
    }
    assert(r@ =~= k.bytes@);
    r
}

/// The protocol authority that a caller-supplied bump seed derives, if any.
pub fn vault_owner_for_bump(bump: u8) -> (r: Option<Key>)
    ensures
        opt_view(r) == signer_for_bump(bump),
{
    let mut seeds: Vec<Vec<u8>> = Vec::new();
    seeds.push(vault_owner_tag_bytes());
    let mut b: Vec<u8> = Vec::new();
    b.push(bump);
    seeds.push(b);
    proof {
        assert(seeds_view(seeds@) =~= vault_owner_seeds().push(seq![bump]));
    }
    create_program_address(&seeds, &Key::program_id())
}

/// The protocol authority, found with its canonical bump.
pub fn find_vault_owner() -> (r: Option<(Key, u8)>)
    ensures
        match r {
            Some((k, b)) => canonical_vault_owner() == Some((k@, b)) && signer_for_bump(b) == Some(k@),
            None => canonical_vault_owner() is None,
        },
{
    let mut seeds: Vec<Vec<u8>> = Vec::new();
    seeds.push(vault_owner_tag_bytes());
    proof {
        assert(seeds_view(seeds@) =~= vault_owner_seeds());
    }
    let r = try_find_program_address(&seeds, &Key::program_id());
    proof {
        if let Some((k, b)) = r {
            assert(seeds_view(seeds@).push(seq![b]) =~= vault_owner_seeds().push(seq![b]));
        }
    }
    r
}

/// The address of the holding account of a depositor and a mint.
pub fn find_vault(depositor: &Key, mint: &Key) -> (r: Option<Key>)
    ensures
        opt_view(r) == key_of(canonical_vault(depositor@, mint@)),
{
    let mut seeds: Vec<Vec<u8>> = Vec::new();
    seeds.push(vault_tag_bytes());
    seeds.push(key_bytes(depositor));
    seeds.push(key_bytes(mint));
    proof {
        assert(seeds_view(seeds@) =~= vault_seeds(depositor@, mint@));
    }
    match try_find_program_address(&seeds, &Key::program_id()) {
        Some((k, _)) => Some(k),
        None => None,
    }
}

} // verus!
