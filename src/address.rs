use anchor_lang::prelude::Pubkey;
use vstd::prelude::*;

use crate::error::VaultError;

verus! {

/// A 32-byte ledger address: a wallet, a program, or a program-derived
/// address.
#[derive(Clone, Copy, Debug)]
pub struct Address {
    pub bytes: [u8; 32],
}

impl View for Address {
    type V = Seq<u8>;

    open spec fn view(&self) -> Seq<u8> {
        self.bytes@
    }
}

/// What `Pubkey::create_program_address` yields for the given seeds and
/// program: the derived address, or nothing when the hash lies on the curve.
pub uninterp spec fn program_address_of(seeds: Seq<Seq<u8>>, program: Seq<u8>) -> Option<Seq<u8>>;

/// The seed list as byte sequences.
pub open spec fn seeds_view(seeds: Seq<Vec<u8>>) -> Seq<Seq<u8>> {
    seeds.map_values(|s: Vec<u8>| s@)
}

/// The seeds take at most 16 parts of at most 32 bytes each, as the
/// derivation demands.
pub open spec fn seeds_fit(seeds: Seq<Seq<u8>>) -> bool {
    &&& seeds.len() <= 16
    &&& forall|i: int| 0 <= i < seeds.len() ==> (#[trigger] seeds[i]).len() <= 32
}

/// The canonical bump: the highest of `b`, `b - 1`, ..., 1 that, appended
/// to the seeds, gives a program address.
pub open spec fn search_bump(seeds: Seq<Seq<u8>>, program: Seq<u8>, b: u8) -> Option<u8>
    decreases b,
{
    if b == 0 {
        None
    } else if program_address_of(seeds.push(seq![b]), program) is Some {
        Some(b)
    } else {
        search_bump(seeds, program, (b - 1) as u8)
    }
}

/// Which of an owner's two addresses is meant.
#[derive(Clone, Copy, Debug, PartialEq, Eq, Structural)]
pub enum AddressKind {
    /// The address of the state record.
    State,
    /// The address that holds the vault's lamports.
    Vault,
}

/// The seed tag of each kind of address.
pub open spec fn tag_of(kind: AddressKind) -> Seq<u8> {
    match kind {
        AddressKind::State => state_tag(),
        AddressKind::Vault => vault_tag(),
    }
}

/// The tag of the state record's address.
pub open spec fn state_tag() -> Seq<u8> {
    seq![115u8, 116u8, 97u8, 116u8, 101u8]
}

/// The tag of the vault's address.
pub open spec fn vault_tag() -> Seq<u8> {
    seq![118u8, 97u8, 117u8, 108u8, 116u8]
}

/// The full seed list of an owner's address under a tag and a bump.
pub open spec fn bumped_seeds(tag: Seq<u8>, owner: Seq<u8>, bump: u8) -> Seq<Seq<u8>> {
    seq![tag, owner, seq![bump]]
}

/// The address that a tag, an owner and a bump derive, if any.
pub open spec fn derived(tag: Seq<u8>, owner: Seq<u8>, bump: u8, program: Seq<u8>) -> Option<Seq<u8>> {
    program_address_of(bumped_seeds(tag, owner, bump), program)
}

/// The canonical bump of an owner's address under a tag.
pub open spec fn canonical_bump(tag: Seq<u8>, owner: Seq<u8>, program: Seq<u8>) -> Option<u8> {
    search_bump(seq![tag, owner], program, 255)
}

/// Relies on `Pubkey::create_program_address`: for seeds within its limits
/// it returns the derived address, or an error when the hash lies on the
/// curve.
#[verifier::external_body]
fn create_program_address(seeds: &Vec<Vec<u8>>, program: &Address) -> (r: Option<Address>)
    requires
        seeds_fit(seeds_view(seeds@)),
    ensures
        r matches Some(a) ==> program_address_of(seeds_view(seeds@), program@) == Some(a@),
        r is None ==> program_address_of(seeds_view(seeds@), program@) is None,
{
    let s: Vec<&[u8]> = seeds.iter().map(|x| x.as_slice()).collect();
    let p = Pubkey::new_from_array(program.bytes);
    Pubkey::create_program_address(&s, &p).ok().map(|a| Address { bytes: a.to_bytes() })
}

/// Relies on `Pubkey::try_find_program_address`: it appends the bumps 255,
/// 254, ..., 1 to the seeds in turn and returns the first address that
/// `create_program_address` accepts, with its bump.
#[verifier::external_body]
fn try_find_program_address(seeds: &Vec<Vec<u8>>, program: &Address) -> (r: Option<(Address, u8)>)
    requires
        seeds_fit(seeds_view(seeds@)),
        seeds@.len() < 16,
    ensures
        r matches Some((a, b)) ==> search_bump(seeds_view(seeds@), program@, 255) == Some(b)
            && program_address_of(seeds_view(seeds@).push(seq![b]), program@) == Some(a@),
        r is None ==> search_bump(seeds_view(seeds@), program@, 255) is None,
{
    let s: Vec<&[u8]> = seeds.iter().map(|x| x.as_slice()).collect();
    let p = Pubkey::new_from_array(program.bytes);
    Pubkey::try_find_program_address(&s, &p).map(|(a, b)| (Address { bytes: a.to_bytes() }, b))
}

/// Whether two addresses are the same.
pub fn same_key(a: &Address, b: &Address) -> (r: bool)
    ensures
        r == (a@ == b@),
{
    let mut i: usize = 0;
    while i < 32
        invariant
            i <= 32,
            forall|j: int| 0 <= j < i ==> a@[j] == b@[j],
        decreases 32 - i,
    {
        if a.bytes[i] != b.bytes[i] {
            return false;
        }
        i = i + 1;
    }
    assert(a@ =~= b@);
    true
}

fn address_bytes(a: &Address) -> (r: Vec<u8>)
    ensures
        r@ == a@,
{
    let mut r: Vec<u8> = Vec::new();
    let mut i: usize = 0;
    while i < 32
        invariant
            i <= 32,
            r@ == a@.subrange(0, i as int),
        decreases 32 - i,
    {
        r.push(a.bytes[i]);
        i = i + 1;
    }
    assert(r@ =~= a@);
    r
}

fn tag_bytes(kind: AddressKind) -> (r: Vec<u8>)
    ensures
        r@ == tag_of(kind),
{
    let r = match kind {
        AddressKind::Vault => vec![118u8, 97u8, 117u8, 108u8, 116u8],
        AddressKind::State => vec![115u8, 116u8, 97u8, 116u8, 101u8],
    };
    assert(r@ =~= tag_of(kind));
    r
}

/// Finds the canonical address of an owner under a kind, with its bump,
/// or fails with `NotFound` when no bump yields a program address.
pub fn derive_address(kind: AddressKind, owner: &Address, program: &Address) -> (r: Result<
    (Address, u8),
    VaultError,
>)
    ensures
        match r {
            Ok((a, b)) => canonical_bump(tag_of(kind), owner@, program@) == Some(b) && derived(
                tag_of(kind),
                owner@,
                b,
                program@,
            ) == Some(a@),
            Err(e) => e == VaultError::NotFound && canonical_bump(tag_of(kind), owner@, program@) is None,
        },
{
    let mut seeds: Vec<Vec<u8>> = Vec::new();
    seeds.push(tag_bytes(kind));
    seeds.push(address_bytes(owner));
    assert(seeds_view(seeds@) =~= seq![tag_of(kind), owner@]);
    match try_find_program_address(&seeds, program) {
        Some((a, b)) => {
            assert(seq![tag_of(kind), owner@].push(seq![b]) =~= bumped_seeds(tag_of(kind), owner@, b));
            Ok((a, b))
        },
        None => Err(VaultError::NotFound),
    }
}

/// Whether the tag of `kind`, the owner and the bump derive exactly `key`.
pub fn is_derived(kind: AddressKind, owner: &Address, bump: u8, program: &Address, key: &Address) -> (r: bool)
    ensures
        r == (derived(tag_of(kind), owner@, bump, program@) == Some(key@)),
{
    let mut bump_seed: Vec<u8> = Vec::new();
    bump_seed.push(bump);
    let mut seeds: Vec<Vec<u8>> = Vec::new();
    seeds.push(tag_bytes(kind));
    seeds.push(address_bytes(owner));
    seeds.push(bump_seed);
    assert(seeds_view(seeds@) =~= bumped_seeds(tag_of(kind), owner@, bump));
    match create_program_address(&seeds, program) {
        Some(a) => same_key(&a, key),
        None => false,
    }
}

} // verus!
