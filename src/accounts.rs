use vstd::prelude::*;

use crate::address::{derived, is_derived, state_tag, Address, AddressKind};
use crate::error::VaultError;

verus! {

/// The persisted record of an owner's vault: the two bumps found when it was
/// created. The owner is not stored; it is a seed of the record's address.
#[derive(Clone, Copy, Debug, PartialEq, Eq, Structural)]
pub struct VaultState {
    pub state_bump: u8,
    pub vault_bump: u8,
}

/// Bytes of the record type's framing that precede the fields.
pub const DISCRIMINATOR_LEN: usize = 8;

/// Bytes of the record's fields: the two bumps.
pub const INIT_SPACE: usize = 2;

/// Bytes allocated for a state record.
pub const STATE_SPACE: usize = DISCRIMINATOR_LEN + INIT_SPACE;

/// The owner's wallet as an instruction sees it.
#[derive(Clone, Copy, Debug)]
pub struct Wallet {
    pub key: Address,
    pub lamports: u64,
    /// Whether the request carries the owner's signature.
    pub is_signer: bool,
}

/// The account at the state address: its lamports and, while the vault is
/// open, its record.
#[derive(Clone, Copy, Debug)]
pub struct StateAccount {
    pub key: Address,
    pub lamports: u64,
    pub data: Option<VaultState>,
}

/// The program-derived account that holds the vault's lamports.
#[derive(Clone, Copy, Debug)]
pub struct VaultAccount {
    pub key: Address,
    pub lamports: u64,
}

/// What loading the record at `state` for `owner` gives: `NotFound` when
/// there is none, `NotOwner` when its address is not the one that `owner`
/// and the stored state bump derive.
pub open spec fn load_outcome(state: StateAccount, owner: Seq<u8>, program: Seq<u8>) -> Result<
    VaultState,
    VaultError,
> {
    match state.data {
        None => Err(VaultError::NotFound),
        Some(vs) => if derived(state_tag(), owner, vs.state_bump, program) == Some(state.key@) {
            Ok(vs)
        } else {
            Err(VaultError::NotOwner)
        },
    }
}

/// Loads the record of `owner`'s vault from the account at its state address.
pub fn load(state: &StateAccount, owner: &Address, program: &Address) -> (r: Result<
    VaultState,
    VaultError,
>)
    ensures
        r == load_outcome(*state, owner@, program@),
{
    match state.data {
        None => Err(VaultError::NotFound),
        Some(vs) => {
            if is_derived(AddressKind::State, owner, vs.state_bump, program, &state.key) {
                Ok(vs)
            } else {
                Err(VaultError::NotOwner)
            }
        },
    }
}

} // verus!
