use vstd::prelude::*;

use crate::accounts::VaultAccount;
use crate::address::{derived, is_derived, vault_tag, Address, AddressKind};
use crate::error::VaultError;

verus! {

/// What moving `amount` lamports between two balances gives: the new pair,
/// or why it cannot happen. The payer must keep at least `floor`.
pub open spec fn transfer_outcome(from: u64, to: u64, amount: u64, floor: u64) -> Result<
    (u64, u64),
    VaultError,
> {
    if amount > from {
        Err(VaultError::InsufficientFunds)
    } else if from - amount < floor {
        Err(VaultError::BelowMinimumBalance)
    } else if to + amount > u64::MAX {
        Err(VaultError::ArithmeticOverflow)
    } else {
        Ok(((from - amount) as u64, (to + amount) as u64))
    }
}

/// Moves `amount` lamports from one balance to another, all or nothing.
pub fn transfer(from: &mut u64, to: &mut u64, amount: u64, floor: u64) -> (r: Result<(), VaultError>)
    ensures
        match transfer_outcome(*old(from), *old(to), amount, floor) {
            Ok((f, t)) => r is Ok && *final(from) == f && *final(to) == t,
            Err(e) => r == Err::<(), VaultError>(e) && *final(from) == *old(from) && *final(to)
                == *old(to),
        },
        *final(from) + *final(to) == *old(from) + *old(to),
{
    if amount > *from {
        return Err(VaultError::InsufficientFunds);
    }
    if *from - amount < floor {
        return Err(VaultError::BelowMinimumBalance);
    }
    if amount > u64::MAX - *to {
        return Err(VaultError::ArithmeticOverflow);
    }
    *from = *from - amount;
    *to = *to + amount;
    Ok(())
}

/// The derived signing proof for moving lamports out of an owner's vault:
/// the vault tag, the owner and the stored bump must derive exactly the
/// paying address, or the transfer fails with `InvalidSeeds`.
pub fn authorize_vault_signer(owner: &Address, vault_bump: u8, program: &Address, from: &Address) -> (r:
    Result<(), VaultError>)
    ensures
        r is Ok <==> derived(vault_tag(), owner@, vault_bump, program@) == Some(from@),
        r is Err ==> r == Err::<(), VaultError>(VaultError::InvalidSeeds),
{
    if is_derived(AddressKind::Vault, owner, vault_bump, program, from) {
        Ok(())
    } else {
        Err(VaultError::InvalidSeeds)
    }
}

/// Moves `amount` lamports out of the vault, signed by its derivation seeds.
pub fn signed_transfer(
    owner: &Address,
    vault_bump: u8,
    program: &Address,
    vault: &mut VaultAccount,
    to: &mut u64,
    amount: u64,
    floor: u64,
) -> (r: Result<(), VaultError>)
    ensures
        derived(vault_tag(), owner@, vault_bump, program@) != Some(old(vault).key@) ==> r == Err::<
            (),
            VaultError,
        >(VaultError::InvalidSeeds) && *final(vault) == *old(vault) && *final(to) == *old(to),
        derived(vault_tag(), owner@, vault_bump, program@) == Some(old(vault).key@) ==> match transfer_outcome(
            old(vault).lamports,
            *old(to),
            amount,
            floor,
        ) {
            Ok((f, t)) => r is Ok && *final(vault) == (VaultAccount { lamports: f, ..*old(vault) })
                && *final(to) == t,
            Err(e) => r == Err::<(), VaultError>(e) && *final(vault) == *old(vault) && *final(to)
                == *old(to),
        },
{
    match authorize_vault_signer(owner, vault_bump, program, &vault.key) {
        Err(e) => Err(e),
        Ok(()) => transfer(&mut vault.lamports, to, amount, floor),
    }
}

} // verus!
