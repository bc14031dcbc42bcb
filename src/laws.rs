use vstd::prelude::*;

use crate::accounts::{load_outcome, VaultState};
use crate::address::{canonical_bump, derived, tag_of, vault_tag, AddressKind};
use crate::error::VaultError;
use crate::instructions::{derivation_outcome, Close, Deposit, Initialize, Withdraw};

verus! {

/// The total of the lamports that an instruction's three accounts hold.
pub open spec fn lamports_held(i: Initialize) -> int {
    i.owner.lamports + i.vault_state.lamports + i.vault.lamports
}

/// The whole life of a vault: open it, deposit `deposited`, withdraw
/// `withdrawn`, close it, each instruction on the accounts the previous one
/// left.
pub open spec fn round_trip(i: Initialize, deposited: u64, withdrawn: u64) -> Result<Close, VaultError> {
    match i.outcome() {
        Err(e) => Err(e),
        Ok(a) => match (Deposit {
            owner: a.owner,
            vault_state: a.vault_state,
            vault: a.vault,
            program_id: a.program_id,
        }).outcome(deposited) {
            Err(e) => Err(e),
            Ok(b) => match (Withdraw {
                owner: b.owner,
                vault_state: b.vault_state,
                vault: b.vault,
                program_id: b.program_id,
                vault_rent: i.vault_rent,
            }).outcome(withdrawn) {
                Err(e) => Err(e),
                Ok(c) => (Close {
                    owner: c.owner,
                    vault_state: c.vault_state,
                    vault: c.vault,
                    program_id: c.program_id,
                }).outcome(),
            },
        },
    }
}

/// Opening a vault a second time, on the accounts the first opening left,
/// fails with `AlreadyInitialized`.
pub proof fn lemma_initialize_twice(i: Initialize)
    requires
        i.outcome() is Ok,
    ensures
        i.outcome()->Ok_0.outcome() == Err::<Initialize, VaultError>(VaultError::AlreadyInitialized),
{
}

/// A valid deposit that the owner can pay succeeds, raises the vault's
/// balance by exactly the amount, lowers the owner's by as much, and leaves
/// the record and its bumps as they were.
pub proof fn lemma_deposit_adds_amount(d: Deposit, amount: u64)
    requires
        d.owner.is_signer,
        derivation_outcome(AddressKind::State, d.owner.key@, d.program_id@, d.vault_state.key@) is Ok,
        derivation_outcome(AddressKind::Vault, d.owner.key@, d.program_id@, d.vault.key@) is Ok,
        d.vault_state.data is Some,
        d.owner.lamports >= amount,
        d.vault.lamports + amount <= u64::MAX,
    ensures
        d.outcome(amount) matches Ok(s) && s.vault.lamports == d.vault.lamports + amount
            && s.owner.lamports == d.owner.lamports - amount && s.vault_state == d.vault_state,
{
}

/// Withdrawing more than the vault holds, by its signing owner with the
/// stored seeds, fails with `InsufficientFunds`.
pub proof fn lemma_withdraw_beyond_balance(w: Withdraw, amount: u64)
    requires
        w.owner.is_signer,
        load_outcome(w.vault_state, w.owner.key@, w.program_id@) matches Ok(vs) && derived(
            vault_tag(),
            w.owner.key@,
            vs.vault_bump,
            w.program_id@,
        ) == Some(w.vault.key@),
        amount > w.vault.lamports,
    ensures
        w.outcome(amount) == Err::<Withdraw, VaultError>(VaultError::InsufficientFunds),
{
}

/// Withdrawing from an address that the vault seeds with the stored bump do
/// not derive fails with `InvalidSeeds`.
pub proof fn lemma_withdraw_wrong_seeds(w: Withdraw, amount: u64)
    requires
        w.owner.is_signer,
        load_outcome(w.vault_state, w.owner.key@, w.program_id@) matches Ok(vs) && derived(
            vault_tag(),
            w.owner.key@,
            vs.vault_bump,
            w.program_id@,
        ) != Some(w.vault.key@),
    ensures
        w.outcome(amount) == Err::<Withdraw, VaultError>(VaultError::InvalidSeeds),
{
}

/// Closing a vault gives its whole balance and the record's rent to the
/// owner, leaves both accounts empty so that loading the record finds
/// nothing, and a new opening on those accounts then succeeds with the
/// canonical bumps.
pub proof fn lemma_close_then_initialize(c: Close, state_rent: u64, vault_rent: u64)
    requires
        c.outcome() is Ok,
        derivation_outcome(AddressKind::State, c.owner.key@, c.program_id@, c.vault_state.key@) is Ok,
        derivation_outcome(AddressKind::Vault, c.owner.key@, c.program_id@, c.vault.key@) is Ok,
        c.owner.lamports + c.vault.lamports + c.vault_state.lamports >= state_rent + vault_rent,
    ensures
        ({
            let s = c.outcome()->Ok_0;
            let i = Initialize {
                owner: s.owner,
                vault_state: s.vault_state,
                vault: s.vault,
                program_id: s.program_id,
                state_rent,
                vault_rent,
            };
            &&& s.owner.lamports == c.owner.lamports + c.vault.lamports + c.vault_state.lamports
            &&& s.vault.lamports == 0
            &&& s.vault_state.lamports == 0
            &&& load_outcome(s.vault_state, s.owner.key@, s.program_id@) == Err::<
                VaultState,
                VaultError,
            >(VaultError::NotFound)
            &&& i.outcome() matches Ok(t) && t.vault_state.data == Some(
                VaultState {
                    state_bump: canonical_bump(tag_of(AddressKind::State), c.owner.key@, c.program_id@)->Some_0,
                    vault_bump: canonical_bump(tag_of(AddressKind::Vault), c.owner.key@, c.program_id@)->Some_0,
                },
            )
        }),
{
}

/// Over a vault's whole life no lamport is lost or created: once it is
/// closed the owner holds everything the three accounts held before it was
/// opened, and the vault and state accounts hold nothing.
pub proof fn lemma_round_trip_conserves(i: Initialize, deposited: u64, withdrawn: u64)
    ensures
        round_trip(i, deposited, withdrawn) matches Ok(c) ==> c.owner.lamports == lamports_held(i)
            && c.vault.lamports == 0 && c.vault_state.lamports == 0 && c.vault_state.data is None,
{
}

} // verus!
