use vstd::prelude::*;

use crate::accounts::{load, load_outcome, StateAccount, VaultAccount, VaultState, Wallet};
use crate::address::{
    canonical_bump, derive_address, derived, same_key, tag_of, vault_tag, Address, AddressKind,
};
use crate::error::VaultError;
use crate::transfer::{authorize_vault_signer, signed_transfer, transfer, transfer_outcome};

verus! {

/// What checking `key` against the canonical address of `owner` under `kind`
/// gives: the canonical bump, `NotFound` when there is none, or
/// `InvalidSeeds` when `key` is another address.
pub open spec fn derivation_outcome(kind: AddressKind, owner: Seq<u8>, program: Seq<u8>, key: Seq<u8>) -> Result<
    u8,
    VaultError,
> {
    match canonical_bump(tag_of(kind), owner, program) {
        None => Err(VaultError::NotFound),
        Some(b) => if derived(tag_of(kind), owner, b, program) == Some(key) {
            Ok(b)
        } else {
            Err(VaultError::InvalidSeeds)
        },
    }
}

fn check_canonical(kind: AddressKind, owner: &Address, program: &Address, key: &Address) -> (r: Result<
    u8,
    VaultError,
>)
    ensures
        r == derivation_outcome(kind, owner@, program@, key@),
{
    match derive_address(kind, owner, program) {
        Err(e) => Err(e),
        Ok((a, b)) => {
            if same_key(&a, key) {
                Ok(b)
            } else {
                Err(VaultError::InvalidSeeds)
            }
        },
    }
}

/// The accounts of the instruction that opens an owner's vault, with the
/// rent-exempt minimums of the state record and of the vault.
#[derive(Clone, Copy, Debug)]
pub struct Initialize {
    pub owner: Wallet,
    pub vault_state: StateAccount,
    pub vault: VaultAccount,
    pub program_id: Address,
    pub state_rent: u64,
    pub vault_rent: u64,
}

impl Initialize {
    /// The accounts after opening the vault, or why it cannot be opened.
    pub open spec fn outcome(self) -> Result<Initialize, VaultError> {
        if !self.owner.is_signer {
            Err(VaultError::Unauthorized)
        } else {
            match derivation_outcome(
                AddressKind::State,
                self.owner.key@,
                self.program_id@,
                self.vault_state.key@,
            ) {
                Err(e) => Err(e),
                Ok(sb) => match derivation_outcome(
                    AddressKind::Vault,
                    self.owner.key@,
                    self.program_id@,
                    self.vault.key@,
                ) {
                    Err(e) => Err(e),
                    Ok(vb) => if self.vault_state.data is Some {
                        Err(VaultError::AlreadyInitialized)
                    } else if self.owner.lamports < self.state_rent + self.vault_rent {
                        Err(VaultError::InsufficientFunds)
                    } else if self.vault_state.lamports + self.state_rent > u64::MAX
                        || self.vault.lamports + self.vault_rent > u64::MAX {
                        Err(VaultError::ArithmeticOverflow)
                    } else {
                        Ok(
                            Initialize {
                                owner: Wallet {
                                    lamports: (self.owner.lamports - self.state_rent
                                        - self.vault_rent) as u64,
                                    ..self.owner
                                },
                                vault_state: StateAccount {
                                    lamports: (self.vault_state.lamports + self.state_rent) as u64,
                                    data: Some(VaultState { state_bump: sb, vault_bump: vb }),
                                    ..self.vault_state
                                },
                                vault: VaultAccount {
                                    lamports: (self.vault.lamports + self.vault_rent) as u64,
                                    ..self.vault
                                },
                                ..self
                            },
                        )
                    },
                },
            }
        }
    }

    /// Creates the owner's state record with the canonical bumps, paying its
    /// rent, and funds the vault with exactly its rent-exempt minimum.
    pub fn initialize(&mut self) -> (r: Result<(), VaultError>)
        ensures
            match old(self).outcome() {
                Ok(s) => r is Ok && *final(self) == s,
                Err(e) => r == Err::<(), VaultError>(e) && *final(self) == *old(self),
            },
    {
        if !self.owner.is_signer {
            return Err(VaultError::Unauthorized);
        }
        let state_bump = match check_canonical(
            AddressKind::State,
            &self.owner.key,
            &self.program_id,
            &self.vault_state.key,
        ) {
            Err(e) => return Err(e),
            Ok(b) => b,
        };
        let vault_bump = match check_canonical(
            AddressKind::Vault,
            &self.owner.key,
            &self.program_id,
            &self.vault.key,
        ) {
            Err(e) => return Err(e),
            Ok(b) => b,
        };
        if self.vault_state.data.is_some() {
            return Err(VaultError::AlreadyInitialized);
        }
        if self.state_rent > self.owner.lamports || self.vault_rent > self.owner.lamports
            - self.state_rent {
            return Err(VaultError::InsufficientFunds);
        }
        if self.state_rent > u64::MAX - self.vault_state.lamports || self.vault_rent > u64::MAX
            - self.vault.lamports {
            return Err(VaultError::ArithmeticOverflow);
        }
        let paid_state = transfer(
            &mut self.owner.lamports,
            &mut self.vault_state.lamports,
            self.state_rent,
            0,
        );
        let paid_vault = transfer(
            &mut self.owner.lamports,
            &mut self.vault.lamports,
            self.vault_rent,
            0,
        );
        assert(paid_state is Ok && paid_vault is Ok);
        self.vault_state.data = Some(VaultState { state_bump, vault_bump });
        Ok(())
    }
}


/// The accounts of the instruction that moves lamports from the owner into
/// the vault.
#[derive(Clone, Copy, Debug)]
pub struct Deposit {
    pub owner: Wallet,
    pub vault_state: StateAccount,
    pub vault: VaultAccount,
    pub program_id: Address,
}

impl Deposit {
    /// The accounts after depositing `amount`, or why it cannot be done.
    pub open spec fn outcome(self, amount: u64) -> Result<Deposit, VaultError> {
        if !self.owner.is_signer {
            Err(VaultError::Unauthorized)
        } else {
            match derivation_outcome(
                AddressKind::State,
                self.owner.key@,
                self.program_id@,
                self.vault_state.key@,
            ) {
                Err(e) => Err(e),
                Ok(_) => if self.vault_state.data is None {
                    Err(VaultError::NotFound)
                } else {
                    match derivation_outcome(
                        AddressKind::Vault,
                        self.owner.key@,
                        self.program_id@,
                        self.vault.key@,
                    ) {
                        Err(e) => Err(e),
                        Ok(_) => match transfer_outcome(
                            self.owner.lamports,
                            self.vault.lamports,
                            amount,
                            0,
                        ) {
                            Err(e) => Err(e),
                            Ok((o, v)) => Ok(
                                Deposit {
                                    owner: Wallet { lamports: o, ..self.owner },
                                    vault: VaultAccount { lamports: v, ..self.vault },
                                    ..self
                                },
                            ),
                        },
                    }
                },
            }
        }
    }

    /// Moves `amount` lamports from the signing owner into the vault.
    pub fn deposit(&mut self, amount: u64) -> (r: Result<(), VaultError>)
        ensures
            match old(self).outcome(amount) {
                Ok(s) => r is Ok && *final(self) == s,
                Err(e) => r == Err::<(), VaultError>(e) && *final(self) == *old(self),
            },
    {
        if !self.owner.is_signer {
            return Err(VaultError::Unauthorized);
        }
        if let Err(e) = check_canonical(
            AddressKind::State,
            &self.owner.key,
            &self.program_id,
            &self.vault_state.key,
        ) {
            return Err(e);
        }
        if self.vault_state.data.is_none() {
            return Err(VaultError::NotFound);
        }
        if let Err(e) = check_canonical(
            AddressKind::Vault,
            &self.owner.key,
            &self.program_id,
            &self.vault.key,
        ) {
            return Err(e);
        }
        transfer(&mut self.owner.lamports, &mut self.vault.lamports, amount, 0)
    }
}

/// The accounts of the instruction that moves lamports from the vault back
/// to the owner, with the vault's rent-exempt minimum.
#[derive(Clone, Copy, Debug)]
pub struct Withdraw {
    pub owner: Wallet,
    pub vault_state: StateAccount,
    pub vault: VaultAccount,
    pub program_id: Address,
    pub vault_rent: u64,
}

impl Withdraw {
    /// The accounts after withdrawing `amount`, or why it cannot be done.
    pub open spec fn outcome(self, amount: u64) -> Result<Withdraw, VaultError> {
        if !self.owner.is_signer {
            Err(VaultError::Unauthorized)
        } else {
            match load_outcome(self.vault_state, self.owner.key@, self.program_id@) {
                Err(e) => Err(e),
                Ok(vs) => if derived(vault_tag(), self.owner.key@, vs.vault_bump, self.program_id@)
                    != Some(self.vault.key@) {
                    Err(VaultError::InvalidSeeds)
                } else {
                    match transfer_outcome(
                        self.vault.lamports,
                        self.owner.lamports,
                        amount,
                        self.vault_rent,
                    ) {
                        Err(e) => Err(e),
                        Ok((v, o)) => Ok(
                            Withdraw {
                                owner: Wallet { lamports: o, ..self.owner },
                                vault: VaultAccount { lamports: v, ..self.vault },
                                ..self
                            },
                        ),
                    }
                },
            }
        }
    }

    /// Moves `amount` lamports from the vault to the signing owner, signed by
    /// the vault's stored derivation seeds, keeping the vault rent-exempt.
    pub fn withdraw(&mut self, amount: u64) -> (r: Result<(), VaultError>)
        ensures
            match old(self).outcome(amount) {
                Ok(s) => r is Ok && *final(self) == s,
                Err(e) => r == Err::<(), VaultError>(e) && *final(self) == *old(self),
            },
    {
        if !self.owner.is_signer {
            return Err(VaultError::Unauthorized);
        }
        let vs = match load(&self.vault_state, &self.owner.key, &self.program_id) {
            Err(e) => return Err(e),
            Ok(vs) => vs,
        };
        signed_transfer(
            &self.owner.key,
            vs.vault_bump,
            &self.program_id,
            &mut self.vault,
            &mut self.owner.lamports,
            amount,
            self.vault_rent,
        )
    }
}

/// The accounts of the instruction that closes an owner's vault.
#[derive(Clone, Copy, Debug)]
pub struct Close {
    pub owner: Wallet,
    pub vault_state: StateAccount,
    pub vault: VaultAccount,
    pub program_id: Address,
}

impl Close {
    /// The accounts after closing the vault, or why it cannot be closed.
    pub open spec fn outcome(self) -> Result<Close, VaultError> {
        if !self.owner.is_signer {
            Err(VaultError::Unauthorized)
        } else {
            match load_outcome(self.vault_state, self.owner.key@, self.program_id@) {
                Err(e) => Err(e),
                Ok(vs) => if derived(vault_tag(), self.owner.key@, vs.vault_bump, self.program_id@)
                    != Some(self.vault.key@) {
                    Err(VaultError::InvalidSeeds)
                } else if self.owner.lamports + self.vault.lamports + self.vault_state.lamports
                    > u64::MAX {
                    Err(VaultError::ArithmeticOverflow)
                } else {
                    Ok(
                        Close {
                            owner: Wallet {
                                lamports: (self.owner.lamports + self.vault.lamports
                                    + self.vault_state.lamports) as u64,
                                ..self.owner
                            },
                            vault_state: StateAccount {
                                lamports: 0,
                                data: None,
                                ..self.vault_state
                            },
                            vault: VaultAccount { lamports: 0, ..self.vault },
                            ..self
                        },
                    )
                },
            }
        }
    }

    /// Sends the vault's whole balance to the signing owner, signed by the
    /// vault's stored derivation seeds, then destroys the state record and
    /// returns its rent to the owner.
    pub fn close(&mut self) -> (r: Result<(), VaultError>)
        ensures
            match old(self).outcome() {
                Ok(s) => r is Ok && *final(self) == s,
                Err(e) => r == Err::<(), VaultError>(e) && *final(self) == *old(self),
            },
    {
        if !self.owner.is_signer {
            return Err(VaultError::Unauthorized);
        }
        let vs = match load(&self.vault_state, &self.owner.key, &self.program_id) {
            Err(e) => return Err(e),
            Ok(vs) => vs,
        };
        if let Err(e) = authorize_vault_signer(
            &self.owner.key,
            vs.vault_bump,
            &self.program_id,
            &self.vault.key,
        ) {
            return Err(e);
        }
        if self.vault.lamports > u64::MAX - self.owner.lamports || self.vault_state.lamports
            > u64::MAX - self.owner.lamports - self.vault.lamports {
            return Err(VaultError::ArithmeticOverflow);
        }
        let all = self.vault.lamports;
        let drained = signed_transfer(
            &self.owner.key,
            vs.vault_bump,
            &self.program_id,
            &mut self.vault,
            &mut self.owner.lamports,
            all,
            0,
        );
        assert(drained is Ok);
        self.owner.lamports = self.owner.lamports + self.vault_state.lamports;
        self.vault_state.lamports = 0;
        self.vault_state.data = None;
        Ok(())
    }
}

/// Opens the signing owner's vault.
pub fn initialize(ctx: &mut Initialize) -> (r: Result<(), VaultError>)
    ensures
        match old(ctx).outcome() {
            Ok(s) => r is Ok && *final(ctx) == s,
            Err(e) => r == Err::<(), VaultError>(e) && *final(ctx) == *old(ctx),
        },
{
    ctx.initialize()
}

/// Deposits `amount` lamports into the signing owner's vault.
pub fn deposit(ctx: &mut Deposit, amount: u64) -> (r: Result<(), VaultError>)
    ensures
        match old(ctx).outcome(amount) {
            Ok(s) => r is Ok && *final(ctx) == s,
            Err(e) => r == Err::<(), VaultError>(e) && *final(ctx) == *old(ctx),
        },
{
    ctx.deposit(amount)
}

/// Withdraws `amount` lamports from the signing owner's vault.
pub fn withdraw(ctx: &mut Withdraw, amount: u64) -> (r: Result<(), VaultError>)
    ensures
        match old(ctx).outcome(amount) {
            Ok(s) => r is Ok && *final(ctx) == s,
            Err(e) => r == Err::<(), VaultError>(e) && *final(ctx) == *old(ctx),
        },
{
    ctx.withdraw(amount)
}

/// Closes the signing owner's vault.
pub fn close(ctx: &mut Close) -> (r: Result<(), VaultError>)
    ensures
        match old(ctx).outcome() {
            Ok(s) => r is Ok && *final(ctx) == s,
            Err(e) => r == Err::<(), VaultError>(e) && *final(ctx) == *old(ctx),
        },
{
    ctx.close()
}

} // verus!
