//! A per-owner custodial vault: an owner funds a program-derived vault
//! address, deposits into it, withdraws from it under a derived signing
//! proof, and closes it again, all over a plain model of the three accounts
//! each instruction touches.
mod accounts;
mod address;
mod error;
mod instructions;
pub mod laws;
mod transfer;

pub use accounts::{load, StateAccount, VaultAccount, VaultState, Wallet, STATE_SPACE};
pub use address::{derive_address, is_derived, same_key, Address, AddressKind};
pub use error::VaultError;
pub use instructions::{
    close, deposit, initialize, withdraw, Close, Deposit, Initialize, Withdraw,
};
pub use transfer::{authorize_vault_signer, signed_transfer, transfer};
