use vstd::prelude::*;

verus! {

/// Every way an instruction of the vault can fail. A failed instruction
/// leaves all of its accounts as they were.
#[derive(Clone, Copy, Debug, PartialEq, Eq, Structural)]
pub enum VaultError {
    /// The state record is not at an address derived from the signer.
    NotOwner,
    /// A state record already exists for this owner.
    AlreadyInitialized,
    /// No state record exists, or no bump yields a program address.
    NotFound,
    /// A supplied address is not the one its seeds derive.
    InvalidSeeds,
    /// The owner did not sign the request.
    Unauthorized,
    /// The paying account holds less than the amount.
    InsufficientFunds,
    /// The vault would drop under its rent-exempt minimum while its record exists.
    BelowMinimumBalance,
    /// A receiving balance would exceed the largest lamport amount.
    ArithmeticOverflow,
}

impl VaultError {
    /// The stable numeric code of the error.
    pub fn code(&self) -> (r: u32)
        ensures
            r == error_code(*self),
    {
        match self {
            VaultError::NotOwner => 6000,
            VaultError::AlreadyInitialized => 6001,
            VaultError::NotFound => 6002,
            VaultError::InvalidSeeds => 6003,
            VaultError::Unauthorized => 6004,
            VaultError::InsufficientFunds => 6005,
            VaultError::BelowMinimumBalance => 6006,
            VaultError::ArithmeticOverflow => 6007,
        }
    }

    /// The human-readable message of the error.
    pub fn message(&self) -> (r: &'static str)
        ensures
            r@ == error_message(*self),
    {
        match self {
            VaultError::NotOwner => "You are not the owner of this vault",
            VaultError::AlreadyInitialized => "The vault is already initialized",
            VaultError::NotFound => "The vault does not exist",
            VaultError::InvalidSeeds => "The address does not match its seeds",
            VaultError::Unauthorized => "The owner did not sign",
            VaultError::InsufficientFunds => "Insufficient funds",
            VaultError::BelowMinimumBalance => "The vault would fall below its rent-exempt minimum",
            VaultError::ArithmeticOverflow => "The balance would overflow",
        }
    }
}

pub open spec fn error_code(e: VaultError) -> u32 {
    match e {
        VaultError::NotOwner => 6000,
        VaultError::AlreadyInitialized => 6001,
        VaultError::NotFound => 6002,
        VaultError::InvalidSeeds => 6003,
        VaultError::Unauthorized => 6004,
        VaultError::InsufficientFunds => 6005,
        VaultError::BelowMinimumBalance => 6006,
        VaultError::ArithmeticOverflow => 6007,
    }
}

/// The human-readable message of each error.
pub open spec fn error_message(e: VaultError) -> Seq<char> {
    match e {
        VaultError::NotOwner => "You are not the owner of this vault"@,
        VaultError::AlreadyInitialized => "The vault is already initialized"@,
        VaultError::NotFound => "The vault does not exist"@,
        VaultError::InvalidSeeds => "The address does not match its seeds"@,
        VaultError::Unauthorized => "The owner did not sign"@,
        VaultError::InsufficientFunds => "Insufficient funds"@,
        VaultError::BelowMinimumBalance => "The vault would fall below its rent-exempt minimum"@,
        VaultError::ArithmeticOverflow => "The balance would overflow"@,
    }
}

} // verus!
