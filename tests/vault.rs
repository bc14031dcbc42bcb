use anchor_lang::prelude::Pubkey;
use turbin3_vault::{
    close, deposit, derive_address, initialize, is_derived, load, same_key, transfer, withdraw,
    Address, AddressKind, Close, Deposit, Initialize, StateAccount, VaultAccount, VaultError,
    VaultState, Wallet, Withdraw, STATE_SPACE,
};

const STATE_RENT: u64 = 960_480;
const VAULT_RENT: u64 = 890_880;

fn program() -> Address {
    Address { bytes: [7u8; 32] }
}

fn owner_key(seed: u8) -> Address {
    let mut bytes = [0u8; 32];
    for (i, b) in bytes.iter_mut().enumerate() {
        *b = seed.wrapping_mul(31).wrapping_add(i as u8);
    }
    Address { bytes }
}

fn pda(kind: AddressKind, owner: &Address) -> (Address, u8) {
    derive_address(kind, owner, &program()).expect("a bump exists")
}

fn fresh(owner: &Address, lamports: u64) -> Initialize {
    Initialize {
        owner: Wallet { key: *owner, lamports, is_signer: true },
        vault_state: StateAccount { key: pda(AddressKind::State, owner).0, lamports: 0, data: None },
        vault: VaultAccount { key: pda(AddressKind::Vault, owner).0, lamports: 0 },
        program_id: program(),
        state_rent: STATE_RENT,
        vault_rent: VAULT_RENT,
    }
}

fn opened(owner: &Address, lamports: u64) -> Initialize {
    let mut ctx = fresh(owner, lamports);
    initialize(&mut ctx).expect("opens");
    ctx
}

fn deposit_ctx(i: &Initialize) -> Deposit {
    Deposit { owner: i.owner, vault_state: i.vault_state, vault: i.vault, program_id: i.program_id }
}

fn withdraw_ctx(d: &Deposit) -> Withdraw {
    Withdraw {
        owner: d.owner,
        vault_state: d.vault_state,
        vault: d.vault,
        program_id: d.program_id,
        vault_rent: VAULT_RENT,
    }
}

fn close_ctx(w: &Withdraw) -> Close {
    Close { owner: w.owner, vault_state: w.vault_state, vault: w.vault, program_id: w.program_id }
}

#[test]
fn derivation_is_deterministic_and_checkable() {
    let owner = owner_key(1);
    let (state, sb) = pda(AddressKind::State, &owner);
    let (vault, vb) = pda(AddressKind::Vault, &owner);
    let (again, sb2) = pda(AddressKind::State, &owner);
    assert!(same_key(&state, &again));
    assert_eq!(sb, sb2);
    assert!(!same_key(&state, &vault));
    assert!(!same_key(&state, &owner));
    assert!(!same_key(&vault, &program()));
    assert!(is_derived(AddressKind::State, &owner, sb, &program(), &state));
    assert!(is_derived(AddressKind::Vault, &owner, vb, &program(), &vault));
    assert!(!is_derived(AddressKind::Vault, &owner, vb, &program(), &state));
    assert!(!is_derived(AddressKind::Vault, &owner, vb.wrapping_sub(1), &program(), &vault));
    let other = owner_key(2);
    assert!(!same_key(&pda(AddressKind::Vault, &other).0, &vault));
}

#[test]
fn derivation_matches_anchor_search() {
    let owner = owner_key(3);
    let expected = Pubkey::find_program_address(
        &[b"vault", owner.bytes.as_ref()],
        &Pubkey::new_from_array(program().bytes),
    );
    let (vault, bump) = pda(AddressKind::Vault, &owner);
    assert_eq!(vault.bytes, expected.0.to_bytes());
    assert_eq!(bump, expected.1);
}

#[test]
fn initialize_records_bumps_and_funds_vault() {
    let owner = owner_key(4);
    let ctx = opened(&owner, 5_000_000);
    let state = ctx.vault_state.data.expect("record exists");
    assert_eq!(state.state_bump, pda(AddressKind::State, &owner).1);
    assert_eq!(state.vault_bump, pda(AddressKind::Vault, &owner).1);
    assert_eq!(ctx.vault.lamports, VAULT_RENT);
    assert_eq!(ctx.vault_state.lamports, STATE_RENT);
    assert_eq!(ctx.owner.lamports, 5_000_000 - STATE_RENT - VAULT_RENT);
    assert_eq!(STATE_SPACE, 10);
}

#[test]
fn initialize_twice_fails() {
    let owner = owner_key(5);
    let mut ctx = opened(&owner, 5_000_000);
    let before = ctx.owner.lamports;
    assert_eq!(initialize(&mut ctx), Err(VaultError::AlreadyInitialized));
    assert_eq!(ctx.owner.lamports, before);
    assert_eq!(ctx.vault.lamports, VAULT_RENT);
}

#[test]
fn initialize_requires_signature() {
    let owner = owner_key(6);
    let mut ctx = fresh(&owner, 5_000_000);
    ctx.owner.is_signer = false;
    assert_eq!(initialize(&mut ctx), Err(VaultError::Unauthorized));
    assert!(ctx.vault_state.data.is_none());
}

#[test]
fn initialize_rejects_foreign_vault_address() {
    let owner = owner_key(7);
    let mut ctx = fresh(&owner, 5_000_000);
    ctx.vault.key = pda(AddressKind::Vault, &owner_key(8)).0;
    assert_eq!(initialize(&mut ctx), Err(VaultError::InvalidSeeds));
    let mut ctx = fresh(&owner, 5_000_000);
    ctx.vault_state.key = pda(AddressKind::Vault, &owner).0;
    assert_eq!(initialize(&mut ctx), Err(VaultError::InvalidSeeds));
}

#[test]
fn initialize_needs_both_rents() {
    let owner = owner_key(9);
    let mut ctx = fresh(&owner, STATE_RENT + VAULT_RENT - 1);
    assert_eq!(initialize(&mut ctx), Err(VaultError::InsufficientFunds));
    assert_eq!(ctx.owner.lamports, STATE_RENT + VAULT_RENT - 1);
    let mut ctx = fresh(&owner, STATE_RENT + VAULT_RENT);
    assert_eq!(initialize(&mut ctx), Ok(()));
    assert_eq!(ctx.owner.lamports, 0);
}

#[test]
fn deposit_adds_exactly_the_amount() {
    let owner = owner_key(10);
    let i = opened(&owner, 5_000_000);
    let mut d = deposit_ctx(&i);
    assert_eq!(deposit(&mut d, 1000), Ok(()));
    assert_eq!(d.vault.lamports, VAULT_RENT + 1000);
    assert_eq!(d.owner.lamports, i.owner.lamports - 1000);
    assert_eq!(d.vault_state.data, i.vault_state.data);
}

#[test]
fn deposit_without_record_is_not_found() {
    let owner = owner_key(11);
    let i = fresh(&owner, 5_000_000);
    let mut d = deposit_ctx(&i);
    assert_eq!(deposit(&mut d, 10), Err(VaultError::NotFound));
    assert_eq!(d.owner.lamports, 5_000_000);
}

#[test]
fn deposit_beyond_owner_balance_fails() {
    let owner = owner_key(12);
    let i = opened(&owner, 5_000_000);
    let mut d = deposit_ctx(&i);
    let amount = d.owner.lamports + 1;
    assert_eq!(deposit(&mut d, amount), Err(VaultError::InsufficientFunds));
    assert_eq!(d.vault.lamports, VAULT_RENT);
}

#[test]
fn deposit_that_overflows_the_vault_fails() {
    let owner = owner_key(13);
    let i = opened(&owner, 5_000_000);
    let mut d = deposit_ctx(&i);
    d.vault.lamports = u64::MAX;
    assert_eq!(deposit(&mut d, 1), Err(VaultError::ArithmeticOverflow));
    assert_eq!(d.vault.lamports, u64::MAX);
}

#[test]
fn withdraw_beyond_vault_balance_fails() {
    let owner = owner_key(14);
    let i = opened(&owner, 5_000_000);
    let mut d = deposit_ctx(&i);
    deposit(&mut d, 1000).expect("deposits");
    let mut w = withdraw_ctx(&d);
    let amount = w.vault.lamports + 1;
    assert_eq!(withdraw(&mut w, amount), Err(VaultError::InsufficientFunds));
    assert_eq!(w.vault.lamports, d.vault.lamports);
    assert_eq!(w.owner.lamports, d.owner.lamports);
}

#[test]
fn withdraw_keeps_the_rent_minimum() {
    let owner = owner_key(15);
    let i = opened(&owner, 5_000_000);
    let mut d = deposit_ctx(&i);
    deposit(&mut d, 1000).expect("deposits");
    let mut w = withdraw_ctx(&d);
    assert_eq!(withdraw(&mut w, 1001), Err(VaultError::BelowMinimumBalance));
    assert_eq!(withdraw(&mut w, 1000), Ok(()));
    assert_eq!(w.vault.lamports, VAULT_RENT);
    assert_eq!(w.owner.lamports, d.owner.lamports + 1000);
}

#[test]
fn withdraw_with_wrong_vault_bump_is_invalid_seeds() {
    let owner = owner_key(16);
    let i = opened(&owner, 5_000_000);
    let mut d = deposit_ctx(&i);
    deposit(&mut d, 1000).expect("deposits");
    let mut w = withdraw_ctx(&d);
    let stored = w.vault_state.data.expect("record exists");
    w.vault_state.data = Some(VaultState { state_bump: stored.state_bump, vault_bump: stored.vault_bump.wrapping_sub(1) });
    assert_eq!(withdraw(&mut w, 400), Err(VaultError::InvalidSeeds));
    assert_eq!(w.vault.lamports, d.vault.lamports);
    assert_eq!(w.owner.lamports, d.owner.lamports);
}

#[test]
fn withdraw_from_another_owners_vault_fails() {
    let owner = owner_key(17);
    let thief = owner_key(18);
    let i = opened(&owner, 5_000_000);
    let mut w = withdraw_ctx(&deposit_ctx(&i));
    w.owner.key = thief;
    assert_eq!(withdraw(&mut w, 1), Err(VaultError::NotOwner));
    let mut w = withdraw_ctx(&deposit_ctx(&i));
    w.owner.is_signer = false;
    assert_eq!(withdraw(&mut w, 1), Err(VaultError::Unauthorized));
}

#[test]
fn close_drains_vault_and_allows_reopening() {
    let owner = owner_key(19);
    let i = opened(&owner, 5_000_000);
    let mut d = deposit_ctx(&i);
    deposit(&mut d, 2500).expect("deposits");
    let mut c = close_ctx(&withdraw_ctx(&d));
    assert_eq!(close(&mut c), Ok(()));
    assert_eq!(c.vault.lamports, 0);
    assert_eq!(c.vault_state.lamports, 0);
    assert_eq!(c.owner.lamports, 5_000_000);
    assert_eq!(load(&c.vault_state, &owner, &program()), Err(VaultError::NotFound));
    assert_eq!(close(&mut c), Err(VaultError::NotFound));
    let mut again = Initialize {
        owner: c.owner,
        vault_state: c.vault_state,
        vault: c.vault,
        program_id: c.program_id,
        state_rent: STATE_RENT,
        vault_rent: VAULT_RENT,
    };
    assert_eq!(initialize(&mut again), Ok(()));
    assert_eq!(again.vault_state.data, i.vault_state.data);
}

#[test]
fn close_that_overflows_the_owner_fails() {
    let owner = owner_key(20);
    let i = opened(&owner, 5_000_000);
    let mut c = close_ctx(&withdraw_ctx(&deposit_ctx(&i)));
    c.owner.lamports = u64::MAX - VAULT_RENT;
    assert_eq!(close(&mut c), Err(VaultError::ArithmeticOverflow));
    assert!(c.vault_state.data.is_some());
}

#[test]
fn round_trip_loses_and_creates_nothing() {
    let owner = owner_key(21);
    let start = 10_000_000u64;
    let i = opened(&owner, start);
    assert_eq!(i.owner.lamports, start - STATE_RENT - VAULT_RENT);
    let mut d = deposit_ctx(&i);
    deposit(&mut d, 1000).expect("deposits");
    let mut w = withdraw_ctx(&d);
    withdraw(&mut w, 400).expect("withdraws");
    assert_eq!(w.vault.lamports, VAULT_RENT + 600);
    let mut c = close_ctx(&w);
    close(&mut c).expect("closes");
    assert_eq!(c.owner.lamports, start);
    assert_eq!(c.vault.lamports + c.vault_state.lamports, 0);
}

#[test]
fn load_checks_owner_and_presence() {
    let owner = owner_key(22);
    let i = opened(&owner, 5_000_000);
    let record = load(&i.vault_state, &owner, &program()).expect("loads");
    assert_eq!(Some(record), i.vault_state.data);
    assert_eq!(load(&i.vault_state, &owner_key(23), &program()), Err(VaultError::NotOwner));
}

#[test]
fn transfer_is_all_or_nothing() {
    let (mut a, mut b) = (100u64, 5u64);
    assert_eq!(transfer(&mut a, &mut b, 101, 0), Err(VaultError::InsufficientFunds));
    assert_eq!(transfer(&mut a, &mut b, 60, 50), Err(VaultError::BelowMinimumBalance));
    assert_eq!((a, b), (100, 5));
    assert_eq!(transfer(&mut a, &mut b, 50, 50), Ok(()));
    assert_eq!((a, b), (50, 55));
    let mut full = u64::MAX;
    assert_eq!(transfer(&mut a, &mut full, 1, 0), Err(VaultError::ArithmeticOverflow));
    assert_eq!(a, 50);
}

#[test]
fn error_codes_are_stable() {
    assert_eq!(VaultError::NotOwner.code(), 6000);
    assert_eq!(VaultError::InvalidSeeds.code(), 6003);
    assert_eq!(VaultError::ArithmeticOverflow.code(), 6007);
}

#[test]
fn error_messages_are_readable() {
    assert_eq!(VaultError::NotOwner.message(), "You are not the owner of this vault");
    assert_eq!(VaultError::InsufficientFunds.message(), "Insufficient funds");
    assert_ne!(VaultError::NotFound.message(), VaultError::AlreadyInitialized.message());
}
