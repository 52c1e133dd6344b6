use mesos_local::address::Address;
use mesos_local::error::{ErrorKind, MesosError};
use mesos_local::gate::{
    authorize_settlement, authorize_settlement_by, authorize_transfer, authorize_transfer_between,
};
use mesos_local::registry::RoleRegistry;
use mesos_local::role::{Role, RoleEntry};
use mesos_local::token::{Signer, ROLE_SEED, VAULT_SEED, VOUCHER_MINT_SEED};
use mesos_local::vault::{usdc_for_voucher, voucher_for_usdc, Vault, USDC_TO_VOUCHER_RATE};

fn key(tag: u8) -> Address {
    Address { bytes: [tag; 32] }
}

fn role_entry(tag: u8, role: Role) -> RoleEntry {
    RoleEntry { vault: key(30), address: key(tag), role, is_active: true, added_at: 0, bump: 0 }
}

fn vault_of(authority: Address) -> Vault {
    Vault::initialize(authority, key(21), key(20), 254, 253)
}

#[test]
fn registry_keeps_one_record_per_address() {
    let a = key(1);
    let vault = vault_of(a);
    let mut registry = RoleRegistry::new();
    assert_eq!(registry.lookup(&key(30), &key(2)), None);
    let client = registry.register(&key(30), &vault, &a, key(2), Role::Client, 100, 9).unwrap();
    assert_eq!(
        client,
        RoleEntry {
            vault: key(30),
            address: key(2),
            role: Role::Client,
            is_active: true,
            added_at: 100,
            bump: 9
        }
    );
    assert_eq!(
        registry.register(&key(30), &vault, &a, key(2), Role::Merchant, 101, 9),
        Err(MesosError::DuplicateRegistration)
    );
    assert_eq!(registry.lookup(&key(30), &key(2)), Some(client));
    let merchant = registry.register(&key(30), &vault, &a, key(3), Role::Merchant, 102, 8).unwrap();
    assert_eq!(registry.lookup(&key(30), &key(3)), Some(merchant));
    assert_eq!(registry.lookup(&key(30), &key(2)), Some(client));
}

#[test]
fn registry_removal_is_a_tombstone() {
    let a = key(1);
    let vault = vault_of(a);
    let mut registry = RoleRegistry::new();
    let client = registry.register(&key(30), &vault, &a, key(2), Role::Client, 100, 9).unwrap();
    let merchant = registry.register(&key(30), &vault, &a, key(3), Role::Merchant, 100, 9).unwrap();

    assert_eq!(registry.deactivate(&key(30), &vault, &key(7), &key(2)), Err(MesosError::Unauthorized));
    assert_eq!(registry.deactivate(&key(30), &vault, &key(7), &key(5)), Err(MesosError::Unauthorized));
    assert_eq!(registry.deactivate(&key(30), &vault, &a, &key(5)), Err(MesosError::NotRegistered));
    assert_eq!(registry.lookup(&key(30), &key(2)), Some(client));

    assert_eq!(registry.deactivate(&key(30), &vault, &a, &key(2)), Ok(()));
    let removed = registry.lookup(&key(30), &key(2)).unwrap();
    assert_eq!(removed, RoleEntry { is_active: false, ..client });
    assert_eq!(registry.lookup(&key(30), &key(3)), Some(merchant));
    assert_eq!(registry.deactivate(&key(30), &vault, &a, &key(2)), Ok(()));
    assert_eq!(registry.lookup(&key(30), &key(2)), Some(removed));

    assert_eq!(
        registry.register(&key(30), &vault, &a, key(2), Role::Client, 200, 9),
        Err(MesosError::DuplicateRegistration)
    );
    assert_eq!(registry.lookup(&key(30), &key(2)), Some(removed));
    assert_eq!(authorize_transfer(&removed, &merchant), Err(MesosError::SenderNotRegistered));
}

#[test]
fn gate_rules() {
    let client = role_entry(2, Role::Client);
    let merchant = role_entry(3, Role::Merchant);
    assert_eq!(authorize_transfer(&client, &merchant), Ok(()));
    assert_eq!(authorize_transfer(&merchant, &client), Err(MesosError::OnlyClientCanSend));
    assert_eq!(authorize_transfer(&client, &client), Err(MesosError::OnlyMerchantCanReceive));
    assert_eq!(authorize_transfer(&merchant, &merchant), Err(MesosError::OnlyClientCanSend));
    assert_eq!(authorize_settlement(&merchant), Ok(()));
    assert_eq!(authorize_settlement(&client), Err(MesosError::OnlyMerchantCanSettle));
    assert_eq!(
        authorize_settlement(&RoleEntry { is_active: false, ..client }),
        Err(MesosError::NotRegistered)
    );
}

#[test]
fn conversions_at_the_fixed_rate() {
    assert_eq!(USDC_TO_VOUCHER_RATE, 4);
    assert_eq!(voucher_for_usdc(0), Ok(0));
    assert_eq!(voucher_for_usdc(1), Ok(4));
    assert_eq!(voucher_for_usdc(u64::MAX / 4), Ok(u64::MAX - 3));
    assert_eq!(voucher_for_usdc(u64::MAX / 4 + 1), Err(MesosError::Overflow));
    assert_eq!(usdc_for_voucher(0), Err(MesosError::AmountTooSmall));
    assert_eq!(usdc_for_voucher(3), Err(MesosError::AmountTooSmall));
    assert_eq!(usdc_for_voucher(4), Ok(1));
    assert_eq!(usdc_for_voucher(7), Ok(1));
    assert_eq!(usdc_for_voucher(8), Ok(2));
    assert_eq!(usdc_for_voucher(u64::MAX), Ok(u64::MAX / 4));
}

#[test]
fn ledger_counters_are_checked() {
    let mut vault = vault_of(key(1));
    assert_eq!(vault.record_deposit(10, 40), Ok(()));
    assert_eq!((vault.total_usdc_deposited, vault.total_voucher_minted), (10, 40));
    assert_eq!(vault.record_deposit(u64::MAX, 0), Err(MesosError::Overflow));
    assert_eq!(vault.record_deposit(0, u64::MAX), Err(MesosError::Overflow));
    assert_eq!((vault.total_usdc_deposited, vault.total_voucher_minted), (10, 40));
    assert_eq!(vault.record_settlement(11, 40), Err(MesosError::Underflow));
    assert_eq!(vault.record_settlement(10, 41), Err(MesosError::Underflow));
    assert_eq!((vault.total_usdc_deposited, vault.total_voucher_minted), (10, 40));
    assert_eq!(vault.record_settlement(3, 12), Ok(()));
    assert_eq!((vault.total_usdc_deposited, vault.total_voucher_minted), (7, 28));
    assert_eq!(vault.record_settlement(7, 28), Ok(()));
    assert_eq!(vault, vault_of(key(1)));
}

#[test]
fn signer_seeds() {
    assert_eq!(&VAULT_SEED[..], b"vault");
    assert_eq!(&ROLE_SEED[..], b"role");
    assert_eq!(&VOUCHER_MINT_SEED[..], b"voucher_mint");
    assert_eq!(Signer::Participant.seeds(), Vec::<Vec<u8>>::new());
    assert_eq!(
        Signer::Vault { authority: key(1), bump: 254 }.seeds(),
        vec![b"vault".to_vec(), vec![1u8; 32], vec![254u8]]
    );
    assert_eq!(
        Signer::VoucherMint { vault: key(30), bump: 253 }.seeds(),
        vec![b"voucher_mint".to_vec(), vec![30u8; 32], vec![253u8]]
    );
}

#[test]
fn addresses_compare_by_bytes() {
    let mut bytes = [5u8; 32];
    assert_eq!(Address { bytes }, key(5));
    bytes[31] = 6;
    assert_ne!(Address { bytes }, key(5));
    bytes[31] = 5;
    bytes[0] = 4;
    assert_ne!(Address { bytes }, key(5));
}

#[test]
fn errors_have_kinds_and_messages() {
    assert_eq!(MesosError::InvalidAmount.kind(), ErrorKind::Validation);
    assert_eq!(MesosError::AmountTooSmall.kind(), ErrorKind::Validation);
    assert_eq!(MesosError::Overflow.kind(), ErrorKind::Arithmetic);
    assert_eq!(MesosError::Underflow.kind(), ErrorKind::Arithmetic);
    assert_eq!(MesosError::DuplicateRegistration.kind(), ErrorKind::DuplicateState);
    for e in [
        MesosError::Unauthorized,
        MesosError::SenderNotRegistered,
        MesosError::RecipientNotRegistered,
        MesosError::OnlyClientCanSend,
        MesosError::OnlyMerchantCanReceive,
        MesosError::OnlyMerchantCanSettle,
        MesosError::NotRegistered,
    ] {
        assert_eq!(e.kind(), ErrorKind::Authorization);
    }
    assert_eq!(MesosError::InvalidAmount.message(), "Invalid amount");
    assert_eq!(MesosError::Overflow.message(), "Arithmetic overflow");
    assert_eq!(MesosError::Underflow.message(), "Arithmetic underflow");
    assert_eq!(MesosError::AmountTooSmall.message(), "Amount too small for conversion");
    assert_eq!(MesosError::SenderNotRegistered.message(), "Sender is not registered");
    assert_eq!(MesosError::RecipientNotRegistered.message(), "Recipient is not registered");
    assert_eq!(MesosError::OnlyClientCanSend.message(), "Only clients can send PLNLOG");
    assert_eq!(MesosError::OnlyMerchantCanReceive.message(), "Only merchants can receive PLNLOG");
    assert_eq!(MesosError::OnlyMerchantCanSettle.message(), "Only merchants can settle");
    assert_eq!(MesosError::NotRegistered.message(), "Address is not registered");
    assert_eq!(MesosError::Unauthorized.message(), "Caller is not the vault authority");
    assert_eq!(MesosError::DuplicateRegistration.message(), "Record already exists");
}

#[test]
fn registry_keeps_vaults_apart() {
    let a = key(1);
    let b = key(9);
    let vault_a = vault_of(a);
    let vault_b = vault_of(b);
    let mut registry = RoleRegistry::new();
    let in_a = registry.register(&key(30), &vault_a, &a, key(2), Role::Client, 1, 0).unwrap();
    assert_eq!(in_a.vault, key(30));
    assert_eq!(registry.lookup(&key(31), &key(2)), None);
    let in_b = registry.register(&key(31), &vault_b, &b, key(2), Role::Merchant, 2, 0).unwrap();
    assert_eq!(in_b.vault, key(31));
    assert_eq!(registry.lookup(&key(30), &key(2)), Some(in_a));
    assert_eq!(registry.lookup(&key(31), &key(2)), Some(in_b));

    assert_eq!(registry.deactivate(&key(31), &vault_b, &b, &key(2)), Ok(()));
    assert_eq!(registry.lookup(&key(30), &key(2)), Some(in_a));
    assert_eq!(registry.lookup(&key(31), &key(2)), Some(RoleEntry { is_active: false, ..in_b }));
    assert_eq!(
        registry.deactivate(&key(31), &vault_b, &b, &key(5)),
        Err(MesosError::NotRegistered)
    );
}

#[test]
fn gate_judges_parties_by_their_own_records() {
    let vault = key(30);
    let client = role_entry(2, Role::Client);
    let merchant = role_entry(3, Role::Merchant);
    assert_eq!(authorize_transfer_between(&vault, &key(2), &client, &key(3), &merchant), Ok(()));
    assert_eq!(
        authorize_transfer_between(&vault, &key(4), &client, &key(3), &merchant),
        Err(MesosError::SenderNotRegistered)
    );
    assert_eq!(
        authorize_transfer_between(&vault, &key(2), &client, &key(4), &merchant),
        Err(MesosError::RecipientNotRegistered)
    );
    assert_eq!(
        authorize_transfer_between(&key(31), &key(2), &client, &key(3), &merchant),
        Err(MesosError::SenderNotRegistered)
    );
    assert_eq!(
        authorize_transfer_between(&vault, &key(3), &merchant, &key(4), &merchant),
        Err(MesosError::OnlyClientCanSend)
    );
    assert_eq!(
        authorize_transfer_between(&vault, &key(2), &client, &key(2), &client),
        Err(MesosError::OnlyMerchantCanReceive)
    );
    assert_eq!(authorize_settlement_by(&vault, &key(3), &merchant), Ok(()));
    assert_eq!(
        authorize_settlement_by(&vault, &key(4), &merchant),
        Err(MesosError::NotRegistered)
    );
    assert_eq!(
        authorize_settlement_by(&key(31), &key(3), &merchant),
        Err(MesosError::NotRegistered)
    );
    assert_eq!(
        authorize_settlement_by(&vault, &key(2), &client),
        Err(MesosError::OnlyMerchantCanSettle)
    );
    assert!(client.registers(&vault, &key(2)));
    assert!(!client.registers(&vault, &key(3)));
    assert!(!client.registers(&key(31), &key(2)));
    assert!(!RoleEntry { is_active: false, ..client }.registers(&vault, &key(2)));
}
