//! End-to-end tests of the initialization flow against the real derivation
//! and mint-parsing code.

use wormhole_gateway::Address;
use wormhole_gateway::Config;
use wormhole_gateway::GatewayError;
use wormhole_gateway::Initialize;
use wormhole_gateway::Store;
use wormhole_gateway::derive_accounts;
use wormhole_gateway::initialize;

fn addr(byte: u8) -> Address {
    Address::new(vec![byte; 32]).unwrap()
}

fn test_config() -> Config {
    Config::new(addr(1), addr(2), addr(3), None).unwrap()
}

/// 82 bytes in the stored mint layout, with the initialized flag set.
fn initialized_mint_data() -> Vec<u8> {
    let mut data = vec![0u8; 82];
    data[45] = 1;
    data
}

fn presented_accounts(cfg: &Config, authority: Address) -> Initialize {
    let derived = derive_accounts(cfg).unwrap();
    Initialize {
        authority,
        custodian: derived.custodian,
        native_mint: derived.native_mint,
        native_mint_data: initialized_mint_data(),
        wrapped_mint: derived.wrapped_mint,
        wrapped_token_account: derived.escrow,
        bridge_sender: derived.bridge_sender,
        bridge_redeemer: derived.bridge_redeemer,
    }
}

#[test]
fn derivation_is_deterministic() {
    let cfg = test_config();
    let first = derive_accounts(&cfg).unwrap();
    let second = derive_accounts(&cfg).unwrap();
    assert_eq!(first.custodian.bytes, second.custodian.bytes);
    assert_eq!(first.custodian_bump, second.custodian_bump);
    assert_eq!(first.native_mint.bytes, second.native_mint.bytes);
    assert_eq!(first.native_mint_bump, second.native_mint_bump);
    assert_eq!(first.wrapped_mint.bytes, second.wrapped_mint.bytes);
    assert_eq!(first.wrapped_mint_bump, second.wrapped_mint_bump);
    assert_eq!(first.escrow.bytes, second.escrow.bytes);
    assert_eq!(first.escrow_bump, second.escrow_bump);
    assert_eq!(first.bridge_sender.bytes, second.bridge_sender.bytes);
    assert_eq!(first.bridge_sender_bump, second.bridge_sender_bump);
    assert_eq!(first.bridge_redeemer.bytes, second.bridge_redeemer.bytes);
    assert_eq!(first.bridge_redeemer_bump, second.bridge_redeemer_bump);
}

#[test]
fn derivation_transforms_its_inputs() {
    let cfg = test_config();
    let derived = derive_accounts(&cfg).unwrap();
    // A derived address is a hash image, never the program address itself.
    assert_ne!(derived.custodian.bytes, vec![1u8; 32]);
    assert_ne!(derived.native_mint.bytes, vec![2u8; 32]);
    // Distinct seed tags give distinct addresses.
    assert_ne!(derived.bridge_sender.bytes, derived.bridge_redeemer.bytes);
    assert_ne!(derived.custodian.bytes, derived.escrow.bytes);
    assert_eq!(derived.custodian.bytes.len(), 32);
}

#[test]
fn derivation_depends_on_the_program_address() {
    let cfg_a = test_config();
    let cfg_b = Config::new(addr(9), addr(2), addr(3), None).unwrap();
    let a = derive_accounts(&cfg_a).unwrap();
    let b = derive_accounts(&cfg_b).unwrap();
    assert_ne!(a.custodian.bytes, b.custodian.bytes);
}

#[test]
fn successful_initialization_commits_the_record() {
    let cfg = test_config();
    let accounts = presented_accounts(&cfg, addr(7));
    let mut store = Store::empty();

    let result = initialize(&mut store, &cfg, &accounts, 1_000_000);
    assert!(result.is_ok());

    let derived = derive_accounts(&cfg).unwrap();
    let record = store.custodian.as_ref().unwrap();
    assert_eq!(record.minting_limit, 1_000_000);
    assert_eq!(record.authority.bytes, vec![7u8; 32]);
    assert_eq!(record.bump, derived.custodian_bump);
    assert_eq!(record.native_mint.bytes, derived.native_mint.bytes);
    assert_eq!(record.wrapped_mint.bytes, derived.wrapped_mint.bytes);
    assert_eq!(record.wrapped_token_account.bytes, derived.escrow.bytes);
    assert_eq!(record.bridge_sender.bytes, derived.bridge_sender.bytes);
    assert_eq!(record.bridge_sender_bump, derived.bridge_sender_bump);
    // The inbound binding records the outbound authority's address.
    assert_eq!(record.bridge_redeemer.bytes, derived.bridge_sender.bytes);
    assert_eq!(record.bridge_redeemer_bump, derived.bridge_redeemer_bump);
}

#[test]
fn second_initialization_fails_and_keeps_the_record() {
    let cfg = test_config();
    let accounts = presented_accounts(&cfg, addr(7));
    let mut store = Store::empty();

    assert!(initialize(&mut store, &cfg, &accounts, 1_000_000).is_ok());
    let first_record_authority = store.custodian.as_ref().unwrap().authority.bytes.clone();

    let again = presented_accounts(&cfg, addr(8));
    let result = initialize(&mut store, &cfg, &again, 5);
    assert_eq!(result, Err(GatewayError::AlreadyInitialized));

    let record = store.custodian.as_ref().unwrap();
    assert_eq!(record.authority.bytes, first_record_authority);
    assert_eq!(record.minting_limit, 1_000_000);
}

#[test]
fn mismatched_custodian_address_is_rejected() {
    let cfg = test_config();
    let mut accounts = presented_accounts(&cfg, addr(7));
    accounts.custodian.bytes[0] ^= 0xff;
    let mut store = Store::empty();
    let result = initialize(&mut store, &cfg, &accounts, 1_000_000);
    assert_eq!(result, Err(GatewayError::DerivationMismatch));
    assert!(store.custodian.is_none());
}

#[test]
fn mismatched_native_mint_address_is_rejected() {
    let cfg = test_config();
    let mut accounts = presented_accounts(&cfg, addr(7));
    accounts.native_mint.bytes[31] ^= 0x01;
    let mut store = Store::empty();
    let result = initialize(&mut store, &cfg, &accounts, 1_000_000);
    assert_eq!(result, Err(GatewayError::DerivationMismatch));
    assert!(store.custodian.is_none());
}

#[test]
fn mismatched_wrapped_mint_address_is_rejected() {
    let cfg = test_config();
    let mut accounts = presented_accounts(&cfg, addr(7));
    accounts.wrapped_mint = addr(0xaa);
    let mut store = Store::empty();
    let result = initialize(&mut store, &cfg, &accounts, 1_000_000);
    assert_eq!(result, Err(GatewayError::DerivationMismatch));
    assert!(store.custodian.is_none());
}

#[test]
fn mismatched_escrow_address_is_rejected() {
    let cfg = test_config();
    let mut accounts = presented_accounts(&cfg, addr(7));
    accounts.wrapped_token_account = addr(0xbb);
    let mut store = Store::empty();
    let result = initialize(&mut store, &cfg, &accounts, 1_000_000);
    assert_eq!(result, Err(GatewayError::DerivationMismatch));
    assert!(store.custodian.is_none());
}

#[test]
fn mismatched_bridge_sender_address_is_rejected() {
    let cfg = test_config();
    let mut accounts = presented_accounts(&cfg, addr(7));
    accounts.bridge_sender = addr(0xcc);
    let mut store = Store::empty();
    let result = initialize(&mut store, &cfg, &accounts, 1_000_000);
    assert_eq!(result, Err(GatewayError::DerivationMismatch));
    assert!(store.custodian.is_none());
}

#[test]
fn mismatched_bridge_redeemer_address_is_rejected() {
    let cfg = test_config();
    let mut accounts = presented_accounts(&cfg, addr(7));
    accounts.bridge_redeemer = addr(0xdd);
    let mut store = Store::empty();
    let result = initialize(&mut store, &cfg, &accounts, 1_000_000);
    assert_eq!(result, Err(GatewayError::DerivationMismatch));
    assert!(store.custodian.is_none());
}

#[test]
fn truncated_address_is_rejected() {
    let cfg = test_config();
    let mut accounts = presented_accounts(&cfg, addr(7));
    accounts.custodian.bytes.pop();
    let mut store = Store::empty();
    let result = initialize(&mut store, &cfg, &accounts, 1_000_000);
    assert_eq!(result, Err(GatewayError::DerivationMismatch));
    assert!(store.custodian.is_none());
}

#[test]
fn uninitialized_mint_is_rejected() {
    let cfg = test_config();
    let mut accounts = presented_accounts(&cfg, addr(7));
    // Right length, but the initialized flag is clear: the upstream system
    // has not bootstrapped its mint yet.
    accounts.native_mint_data = vec![0u8; 82];
    let mut store = Store::empty();
    let result = initialize(&mut store, &cfg, &accounts, 1_000_000);
    assert_eq!(result, Err(GatewayError::PrerequisiteNotInitialized));
    assert!(store.custodian.is_none());
}

#[test]
fn absent_mint_account_is_rejected() {
    let cfg = test_config();
    let mut accounts = presented_accounts(&cfg, addr(7));
    accounts.native_mint_data = Vec::new();
    let mut store = Store::empty();
    let result = initialize(&mut store, &cfg, &accounts, 1_000_000);
    assert_eq!(result, Err(GatewayError::PrerequisiteNotInitialized));
    assert!(store.custodian.is_none());
}

#[test]
fn corrupt_mint_authority_tag_is_rejected() {
    let cfg = test_config();
    let mut accounts = presented_accounts(&cfg, addr(7));
    let mut data = initialized_mint_data();
    data[0] = 2;
    accounts.native_mint_data = data;
    let mut store = Store::empty();
    let result = initialize(&mut store, &cfg, &accounts, 1_000_000);
    assert_eq!(result, Err(GatewayError::PrerequisiteNotInitialized));
    assert!(store.custodian.is_none());
}

#[test]
fn limit_above_the_ceiling_is_rejected() {
    let cfg = Config::new(addr(1), addr(2), addr(3), Some(10)).unwrap();
    let accounts = presented_accounts(&cfg, addr(7));
    let mut store = Store::empty();
    let result = initialize(&mut store, &cfg, &accounts, 11);
    assert_eq!(result, Err(GatewayError::InvalidConfiguration));
    assert!(store.custodian.is_none());
}

#[test]
fn limit_at_the_ceiling_is_accepted() {
    let cfg = Config::new(addr(1), addr(2), addr(3), Some(10)).unwrap();
    let accounts = presented_accounts(&cfg, addr(7));
    let mut store = Store::empty();
    let result = initialize(&mut store, &cfg, &accounts, 10);
    assert!(result.is_ok());
    assert_eq!(store.custodian.as_ref().unwrap().minting_limit, 10);
}

#[test]
fn zero_limit_is_accepted() {
    let cfg = test_config();
    let accounts = presented_accounts(&cfg, addr(7));
    let mut store = Store::empty();
    assert!(initialize(&mut store, &cfg, &accounts, 0).is_ok());
    assert_eq!(store.custodian.as_ref().unwrap().minting_limit, 0);
}

#[test]
fn any_limit_is_accepted_without_a_ceiling() {
    let cfg = test_config();
    let accounts = presented_accounts(&cfg, addr(7));
    let mut store = Store::empty();
    assert!(initialize(&mut store, &cfg, &accounts, u64::MAX).is_ok());
    assert_eq!(store.custodian.as_ref().unwrap().minting_limit, u64::MAX);
}

#[test]
fn address_of_wrong_length_is_refused() {
    assert!(Address::new(vec![0u8; 31]).is_none());
    assert!(Address::new(vec![0u8; 33]).is_none());
    assert!(Address::new(vec![0u8; 32]).is_some());
}

#[test]
fn config_with_malformed_program_address_is_refused() {
    let short = Address::new(vec![0u8; 32]).unwrap();
    let bad = Address { bytes: vec![0u8; 3] };
    assert!(Config::new(bad, short, Address::new(vec![1u8; 32]).unwrap(), None).is_none());
}
