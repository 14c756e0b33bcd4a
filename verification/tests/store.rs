use conditional_transfer::errors::ConditionalError;
use conditional_transfer::guard::{send_if_over_threshold, transfer, SendIfOverThreshold};
use conditional_transfer::identity::Pubkey;
use conditional_transfer::state::{Config, ConfigStore};

fn sample_config(bump: u8) -> Config {
    Config {
        authority: Pubkey::new(1, 1, 1, 1),
        from: Pubkey::new(2, 2, 2, 2),
        to: Pubkey::new(3, 3, 3, 3),
        threshold_lamports: 1_000,
        bump,
    }
}

#[test]
fn new_store_is_empty() {
    let store = ConfigStore::new(200);
    assert_eq!(store.canonical_tag, 200);
    assert_eq!(store.record, None);
}

#[test]
fn load_on_empty_store_not_found() {
    let store = ConfigStore::new(200);
    assert_eq!(store.load(), Err(ConditionalError::NotFound));
}

#[test]
fn send_on_empty_store_not_found() {
    let store = ConfigStore::new(200);
    let ctx = SendIfOverThreshold { from: Pubkey::new(2, 2, 2, 2), to: Pubkey::new(3, 3, 3, 3) };
    let r = send_if_over_threshold(&store, &ctx, 1_000_000, 1_000_000, 0);
    assert_eq!(r, Err(ConditionalError::NotFound));
}

#[test]
fn load_detects_forged_tag() {
    // A record whose persisted tag does not match the namespace's canonical
    // derivation is rejected, not served.
    let store = ConfigStore { canonical_tag: 200, record: Some(sample_config(199)) };
    assert_eq!(store.load(), Err(ConditionalError::AddressMismatch));
}

#[test]
fn send_on_forged_record_address_mismatch() {
    let store = ConfigStore { canonical_tag: 200, record: Some(sample_config(199)) };
    let ctx = SendIfOverThreshold { from: Pubkey::new(2, 2, 2, 2), to: Pubkey::new(3, 3, 3, 3) };
    let r = send_if_over_threshold(&store, &ctx, 1_000_000, 1_000_000, 0);
    assert_eq!(r, Err(ConditionalError::AddressMismatch));
}

#[test]
fn create_then_load_round_trips() {
    let mut store = ConfigStore::new(200);
    let cfg = sample_config(200);
    assert_eq!(store.create(cfg), Ok(()));
    assert_eq!(store.load(), Ok(cfg));
}

#[test]
fn create_on_occupied_slot_already_exists() {
    let mut store = ConfigStore::new(200);
    let cfg = sample_config(200);
    store.create(cfg).unwrap();
    let other = Config { threshold_lamports: 9, ..cfg };
    assert_eq!(store.create(other), Err(ConditionalError::AlreadyExists));
    assert_eq!(store.load(), Ok(cfg));
}

#[test]
fn save_is_visible_to_later_loads() {
    let mut store = ConfigStore::new(200);
    let cfg = sample_config(200);
    store.create(cfg).unwrap();
    let updated = Config { threshold_lamports: 5, ..cfg };
    store.save(updated);
    assert_eq!(store.load(), Ok(updated));
}

#[test]
fn transfer_debits_and_credits_exactly() {
    assert_eq!(transfer(10, 20, 4), Ok((6, 24)));
    assert_eq!(transfer(10, 20, 10), Ok((0, 30)));
    assert_eq!(transfer(10, 20, 0), Ok((10, 20)));
}

#[test]
fn transfer_insufficient_source_fails() {
    assert_eq!(transfer(10, 20, 11), Err(ConditionalError::TransferFailed));
}

#[test]
fn transfer_recipient_overflow_fails() {
    assert_eq!(transfer(u64::MAX, u64::MAX, 1), Err(ConditionalError::TransferFailed));
    assert_eq!(transfer(u64::MAX, 0, u64::MAX), Ok((0, u64::MAX)));
}

#[test]
fn pubkey_zero_check() {
    assert!(Pubkey::new(0, 0, 0, 0).is_zero());
    assert!(!Pubkey::new(0, 0, 0, 1).is_zero());
    assert_eq!(Pubkey::new(1, 2, 3, 4), Pubkey::new(1, 2, 3, 4));
    assert_ne!(Pubkey::new(1, 2, 3, 4), Pubkey::new(1, 2, 3, 5));
}
