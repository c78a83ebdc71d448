use state_machine::system::Pallet;

#[test]
fn init_system() {
    let mut system = Pallet::new();

    assert_eq!(system.block_number(), 0);
    assert_eq!(system.nonce(&"daniel".to_string()), None);

    system.inc_block_number();

    assert_eq!(system.block_number(), 1);

    system.inc_nonce(&"daniel".to_string());
    assert_eq!(system.nonce(&"daniel".to_string()).unwrap(), 1);
}

#[test]
fn increment_block_number() {
    let mut system = Pallet::new();

    assert_eq!(system.block_number(), 0);
    system.inc_block_number();
    assert_eq!(system.block_number(), 1);
}

#[test]
fn inc_nonce() {
    let mut system = Pallet::new();

    system.inc_nonce(&"daniel".to_string());
    assert_eq!(system.nonce(&"daniel".to_string()).unwrap(), 1);
    system.inc_nonce(&"daniel".to_string());
    assert_eq!(system.nonce(&"daniel".to_string()).unwrap(), 2);
}

#[test]
fn nonces_are_per_account() {
    let mut system = Pallet::new();
    system.inc_nonce(&"a".to_string());
    system.inc_nonce(&"b".to_string());
    system.inc_nonce(&"a".to_string());
    assert_eq!(system.nonce(&"a".to_string()), Some(2));
    assert_eq!(system.nonce(&"b".to_string()), Some(1));
    assert_eq!(system.nonce(&"c".to_string()), None);
}
