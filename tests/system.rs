use substrate_runtime::system::Pallet;

#[test]
fn init_system() {
    let mut block = Pallet::new();
    block.inc_block_number();
    assert_eq!(block.block_number(), 1);
    let _ = block.inc_nonce(&"alice".to_string());
    assert_eq!(block.nonce(&"alice".to_string()), 1);
}

#[test]
fn nonce_starts_at_zero_and_counts() {
    let mut system = Pallet::new();
    assert_eq!(system.block_number(), 0);
    assert_eq!(system.nonce(&"alice".to_string()), 0);
    for _ in 0..5 {
        assert_eq!(system.inc_nonce(&"alice".to_string()), Ok(()));
    }
    assert_eq!(system.inc_nonce(&"bob".to_string()), Ok(()));
    assert_eq!(system.nonce(&"alice".to_string()), 5);
    assert_eq!(system.nonce(&"bob".to_string()), 1);
    assert_eq!(system.nonce(&"carol".to_string()), 0);
}

#[test]
fn block_number_advances_by_one() {
    let mut system = Pallet::new();
    system.inc_block_number();
    system.inc_block_number();
    system.inc_block_number();
    assert_eq!(system.block_number(), 3);
}
