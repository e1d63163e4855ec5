use libp2p::PeerId;
use pchat::account::{Account, LISTEN_ADDRESS};

#[test]
fn new_account_listens_everywhere() {
    let account = Account::new();
    assert_eq!(account.address.to_string(), LISTEN_ADDRESS);
    assert_eq!(LISTEN_ADDRESS, "/ip4/0.0.0.0/tcp/0");
    assert_eq!(account.address.to_vec(), vec![4u8, 0, 0, 0, 0, 6, 0, 0]);
}

#[test]
fn peer_id_is_that_of_the_key_pair() {
    let account = Account::new();
    assert_eq!(account.peer_id, PeerId::from(account.id_keys.public()));
    assert!(account.id_keys.clone().try_into_ed25519().is_ok());
}

#[test]
fn peer_id_inlines_the_ed25519_key() {
    let account = Account::new();
    let key = account.id_keys.public().encode_protobuf();
    assert_eq!(key.len(), 36);
    assert_eq!(&key[..4], &[0x08, 0x01, 0x12, 0x20]);
    let mut expected = vec![0u8, 36];
    expected.extend_from_slice(&key);
    assert_eq!(account.peer_id.to_bytes(), expected);
}

#[test]
fn accounts_are_distinct() {
    let a = Account::new();
    let b = Account::new();
    assert_ne!(a.peer_id, b.peer_id);
}
