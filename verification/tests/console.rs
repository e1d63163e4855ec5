use libp2p::PeerId;
use pchat::console::{decide, Action};

#[test]
fn send_to_a_valid_peer() {
    let peer = PeerId::random();
    let line = format!("send {} héllo", peer.to_base58());
    match decide(&line) {
        Action::DirectMessage { peer: p, data } => {
            assert_eq!(p, peer);
            assert_eq!(data, "héllo".as_bytes().to_vec());
        }
        _ => panic!("expected a direct message"),
    }
}

#[test]
fn send_to_an_invalid_peer() {
    assert!(matches!(decide("send not-a-peer hi"), Action::InvalidPeer(_)));
}

#[test]
fn broadcast_gives_the_bytes() {
    match decide("broadcast ping") {
        Action::Broadcast { data } => assert_eq!(data, b"ping".to_vec()),
        _ => panic!("expected a broadcast"),
    }
}

#[test]
fn connect_to_valid_and_invalid_addresses() {
    match decide("connect /ip4/127.0.0.1/tcp/4001") {
        Action::Dial(addr) => assert_eq!(addr.to_string(), "/ip4/127.0.0.1/tcp/4001"),
        _ => panic!("expected a dial"),
    }
    assert!(matches!(decide("connect nowhere"), Action::InvalidAddress(_)));
}

#[test]
fn other_lines() {
    assert!(matches!(decide("exit"), Action::Exit));
    assert!(matches!(decide("help"), Action::ShowHelp));
    assert!(matches!(decide(""), Action::ShowHelp));
    assert!(matches!(decide("send x"), Action::Nothing));
    assert!(matches!(decide("connect"), Action::Nothing));
}
