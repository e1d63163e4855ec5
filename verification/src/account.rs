//! An account is a node of the chat: its identity key pair, the peer id that the key pair
//! gives it, and the address it listens on.
use vstd::prelude::*;
use libp2p::identity::Keypair;
use libp2p::{Multiaddr, PeerId};
use crate::identity::{
    generate_ed25519, ip4_tcp_bytes, ip4_tcp_text, is_ed25519_public_key, keypair_public_key,
    multiaddr_bytes_held, parse_multiaddr, peer_id_bytes_held, peer_id_of, peer_id_of_public_key,
};
use crate::numerals::{decimal_chars, digit_char};

verus! {

/// The address a new account listens on: every IPv4 interface, on a TCP port that the system
/// picks.
pub const LISTEN_ADDRESS: &'static str = "/ip4/0.0.0.0/tcp/0";

/// One account of the chat, which is one node of the network.
pub struct Account {
    pub id_keys: Keypair,
    pub peer_id: PeerId,
    pub address: Multiaddr,
}

/// `LISTEN_ADDRESS` is the text of IPv4 address 0.0.0.0 with TCP port 0.
proof fn lemma_listen_address_text()
    ensures
        LISTEN_ADDRESS@ == ip4_tcp_text(0, 0, 0, 0, 0),
{
    reveal_strlit("/ip4/0.0.0.0/tcp/0");
    assert(decimal_chars(0) == seq![digit_char(0)]);
    assert(ip4_tcp_text(0, 0, 0, 0, 0) =~= "/ip4/0.0.0.0/tcp/0"@);
}

impl Account {
    /// Creates an account: a fresh Ed25519 key pair, the peer id of its public key, and
    /// `LISTEN_ADDRESS` (every IPv4 interface, TCP port chosen by the system) as its address.
    pub fn new() -> (a: Account)
        ensures
            is_ed25519_public_key(keypair_public_key(a.id_keys)),
            peer_id_bytes_held(a.peer_id) == peer_id_of_public_key(keypair_public_key(a.id_keys)),
            multiaddr_bytes_held(a.address) == ip4_tcp_bytes(0, 0, 0, 0, 0),
    {
        let id_keys = generate_ed25519();
        let peer_id = peer_id_of(&id_keys);
        proof {
            lemma_listen_address_text();
        }
        let parsed = parse_multiaddr(LISTEN_ADDRESS);
        assert(ip4_tcp_text(0, 0, 0, 0, 0) == LISTEN_ADDRESS@);
        let address = match parsed {
            Ok(address) => address,
            Err(_) => unreached(),
        };
        Account { id_keys, peer_id, address }
    }
}

} // verus!
