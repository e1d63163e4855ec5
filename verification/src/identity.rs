//! The outside types that name and locate a node, and the calls that make them.
use vstd::prelude::*;
use libp2p::identity::{Keypair, ParseError};
use libp2p::multiaddr::Error as MultiaddrError;
use libp2p::{Multiaddr, PeerId};
use crate::numerals::decimal_chars;

verus! {

#[verifier::external_type_specification]
#[verifier::external_body]
pub struct ExPeerId(libp2p::PeerId);

#[verifier::external_type_specification]
#[verifier::external_body]
pub struct ExPeerIdParseError(libp2p::identity::ParseError);

#[verifier::external_type_specification]
#[verifier::external_body]
pub struct ExKeypair(libp2p::identity::Keypair);

#[verifier::external_type_specification]
#[verifier::external_body]
pub struct ExMultiaddr(libp2p::Multiaddr);

#[verifier::external_type_specification]
#[verifier::external_body]
pub struct ExMultiaddrError(libp2p::multiaddr::Error);

/// The bytes that a peer id holds: its multihash, as `PeerId::to_bytes` gives it.
pub uninterp spec fn peer_id_bytes_held(id: PeerId) -> Seq<u8>;

/// The public key that a key pair holds, in its protobuf encoding
/// (`keys.public().encode_protobuf()`).
pub uninterp spec fn keypair_public_key(keys: Keypair) -> Seq<u8>;

/// The bytes that a multiaddress holds: its protocols and their values, each after its code.
pub uninterp spec fn multiaddr_bytes_held(addr: Multiaddr) -> Seq<u8>;

/// Whether `text` is a peer id in base 58: the base-58 digits of a multihash that a peer id
/// may hold.
pub uninterp spec fn peer_id_text_is_valid(text: Seq<char>) -> bool;

/// The bytes of the peer id that a base-58 text stands for.
pub uninterp spec fn peer_id_text_bytes(text: Seq<char>) -> Seq<u8>;

/// Whether `text` is a multiaddress in its text form: protocols and their values, each after
/// a `/`.
pub uninterp spec fn multiaddr_text_is_valid(text: Seq<char>) -> bool;

/// The bytes of the multiaddress that a text stands for.
pub uninterp spec fn multiaddr_text_bytes(text: Seq<char>) -> Seq<u8>;

/// The SHA-256 digest of `data`.
pub uninterp spec fn sha256_digest(data: Seq<u8>) -> Seq<u8>;

/// The bytes of the peer id of a public key in its protobuf encoding: the encoding itself
/// under the identity multihash when it is at most 42 bytes long, else its SHA-256 digest
/// under the SHA-256 multihash.
pub open spec fn peer_id_of_public_key(encoded: Seq<u8>) -> Seq<u8> {
    if encoded.len() <= 42 {
        seq![0u8, encoded.len() as u8] + encoded
    } else {
        seq![0x12u8, 0x20u8] + sha256_digest(encoded)
    }
}

/// Whether a public key in its protobuf encoding is an Ed25519 key: the key type Ed25519 (1)
/// in field 1, then 32 bytes of key in field 2.
pub open spec fn is_ed25519_public_key(encoded: Seq<u8>) -> bool {
    &&& encoded.len() == 36
    &&& encoded[0] == 0x08
    &&& encoded[1] == 0x01
    &&& encoded[2] == 0x12
    &&& encoded[3] == 0x20
}

/// The text of the multiaddress of IPv4 address `a.b.c.d` and TCP port `port`.
pub open spec fn ip4_tcp_text(a: u8, b: u8, c: u8, d: u8, port: u16) -> Seq<char> {
    seq!['/', 'i', 'p', '4', '/'] + decimal_chars(a as nat) + seq!['.'] + decimal_chars(b as nat)
        + seq!['.'] + decimal_chars(c as nat) + seq!['.'] + decimal_chars(d as nat) + seq![
        '/',
        't',
        'c',
        'p',
        '/',
    ] + decimal_chars(port as nat)
}

/// The bytes of that multiaddress: code 4 and the four octets, then code 6 and the port in
/// big-endian order.
pub open spec fn ip4_tcp_bytes(a: u8, b: u8, c: u8, d: u8, port: u16) -> Seq<u8> {
    seq![4u8, a, b, c, d, 6u8, (port / 256) as u8, (port % 256) as u8]
}

/// `PeerId::from_str`: decodes a peer id from its base-58 text. Whether it succeeds and the
/// bytes read depend on the text alone, and that is what the contract names.
#[verifier::external_body]
pub fn parse_peer_id(text: &str) -> (r: Result<PeerId, ParseError>)
    ensures
        r is Ok <==> peer_id_text_is_valid(text@),
        r matches Ok(id) ==> peer_id_bytes_held(id) == peer_id_text_bytes(text@),
{
    text.parse::<PeerId>()
}

/// `Multiaddr::from_str`: reads a multiaddress from its text form. Whether it succeeds and the
/// bytes read depend on the text alone, and that is what the contract names. One form is
/// stated: an IPv4 address in dotted decimal and a TCP port in decimal, without leading zeros,
/// are read as codes 4 and 6 with their values (`Ipv4Addr::from_str` and `u16::from_str`
/// accept them).
#[verifier::external_body]
pub fn parse_multiaddr(text: &str) -> (r: Result<Multiaddr, MultiaddrError>)
    ensures
        r is Ok <==> multiaddr_text_is_valid(text@),
        r matches Ok(addr) ==> multiaddr_bytes_held(addr) == multiaddr_text_bytes(text@),
        forall|a: u8, b: u8, c: u8, d: u8, port: u16|
            #[trigger] ip4_tcp_text(a, b, c, d, port) == text@ ==> r is Ok && multiaddr_bytes_held(
                r->Ok_0,
            ) == ip4_tcp_bytes(a, b, c, d, port),
{
    text.parse::<Multiaddr>()
}

/// `Keypair::generate_ed25519`: a fresh Ed25519 key pair drawn at random. Which key is not
/// stated; its public key is an Ed25519 key.
#[verifier::external_body]
pub fn generate_ed25519() -> (r: Keypair)
    ensures
        is_ed25519_public_key(keypair_public_key(r)),
{
    Keypair::generate_ed25519()
}

/// `PeerId::from` the public half of a key pair: the peer id of its public key.
#[verifier::external_body]
pub fn peer_id_of(keys: &Keypair) -> (r: PeerId)
    ensures
        peer_id_bytes_held(r) == (if keypair_public_key(*keys).len() <= 42 {
            seq![0u8, keypair_public_key(*keys).len() as u8] + keypair_public_key(*keys)
        } else {
            seq![0x12u8, 0x20u8] + sha256_digest(keypair_public_key(*keys))
        }),
{
    PeerId::from(keys.public())
}

} // verus!
