//! What the chat does with a line typed at its console: the command, with its peer id or
//! address read, becomes one action for the node to carry out.
use vstd::prelude::*;
use vstd::string::*;
use vstd::utf8::encode_utf8;
use libp2p::identity::ParseError;
use libp2p::multiaddr::Error as MultiaddrError;
use libp2p::{Multiaddr, PeerId};
use crate::command::{
    arguments_needed, broadcast_word, command_for, connect_word, exit_word, parse_command,
    send_word, words_of, Command,
};
use crate::identity::{
    multiaddr_bytes_held, multiaddr_text_bytes, multiaddr_text_is_valid, parse_multiaddr,
    parse_peer_id, peer_id_bytes_held, peer_id_text_bytes, peer_id_text_is_valid,
};

verus! {

/// What the node does for one line of the console.
pub enum Action {
    /// Address a message to one peer: the peer id read, and the message's UTF-8 bytes.
    DirectMessage { peer: PeerId, data: Vec<u8> },
    /// The peer id of a `send` could not be read.
    InvalidPeer(ParseError),
    /// Publish the message's UTF-8 bytes to every peer.
    Broadcast { data: Vec<u8> },
    /// Dial the address read.
    Dial(Multiaddr),
    /// The address of a `connect` could not be read.
    InvalidAddress(MultiaddrError),
    /// Leave the chat.
    Exit,
    /// Show the commands.
    ShowHelp,
    /// Do nothing: a command lacked the words it needs.
    Nothing,
}

/// The action for a line with the words `w`: that of the command the words name, with its
/// peer id or address read from its text.
pub open spec fn action_for(w: Seq<Seq<char>>, a: Action) -> bool {
    if w.len() == 0 {
        a is ShowHelp
    } else if w[0] == send_word() {
        if w.len() >= 3 {
            if peer_id_text_is_valid(w[1]) {
                a matches Action::DirectMessage { peer, data } && peer_id_bytes_held(peer)
                    == peer_id_text_bytes(w[1]) && data@ == encode_utf8(w[2])
            } else {
                a is InvalidPeer
            }
        } else {
            a is Nothing
        }
    } else if w[0] == broadcast_word() {
        if w.len() >= 2 {
            a matches Action::Broadcast { data } && data@ == encode_utf8(w[1])
        } else {
            a is Nothing
        }
    } else if w[0] == connect_word() {
        if w.len() >= 2 {
            if multiaddr_text_is_valid(w[1]) {
                a matches Action::Dial(addr) && multiaddr_bytes_held(addr) == multiaddr_text_bytes(
                    w[1],
                )
            } else {
                a is InvalidAddress
            }
        } else {
            a is Nothing
        }
    } else if w[0] == exit_word() {
        a is Exit
    } else {
        a is ShowHelp
    }
}

/// The action follows the command that the same words name: a message to send or broadcast
/// becomes its UTF-8 bytes, unchanged; the peer id or address is read from the text the
/// command holds; `exit` exits, `help` and unknown words show help, and a command that lacks
/// words does nothing.
pub proof fn lemma_action_follows_command(w: Seq<Seq<char>>, c: Command, a: Action)
    requires
        command_for(w, c),
        action_for(w, a),
    ensures
        match c {
            Command::Send { peer, message } => if peer_id_text_is_valid(peer@) {
                a matches Action::DirectMessage { peer: p, data } && peer_id_bytes_held(p)
                    == peer_id_text_bytes(peer@) && data@ == encode_utf8(message@)
            } else {
                a is InvalidPeer
            },
            Command::Broadcast { message } => a matches Action::Broadcast { data } && data@
                == encode_utf8(message@),
            Command::Connect { address } => if multiaddr_text_is_valid(address@) {
                a matches Action::Dial(addr) && multiaddr_bytes_held(addr) == multiaddr_text_bytes(
                    address@,
                )
            } else {
                a is InvalidAddress
            },
            Command::Exit => a is Exit,
            Command::Help => a is ShowHelp,
            Command::MissingArguments => a is Nothing,
        },
{
}

/// Words after those a command needs change nothing: a line that goes on after its command's
/// arguments asks for the same action as the line cut there. So `broadcast hello world`
/// broadcasts `hello`, as `broadcast hello` does.
pub proof fn lemma_action_ignores_extra_words(w: Seq<Seq<char>>, extra: Seq<Seq<char>>, a: Action)
    requires
        w.len() >= 1 + arguments_needed(w[0]),
    ensures
        action_for(w + extra, a) == action_for(w, a),
{
    let v = w + extra;
    assert(v[0] == w[0]);
    if w.len() >= 2 {
        assert(v[1] == w[1]);
    }
    if w.len() >= 3 {
        assert(v[2] == w[2]);
    }
}

/// The UTF-8 bytes of a message.
fn message_bytes(message: &String) -> (r: Vec<u8>)
    ensures
        r@ == encode_utf8(message@),
{
    message.as_str().as_bytes_vec()
}

/// Decides what to do for a line typed at the console.
pub fn decide(line: &str) -> (a: Action)
    ensures
        action_for(words_of(line@), a),
{
    match parse_command(line) {
        Command::Send { peer, message } => match parse_peer_id(peer.as_str()) {
            Ok(peer) => Action::DirectMessage { peer, data: message_bytes(&message) },
            Err(e) => Action::InvalidPeer(e),
        },
        Command::Broadcast { message } => Action::Broadcast { data: message_bytes(&message) },
        Command::Connect { address } => match parse_multiaddr(address.as_str()) {
            Ok(address) => Action::Dial(address),
            Err(e) => Action::InvalidAddress(e),
        },
        Command::Exit => Action::Exit,
        Command::Help => Action::ShowHelp,
        Command::MissingArguments => Action::Nothing,
    }
}

} // verus!
