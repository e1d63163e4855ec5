# pchat

A peer-to-peer chat on libp2p: each account is a node with an Ed25519 identity, peers of the
local network are found with mDNS, and messages travel with gossipsub. Broadcasts go to the
topic `test-net`; a message for one peer goes to that peer's own topic,
`direct-messages/<peer id in base 58>`, which each node subscribes to.

- `src/` is the library, verified with Verus:
  - `command`: the console's lines, cut into words at Unicode white space, and the command
    they name;
  - `console`: the action a line asks of the node, with its peer id or address read;
  - `message_id`: the process-wide snowflake generator, and message ids written as the decimal
    hash of its ids (at most twenty digits);
  - `account`: a node's key pair, the peer id derived from its public key, and its listen
    address;
  - `behaviour`: the gossip layer (settings, publishing and what it answers, explicit peers
    kept in step with mDNS, and the lines written for gossip events);
  - `identity`: peer ids, key pairs and multiaddresses, and the byte forms the contracts
    speak of;
  - `numerals`: numbers written in decimal;
  - `chat`, `ping`: early placeholders.
- `app/main.rs` is the program: it opens mDNS and the swarm, reads standard input, and prints.
- `tests/` runs the library on concrete values.
