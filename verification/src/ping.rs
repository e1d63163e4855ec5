//! Pinging a remote node, not built out yet: only the id of the node to ping is kept.
use vstd::prelude::*;

verus! {

/// Sets up pings to the node with id `remote_id`.
pub struct PingFactory {
    remote_id: String,
}

} // verus!
