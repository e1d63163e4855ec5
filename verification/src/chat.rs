use vstd::prelude::*;

verus! {

/// A chat node as first sketched: the id of its peer and the address it listens on.
pub struct PChat {
    pub pid: String,
    pub ip: String,
}

impl PChat {
    /// Creating a chat node is not settled yet: the call does nothing.
    pub fn create() {
    }
}

} // verus!
