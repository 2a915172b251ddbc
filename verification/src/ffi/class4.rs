//! The production building the game hands to the production update hook.
use vstd::prelude::*;

verus! {

/// A production building, named by its address.
#[derive(Debug)]
pub struct Class4 {
    pub address: u64,
}

impl Class4 {
    /// The building at `address`.
    pub fn new(address: u64) -> (r: Self)
        ensures
            r.address == address,
    {
        Class4 { address }
    }
}

} // verus!
