//! The object that computes the potential production of building types.
use vstd::prelude::*;

use crate::api::AnnoPtr;
use crate::memory::{MemoryImage, ReadError};

verus! {

/// The object that computes the potential production of each building type.
pub struct Class33 {
    pub address: u64,
}

impl Class33 {
    /// The object at `address`.
    pub fn new(address: u64) -> (r: Self)
        ensures
            r.address == address,
    {
        Class33 { address }
    }
}

impl AnnoPtr for Class33 {
    open spec fn spec_address(&self) -> u64 {
        self.address
    }

    fn new(address: u64) -> (r: Self) {
        Class33 { address }
    }

    fn get_address(&self) -> (a: u64) {
        self.address
    }
}

} // verus!
