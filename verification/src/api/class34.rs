//! The potential production of a building type.
use vstd::prelude::*;

use crate::api::AnnoPtr;
use crate::memory::{MemoryImage, ReadError};

verus! {

/// The potential production of one building type.
pub struct Class34 {
    pub address: u64,
}

impl Class34 {
    /// The object at `address`.
    pub fn new(address: u64) -> (r: Self)
        ensures
            r.address == address,
    {
        Class34 { address }
    }

    /// The potential production (an `f32`, given as its raw bits)
    pub fn get_potential_production_bits(&self, mem: &MemoryImage) -> (r: Result<u32, ReadError>)
        ensures
            r == mem.spec_read_u32(self.address + 0x0000),
    {
        mem.read_u32(self.address, 0x0000)
    }
}

impl AnnoPtr for Class34 {
    open spec fn spec_address(&self) -> u64 {
        self.address
    }

    fn new(address: u64) -> (r: Self) {
        Class34 { address }
    }

    fn get_address(&self) -> (a: u64) {
        self.address
    }
}

} // verus!
