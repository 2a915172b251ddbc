//! One input of a production.
use vstd::prelude::*;

use crate::api::AnnoPtr;
use crate::memory::{MemoryImage, ReadError};
use crate::api::ware_type::{read_ware, spec_read_ware, WareType};

verus! {

/// One input of a production: the ware and its multiplier.
pub struct Class32 {
    pub address: u64,
}

impl Class32 {
    /// The object at `address`.
    pub fn new(address: u64) -> (r: Self)
        ensures
            r.address == address,
    {
        Class32 { address }
    }

    /// The input ware.
    pub fn get_ware_type(&self, mem: &MemoryImage) -> (r: Result<WareType, ReadError>)
        ensures
            r == spec_read_ware(mem, self.address + 0x0000),
    {
        read_ware(mem, self.address, 0x0000)
    }

    /// The input's multiplier (an `f32`, given as its raw bits)
    pub fn get_4_bits(&self, mem: &MemoryImage) -> (r: Result<u32, ReadError>)
        ensures
            r == mem.spec_read_u32(self.address + 0x0004),
    {
        mem.read_u32(self.address, 0x0004)
    }
}

impl AnnoPtr for Class32 {
    open spec fn spec_address(&self) -> u64 {
        self.address
    }

    fn new(address: u64) -> (r: Self) {
        Class32 { address }
    }

    fn get_address(&self) -> (a: u64) {
        self.address
    }
}

} // verus!
