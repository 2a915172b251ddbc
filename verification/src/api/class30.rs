//! A residence's demand for one ware.
use vstd::prelude::*;

use crate::api::AnnoPtr;
use crate::memory::{MemoryImage, ReadError};
use crate::api::ware_type::{read_ware, spec_read_ware, WareType};

verus! {

/// The demand of an island's residences for one ware.
pub struct Class30Ptr {
    pub address: u64,
}

impl Class30Ptr {
    /// The object at `address`.
    pub fn new(address: u64) -> (r: Self)
        ensures
            r.address == address,
    {
        Class30Ptr { address }
    }

    /// The ware demanded.
    pub fn get_ware_type(&self, mem: &MemoryImage) -> (r: Result<WareType, ReadError>)
        ensures
            r == spec_read_ware(mem, self.address + 0x00),
    {
        read_ware(mem, self.address, 0x00)
    }

    /// The demand per second (an `f32`, given as its raw bits)
    pub fn get_demand_per_second_bits(&self, mem: &MemoryImage) -> (r: Result<u32, ReadError>)
        ensures
            r == mem.spec_read_u32(self.address + 0x0c),
    {
        mem.read_u32(self.address, 0x0c)
    }
}

impl AnnoPtr for Class30Ptr {
    open spec fn spec_address(&self) -> u64 {
        self.address
    }

    fn new(address: u64) -> (r: Self) {
        Class30Ptr { address }
    }

    fn get_address(&self) -> (a: u64) {
        self.address
    }
}

} // verus!
