//! An extra ware a production building makes.
use vstd::prelude::*;

use crate::api::AnnoPtr;
use crate::memory::{MemoryImage, ReadError};
use crate::api::ware_type::{read_ware, spec_read_ware, WareType};

verus! {

/// An extra ware that a production building makes.
pub struct WareProductionExtraPtr {
    pub address: u64,
}

impl WareProductionExtraPtr {
    /// The extra ware.
    pub fn get_building_type(&self, mem: &MemoryImage) -> (r: Result<WareType, ReadError>)
        ensures
            r == spec_read_ware(mem, self.address + 0x0000),
    {
        read_ware(mem, self.address, 0x0000)
    }

    /// The extra production (an `f32`, given as its raw bits)
    pub fn get_value_bits(&self, mem: &MemoryImage) -> (r: Result<u32, ReadError>)
        ensures
            r == mem.spec_read_u32(self.address + 0x0004),
    {
        mem.read_u32(self.address, 0x0004)
    }
}

impl AnnoPtr for WareProductionExtraPtr {
    open spec fn spec_address(&self) -> u64 {
        self.address
    }

    fn new(address: u64) -> (r: Self) {
        WareProductionExtraPtr { address }
    }

    fn get_address(&self) -> (a: u64) {
        self.address
    }
}

} // verus!
