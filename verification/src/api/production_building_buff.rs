//! A buff of a production building.
use vstd::prelude::*;

use crate::api::AnnoPtr;
use crate::memory::{MemoryImage, ReadError};
use crate::api::ware_type::{read_ware, spec_read_ware, BuildingType};

verus! {

/// A buff that adds production to a building.
pub struct ProductionBuildingBuffPtr {
    pub address: u64,
}

impl ProductionBuildingBuffPtr {
    /// The building type the buff applies to.
    pub fn get_building_type(&self, mem: &MemoryImage) -> (r: Result<BuildingType, ReadError>)
        ensures
            r == spec_read_ware(mem, self.address + 0x0000),
    {
        read_ware(mem, self.address, 0x0000)
    }

    /// The buff's value (an `f32`, given as its raw bits)
    pub fn get_value_bits(&self, mem: &MemoryImage) -> (r: Result<u32, ReadError>)
        ensures
            r == mem.spec_read_u32(self.address + 0x0004),
    {
        mem.read_u32(self.address, 0x0004)
    }
}

impl AnnoPtr for ProductionBuildingBuffPtr {
    open spec fn spec_address(&self) -> u64 {
        self.address
    }

    fn new(address: u64) -> (r: Self) {
        ProductionBuildingBuffPtr { address }
    }

    fn get_address(&self) -> (a: u64) {
        self.address
    }
}

} // verus!
