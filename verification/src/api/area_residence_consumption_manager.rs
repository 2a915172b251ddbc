//! The manager of an island area's residence consumption.
use vstd::prelude::*;

use crate::api::AnnoPtr;
use crate::memory::{MemoryImage, ReadError};
use crate::api::class30::Class30Ptr;
use crate::api::island::IslandPtr;
use crate::api::array_list::{read_span, span_fits, span_read};

verus! {

/// The manager of the consumption of the residences of an island area.
pub struct AreaResidenceConsumptionManagerPtr {
    pub address: u64,
}

impl AreaResidenceConsumptionManagerPtr {
    /// The island.
    pub fn get_island(&self, mem: &MemoryImage) -> (r: Result<IslandPtr, ReadError>)
        ensures
            r == match mem.spec_read_u64(self.address + 0x0038) {
                Ok(a) => Ok::<IslandPtr, ReadError>(IslandPtr { address: a }),
                Err(e) => Err::<IslandPtr, ReadError>(e),
            },
    {
        let a = mem.read_u64(self.address, 0x0038)?;
        Ok(IslandPtr { address: a })
    }

    /// The address of the first demand.
    pub fn get_class30_first(&self, mem: &MemoryImage) -> (r: Result<u64, ReadError>)
        ensures
            r == mem.spec_read_u64(self.address + 0x40),
    {
        mem.read_u64(self.address, 0x40)
    }

    /// The address just past the last demand.
    pub fn get_class30_last(&self, mem: &MemoryImage) -> (r: Result<u64, ReadError>)
        ensures
            r == mem.spec_read_u64(self.address + 0x48),
    {
        mem.read_u64(self.address, 0x48)
    }

    /// The demands, `0x38` bytes apart from the first up to the end.
    pub fn get_class30s(&self, mem: &MemoryImage) -> (r: Result<Vec<Class30Ptr>, ReadError>)
        requires
            span_fits(mem, self.address + 0x40, self.address + 0x48, 0x38),
        ensures
            span_read(mem, self.address + 0x40, self.address + 0x48, 0x38, r),
    {
        read_span(mem, self.address, 0x40, 0x48, 0x38)
    }
}

impl AnnoPtr for AreaResidenceConsumptionManagerPtr {
    open spec fn spec_address(&self) -> u64 {
        self.address
    }

    fn new(address: u64) -> (r: Self) {
        AreaResidenceConsumptionManagerPtr { address }
    }

    fn get_address(&self) -> (a: u64) {
        self.address
    }
}

} // verus!
