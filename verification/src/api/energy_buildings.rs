//! The registry of an island area's energy buildings.
use vstd::prelude::*;

use crate::api::AnnoPtr;
use crate::memory::{MemoryImage, ReadError};
use crate::api::array_list::{read_span, span_fits, span_read, strided_objects};
use crate::memory::{read_each_u64, spec_read_each_u64};

verus! {

/// The registry of the energy buildings of an island area.
pub struct EnergyBuildingsPtr {
    pub address: u64,
}

impl EnergyBuildingsPtr {
    /// The object at `address`.
    pub fn new(address: u64) -> (r: Self)
        ensures
            r.address == address,
    {
        EnergyBuildingsPtr { address }
    }

    /// The object's virtual table.
    pub fn get_vtable(&self, mem: &MemoryImage) -> (r: Result<u64, ReadError>)
        ensures
            r == mem.spec_read_u64(self.address + 0x0000),
    {
        mem.read_u64(self.address, 0x0000)
    }

    /// The addresses of the words of the list at offset `0x28`, each of which holds the address of a building.
    pub fn get_production_building_list(&self, mem: &MemoryImage) -> (r: Result<Vec<u64>, ReadError>)
        requires
            span_fits(mem, self.address + 0x28, self.address + 0x30, 8),
        ensures
            span_read(mem, self.address + 0x28, self.address + 0x30, 8, r),
    {
        read_span(mem, self.address, 0x28, 0x30, 8)
    }

    /// The addresses of the buildings: the words the list at offset `0x28`
    /// holds.
    pub fn get_vec(&self, mem: &MemoryImage) -> (r: Result<Vec<u64>, ReadError>)
        requires
            span_fits(mem, self.address + 0x28, self.address + 0x30, 8),
        ensures
            match (mem.spec_read_u64(self.address + 0x28), mem.spec_read_u64(self.address + 0x30)) {
                (Err(e), _) => r == Err::<Vec<u64>, ReadError>(e),
                (Ok(_), Err(e)) => r == Err::<Vec<u64>, ReadError>(e),
                (Ok(first), Ok(last)) => exists|slots: Seq<u64>|
                    {
                        &&& strided_objects(slots, first, last, 8)
                        &&& match spec_read_each_u64(mem, slots) {
                            Ok(s) => r matches Ok(v) && v@ == s,
                            Err(e) => r == Err::<Vec<u64>, ReadError>(e),
                        }
                    },
            },
    {
        let slots = self.get_production_building_list(mem)?;
        read_each_u64(mem, &slots)
    }
}

impl AnnoPtr for EnergyBuildingsPtr {
    open spec fn spec_address(&self) -> u64 {
        self.address
    }

    fn new(address: u64) -> (r: Self) {
        EnergyBuildingsPtr { address }
    }

    fn get_address(&self) -> (a: u64) {
        self.address
    }
}

} // verus!
