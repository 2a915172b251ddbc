//! The object that holds an island area's building registries.
use vstd::prelude::*;

use crate::api::AnnoPtr;
use crate::memory::{MemoryImage, ReadError};
use crate::api::hash_map::{HashMapLookup, HashMapPtr};

verus! {

/// The registry key of the consumption buildings.
pub const CONSUMPTION_BUILDINGS_INDEX: u32 = 0x02fd;

/// The registry key of the production buildings.
pub const PRODUCTION_BUILDINGS_INDEX: u32 = 0x0301;

/// The registry key of the energy buildings.
pub const ENERGY_BUILDINGS_INDEX: u32 = 0x0315;

/// The object that holds the building registries of an island area, in a hash map.
pub struct Class46Ptr {
    pub address: u64,
}

impl Class46Ptr {
    /// The object's virtual table.
    pub fn get_vtable(&self, mem: &MemoryImage) -> (r: Result<u64, ReadError>)
        ensures
            r == mem.spec_read_u64(self.address + 0x0000),
    {
        mem.read_u64(self.address, 0x0000)
    }

    /// The map of registries, embedded in the object.
    pub fn get_hashmap_ptr(&self) -> (r: HashMapPtr)
        requires
            self.address + 0x0048 <= u64::MAX,
        ensures
            r.address == self.address + 0x0048,
    {
        HashMapPtr { address: self.address + 0x0048 }
    }

    /// The word at offset `0x58`.
    pub fn get_field_58(&self, mem: &MemoryImage) -> (r: Result<u64, ReadError>)
        ensures
            r == mem.spec_read_u64(self.address + 0x0058),
    {
        mem.read_u64(self.address, 0x0058)
    }

    /// The word at offset `0x70`.
    pub fn get_field_70(&self, mem: &MemoryImage) -> (r: Result<u64, ReadError>)
        ensures
            r == mem.spec_read_u64(self.address + 0x0070),
    {
        mem.read_u64(self.address, 0x0070)
    }

    /// The address of the registry of production buildings, `0` when the map does not hold it.
    pub fn get_production_buildings(&self, mem: &MemoryImage) -> (r: Result<u64, ReadError>)
        requires
            self.address + 0x0048 <= u64::MAX,
            (HashMapPtr { address: (self.address + 0x0048) as u64 }).lookup_ends(mem, PRODUCTION_BUILDINGS_INDEX),
        ensures
            r == (HashMapPtr { address: (self.address + 0x0048) as u64 }).spec_entry(mem, PRODUCTION_BUILDINGS_INDEX),
    {
        self.get_hashmap_ptr().get_entry(mem, PRODUCTION_BUILDINGS_INDEX)
    }

    /// Begins, step by step, the lookup that `get_production_buildings` makes.
    pub fn get_production_buildings_lookup(&self, mem: &MemoryImage) -> (r: Result<HashMapLookup, ReadError>)
        requires
            self.address + 0x0048 <= u64::MAX,
        ensures
            r == (HashMapPtr { address: (self.address + 0x0048) as u64 }).spec_start_lookup(mem, PRODUCTION_BUILDINGS_INDEX),
    {
        self.get_hashmap_ptr().start_lookup(mem, PRODUCTION_BUILDINGS_INDEX)
    }

    /// The address of the registry of consumption buildings, `0` when the map does not hold it.
    pub fn get_consumption_buildings(&self, mem: &MemoryImage) -> (r: Result<u64, ReadError>)
        requires
            self.address + 0x0048 <= u64::MAX,
            (HashMapPtr { address: (self.address + 0x0048) as u64 }).lookup_ends(mem, CONSUMPTION_BUILDINGS_INDEX),
        ensures
            r == (HashMapPtr { address: (self.address + 0x0048) as u64 }).spec_entry(mem, CONSUMPTION_BUILDINGS_INDEX),
    {
        self.get_hashmap_ptr().get_entry(mem, CONSUMPTION_BUILDINGS_INDEX)
    }

    /// Begins, step by step, the lookup that `get_consumption_buildings` makes.
    pub fn get_consumption_buildings_lookup(&self, mem: &MemoryImage) -> (r: Result<HashMapLookup, ReadError>)
        requires
            self.address + 0x0048 <= u64::MAX,
        ensures
            r == (HashMapPtr { address: (self.address + 0x0048) as u64 }).spec_start_lookup(mem, CONSUMPTION_BUILDINGS_INDEX),
    {
        self.get_hashmap_ptr().start_lookup(mem, CONSUMPTION_BUILDINGS_INDEX)
    }

    /// The address of the registry of energy buildings, `0` when the map does not hold it.
    pub fn get_energy_buildings(&self, mem: &MemoryImage) -> (r: Result<u64, ReadError>)
        requires
            self.address + 0x0048 <= u64::MAX,
            (HashMapPtr { address: (self.address + 0x0048) as u64 }).lookup_ends(mem, ENERGY_BUILDINGS_INDEX),
        ensures
            r == (HashMapPtr { address: (self.address + 0x0048) as u64 }).spec_entry(mem, ENERGY_BUILDINGS_INDEX),
    {
        self.get_hashmap_ptr().get_entry(mem, ENERGY_BUILDINGS_INDEX)
    }

    /// Begins, step by step, the lookup that `get_energy_buildings` makes.
    pub fn get_energy_buildings_lookup(&self, mem: &MemoryImage) -> (r: Result<HashMapLookup, ReadError>)
        requires
            self.address + 0x0048 <= u64::MAX,
        ensures
            r == (HashMapPtr { address: (self.address + 0x0048) as u64 }).spec_start_lookup(mem, ENERGY_BUILDINGS_INDEX),
    {
        self.get_hashmap_ptr().start_lookup(mem, ENERGY_BUILDINGS_INDEX)
    }
}

impl AnnoPtr for Class46Ptr {
    open spec fn spec_address(&self) -> u64 {
        self.address
    }

    fn new(address: u64) -> (r: Self) {
        Class46Ptr { address }
    }

    fn get_address(&self) -> (a: u64) {
        self.address
    }
}

} // verus!
