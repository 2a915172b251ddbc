//! One trade contract.
use vstd::prelude::*;

use crate::api::AnnoPtr;
use crate::memory::{MemoryImage, ReadError};
use crate::api::ware_type::{read_ware, spec_read_ware, WareType};

verus! {

/// One trade contract: a ware exported for a ware imported.
pub struct TradeContractPtr {
    pub address: u64,
}

impl TradeContractPtr {
    /// The object at `address`.
    pub fn new(address: u64) -> (r: Self)
        ensures
            r.address == address,
    {
        TradeContractPtr { address }
    }

    /// The exported ware.
    pub fn get_export_product_type(&self, mem: &MemoryImage) -> (r: Result<WareType, ReadError>)
        ensures
            r == spec_read_ware(mem, self.address + 0x08),
    {
        read_ware(mem, self.address, 0x08)
    }

    /// The amount exported.
    pub fn get_export_amount(&self, mem: &MemoryImage) -> (r: Result<u32, ReadError>)
        ensures
            r == mem.spec_read_u32(self.address + 0x0c),
    {
        mem.read_u32(self.address, 0x0c)
    }

    /// The imported ware.
    pub fn get_import_product_type(&self, mem: &MemoryImage) -> (r: Result<WareType, ReadError>)
        ensures
            r == spec_read_ware(mem, self.address + 0x14),
    {
        read_ware(mem, self.address, 0x14)
    }

    /// The amount imported.
    pub fn get_import_amount(&self, mem: &MemoryImage) -> (r: Result<u32, ReadError>)
        ensures
            r == mem.spec_read_u32(self.address + 0x18),
    {
        mem.read_u32(self.address, 0x18)
    }
}

impl AnnoPtr for TradeContractPtr {
    open spec fn spec_address(&self) -> u64 {
        self.address
    }

    fn new(address: u64) -> (r: Self) {
        TradeContractPtr { address }
    }

    fn get_address(&self) -> (a: u64) {
        self.address
    }
}

} // verus!
