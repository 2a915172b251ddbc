//! A trade route, its stops and the cargo slots of each stop.
use vstd::prelude::*;

use crate::api::array_list::{read_span_deref, span_deref_read, span_fits};
use crate::api::string_buffer::{utf16_lossy, StringBufferPtr};
use crate::api::ware_type::{read_ware, spec_read_ware, WareType};
use crate::api::AnnoPtr;
use crate::memory::{MemoryImage, ReadError};

verus! {

/// A trade route.
pub struct TradeRoutePtr {
    pub address: u64,
}

/// One stop of a trade route.
pub struct TradeRouteStopPtr {
    pub address: u64,
}

/// One cargo slot of a stop.
pub struct TradeRouteStopSlotPtr {
    pub address: u64,
}

impl TradeRoutePtr {
    /// The route's name, each unpaired surrogate replaced by U+FFFD.
    pub fn get_route_name(&self, mem: &MemoryImage) -> (r: Result<String, ReadError>)
        requires
            self.address + 0x18 <= u64::MAX,
        ensures
            match (StringBufferPtr { address: (self.address + 0x18) as u64 }).spec_units(mem) {
                Ok(s) => r matches Ok(v) && v@ == utf16_lossy(s),
                Err(e) => r == Err::<String, ReadError>(e),
            },
    {
        StringBufferPtr { address: self.address + 0x18 }.get_string(mem)
    }

    /// The stops: the list at offset `0x38` holds the address of each.
    pub fn get_stops(&self, mem: &MemoryImage) -> (r: Result<Vec<TradeRouteStopPtr>, ReadError>)
        requires
            span_fits(mem, self.address + 0x38, self.address + 0x40, 8),
        ensures
            span_deref_read(mem, self.address + 0x38, self.address + 0x40, r),
    {
        read_span_deref(mem, self.address, 0x38, 0x40)
    }

    /// The owner of the route.
    pub fn get_owner_id(&self, mem: &MemoryImage) -> (r: Result<u16, ReadError>)
        ensures
            r == mem.spec_read_u16(self.address + 0x82),
    {
        mem.read_u16(self.address, 0x82)
    }
}

impl TradeRouteStopPtr {
    /// The island of the stop.
    pub fn get_island_id(&self, mem: &MemoryImage) -> (r: Result<u16, ReadError>)
        ensures
            r == mem.spec_read_u16(self.address + 0x10),
    {
        mem.read_u16(self.address, 0x10)
    }

    /// The cargo slots: the list at offset `0x18` holds the address of each.
    pub fn get_slots(&self, mem: &MemoryImage) -> (r: Result<Vec<TradeRouteStopSlotPtr>, ReadError>)
        requires
            span_fits(mem, self.address + 0x18, self.address + 0x20, 8),
        ensures
            span_deref_read(mem, self.address + 0x18, self.address + 0x20, r),
    {
        read_span_deref(mem, self.address, 0x18, 0x20)
    }
}

impl TradeRouteStopSlotPtr {
    /// The ware the slot carries.
    pub fn get_product_type(&self, mem: &MemoryImage) -> (r: Result<WareType, ReadError>)
        ensures
            r == spec_read_ware(mem, self.address + 0x10),
    {
        read_ware(mem, self.address, 0x10)
    }

    /// Whether the ware is loaded or unloaded at the stop.
    pub fn get_action(&self, mem: &MemoryImage) -> (r: Result<u8, ReadError>)
        ensures
            r == mem.spec_read_u8(self.address + 0x14),
    {
        mem.read_u8(self.address, 0x14)
    }

    /// The amount of the ware.
    pub fn get_amount(&self, mem: &MemoryImage) -> (r: Result<u32, ReadError>)
        ensures
            r == mem.spec_read_u32(self.address + 0x18),
    {
        mem.read_u32(self.address, 0x18)
    }
}

impl AnnoPtr for TradeRoutePtr {
    open spec fn spec_address(&self) -> u64 {
        self.address
    }

    fn new(address: u64) -> (r: Self) {
        TradeRoutePtr { address }
    }

    fn get_address(&self) -> (a: u64) {
        self.address
    }
}

impl AnnoPtr for TradeRouteStopPtr {
    open spec fn spec_address(&self) -> u64 {
        self.address
    }

    fn new(address: u64) -> (r: Self) {
        TradeRouteStopPtr { address }
    }

    fn get_address(&self) -> (a: u64) {
        self.address
    }
}

impl AnnoPtr for TradeRouteStopSlotPtr {
    open spec fn spec_address(&self) -> u64 {
        self.address
    }

    fn new(address: u64) -> (r: Self) {
        TradeRouteStopSlotPtr { address }
    }

    fn get_address(&self) -> (a: u64) {
        self.address
    }
}

} // verus!
