//! The trade contracts of one island.
use vstd::prelude::*;

use crate::api::AnnoPtr;
use crate::memory::{MemoryImage, ReadError};
use core::marker::PhantomData;
use crate::api::array_list::ArrayListPtr;
use crate::api::trade_contract::TradeContractPtr;

verus! {

/// The trade contracts of one island.
pub struct TradeContractsPtr {
    pub address: u64,
}

impl TradeContractsPtr {
    /// The object at `address`.
    pub fn new(address: u64) -> (r: Self)
        ensures
            r.address == address,
    {
        TradeContractsPtr { address }
    }

    /// The island the contracts belong to.
    pub fn get_island_id(&self, mem: &MemoryImage) -> (r: Result<u16, ReadError>)
        ensures
            r == mem.spec_read_u16(self.address + 0x68),
    {
        mem.read_u16(self.address, 0x68)
    }

    /// The list of the island's contracts, embedded in the object.
    pub fn get_contracts_list(&self) -> (r: ArrayListPtr<TradeContractPtr>)
        requires
            self.address + 0x80 <= u64::MAX,
        ensures
            r.address == self.address + 0x80,
    {
        ArrayListPtr { address: self.address + 0x80, phantom: PhantomData }
    }
}

impl AnnoPtr for TradeContractsPtr {
    open spec fn spec_address(&self) -> u64 {
        self.address
    }

    fn new(address: u64) -> (r: Self) {
        TradeContractsPtr { address }
    }

    fn get_address(&self) -> (a: u64) {
        self.address
    }
}

} // verus!
