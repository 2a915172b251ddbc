//! The manager of the trade contracts.
use vstd::prelude::*;

use crate::api::AnnoPtr;
use crate::memory::{MemoryImage, ReadError};

verus! {

/// The manager of all trade contracts.
pub struct TradeContractManagerPtr {
    pub address: u64,
}

impl TradeContractManagerPtr {
    /// The contract manager whose address the static pointer at `static_ptr` holds.
    pub fn from_static_ptr(mem: &MemoryImage, static_ptr: u64) -> (r: Result<Self, ReadError>)
        ensures
            r == match mem.spec_read_u64(static_ptr as int) {
                Ok(a) => Ok::<Self, ReadError>(TradeContractManagerPtr { address: a }),
                Err(e) => Err::<Self, ReadError>(e),
            },
    {
        let address = mem.read_u64(static_ptr, 0)?;
        Ok(TradeContractManagerPtr { address })
    }

    /// The object at `address`.
    pub fn new(address: u64) -> (r: Self)
        ensures
            r.address == address,
    {
        TradeContractManagerPtr { address }
    }
}

impl AnnoPtr for TradeContractManagerPtr {
    open spec fn spec_address(&self) -> u64 {
        self.address
    }

    fn new(address: u64) -> (r: Self) {
        TradeContractManagerPtr { address }
    }

    fn get_address(&self) -> (a: u64) {
        self.address
    }
}

} // verus!
