//! The trade route manager of a session.
use vstd::prelude::*;

use crate::api::AnnoPtr;
use crate::memory::{MemoryImage, ReadError};
use crate::api::hash_map::HashMapPtr;

verus! {

/// The manager of the trade routes of a session.
pub struct SessionTradeRouteManagerPtr {
    pub address: u64,
}

impl SessionTradeRouteManagerPtr {
    /// The map of the session's trade routes.
    pub fn get_hashmap(&self, mem: &MemoryImage) -> (r: Result<HashMapPtr, ReadError>)
        ensures
            r == match mem.spec_read_u64(self.address + 0x88) {
                Ok(a) => Ok::<HashMapPtr, ReadError>(HashMapPtr { address: a }),
                Err(e) => Err::<HashMapPtr, ReadError>(e),
            },
    {
        let a = mem.read_u64(self.address, 0x88)?;
        Ok(HashMapPtr { address: a })
    }
}

impl AnnoPtr for SessionTradeRouteManagerPtr {
    open spec fn spec_address(&self) -> u64 {
        self.address
    }

    fn new(address: u64) -> (r: Self) {
        SessionTradeRouteManagerPtr { address }
    }

    fn get_address(&self) -> (a: u64) {
        self.address
    }
}

} // verus!
