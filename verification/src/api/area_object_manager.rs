//! The manager of an island's area objects.
use vstd::prelude::*;

use crate::api::AnnoPtr;
use crate::memory::{MemoryImage, ReadError};
use crate::api::class46::Class46Ptr;
use crate::api::class59::Class59Ptr;

verus! {

/// The manager of the objects of one island area.
pub struct AreaObjectManagerPtr {
    pub address: u64,
}

impl AreaObjectManagerPtr {
    /// The object that holds the area's name buffer.
    pub fn get_class59(&self, mem: &MemoryImage) -> (r: Result<Class59Ptr, ReadError>)
        ensures
            r == match mem.spec_read_u64(self.address + 0x0038) {
                Ok(a) => Ok::<Class59Ptr, ReadError>(Class59Ptr { address: a }),
                Err(e) => Err::<Class59Ptr, ReadError>(e),
            },
    {
        let a = mem.read_u64(self.address, 0x0038)?;
        Ok(Class59Ptr { address: a })
    }

    /// The object that holds the area's building registries.
    pub fn get_class46(&self, mem: &MemoryImage) -> (r: Result<Class46Ptr, ReadError>)
        ensures
            r == match mem.spec_read_u64(self.address + 0x0548) {
                Ok(a) => Ok::<Class46Ptr, ReadError>(Class46Ptr { address: a }),
                Err(e) => Err::<Class46Ptr, ReadError>(e),
            },
    {
        let a = mem.read_u64(self.address, 0x0548)?;
        Ok(Class46Ptr { address: a })
    }
}

impl AnnoPtr for AreaObjectManagerPtr {
    open spec fn spec_address(&self) -> u64 {
        self.address
    }

    fn new(address: u64) -> (r: Self) {
        AreaObjectManagerPtr { address }
    }

    fn get_address(&self) -> (a: u64) {
        self.address
    }
}

} // verus!
