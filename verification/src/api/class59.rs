//! An object that holds an island area's name.
use vstd::prelude::*;

use crate::api::AnnoPtr;
use crate::memory::{MemoryImage, ReadError};
use crate::api::string_buffer::StringBufferPtr;

verus! {

/// An object that holds the name of an island area.
pub struct Class59Ptr {
    pub address: u64,
}

impl Class59Ptr {
    /// The area's name buffer, embedded in the object.
    pub fn get_string_buffer(&self) -> (r: StringBufferPtr)
        requires
            self.address + 0x0120 <= u64::MAX,
        ensures
            r.address == self.address + 0x0120,
    {
        StringBufferPtr { address: self.address + 0x0120 }
    }
}

impl AnnoPtr for Class59Ptr {
    open spec fn spec_address(&self) -> u64 {
        self.address
    }

    fn new(address: u64) -> (r: Self) {
        Class59Ptr { address }
    }

    fn get_address(&self) -> (a: u64) {
        self.address
    }
}

} // verus!
