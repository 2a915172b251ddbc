//! The game's text manager.
use vstd::prelude::*;

use crate::api::AnnoPtr;
use crate::memory::{MemoryImage, ReadError};
use crate::api::struct188::Struct118;

verus! {

/// The inner object of the text manager.
pub struct TextManagerInnerPtr {
    pub address: u64,
}

impl TextManagerInnerPtr {
    /// The text manager whose address the static pointer at `static_ptr` holds.
    pub fn from_static_ptr(mem: &MemoryImage, static_ptr: u64) -> (r: Result<Self, ReadError>)
        ensures
            r == match mem.spec_read_u64(static_ptr as int) {
                Ok(a) => Ok::<Self, ReadError>(TextManagerInnerPtr { address: a }),
                Err(e) => Err::<Self, ReadError>(e),
            },
    {
        let address = mem.read_u64(static_ptr, 0)?;
        Ok(TextManagerInnerPtr { address })
    }

    /// The object at `address`.
    pub fn new(address: u64) -> (r: Self)
        ensures
            r.address == address,
    {
        TextManagerInnerPtr { address }
    }

    /// The text table, embedded in the manager.
    pub fn get_struct_118(&self) -> (r: Struct118)
        requires
            self.address + 0x28 <= u64::MAX,
        ensures
            r.address == self.address + 0x28,
    {
        Struct118 { address: self.address + 0x28 }
    }
}

impl AnnoPtr for TextManagerInnerPtr {
    open spec fn spec_address(&self) -> u64 {
        self.address
    }

    fn new(address: u64) -> (r: Self) {
        TextManagerInnerPtr { address }
    }

    fn get_address(&self) -> (a: u64) {
        self.address
    }
}

} // verus!
