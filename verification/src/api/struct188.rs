//! The text table of the text manager.
use vstd::prelude::*;

use crate::api::AnnoPtr;
use crate::api::string_buffer::{utf16_lossy, StringBufferPtr};
use crate::memory::{MemoryImage, ReadError};

verus! {

/// The table of localised texts.
pub struct Struct118 {
    pub address: u64,
}

impl Struct118 {
    /// The object at `address`.
    pub fn new(address: u64) -> (r: Self)
        ensures
            r.address == address,
    {
        Struct118 { address }
    }

    /// The text that the game's lookup in this table handed back, as the
    /// string buffer at `text_buffer` holds it.
    pub fn get_text(&self, mem: &MemoryImage, text_buffer: u64) -> (r: Result<String, ReadError>)
        ensures
            match (StringBufferPtr { address: text_buffer }).spec_units(mem) {
                Ok(s) => r matches Ok(v) && v@ == utf16_lossy(s),
                Err(e) => r == Err::<String, ReadError>(e),
            },
    {
        let text = StringBufferPtr { address: text_buffer };
        text.get_string(mem)
    }
}

impl AnnoPtr for Struct118 {
    open spec fn spec_address(&self) -> u64 {
        self.address
    }

    fn new(address: u64) -> (r: Self) {
        Struct118 { address }
    }

    fn get_address(&self) -> (a: u64) {
        self.address
    }
}

} // verus!
