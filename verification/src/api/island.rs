//! An island.
use vstd::prelude::*;

use crate::api::AnnoPtr;
use crate::memory::{MemoryImage, ReadError};
use crate::api::string_buffer::{utf16_lossy, StringBufferPtr};

verus! {

/// What an island's name is, for contracts: the name the player gave it, or
/// the key of the game's text that names it.
pub ghost enum IslandNameView {
    Custom(Seq<char>),
    Text(u32),
}

/// How an island is named: by the name the player gave it, or, where that is
/// empty, by the game's text under this key.
#[derive(Clone, Debug, PartialEq, Eq)]
pub enum IslandName {
    Custom(String),
    Text(u32),
}

impl View for IslandName {
    type V = IslandNameView;

    open spec fn view(&self) -> IslandNameView {
        match self {
            IslandName::Custom(s) => IslandNameView::Custom(s@),
            IslandName::Text(key) => IslandNameView::Text(*key),
        }
    }
}

/// The name of the island at `island`: its custom name where that has at
/// least one code unit, else the text key of its default name.
pub open spec fn spec_island_name(mem: &MemoryImage, island: int) -> Result<IslandNameView, ReadError> {
    match mem.spec_read_u64(island + 0x0130) {
        Err(e) => Err(e),
        Ok(len) => if len > 0 {
            match (StringBufferPtr { address: (island + 0x0120) as u64 }).spec_units(mem) {
                Ok(s) => Ok(IslandNameView::Custom(utf16_lossy(s))),
                Err(e) => Err(e),
            }
        } else {
            match mem.spec_read_u32(island + 0x0140) {
                Ok(key) => Ok(IslandNameView::Text(key)),
                Err(e) => Err(e),
            }
        },
    }
}

/// An island.
pub struct IslandPtr {
    pub address: u64,
}

impl IslandPtr {
    /// The index of the island's owner.
    pub fn get_owner_index(&self, mem: &MemoryImage) -> (r: Result<u16, ReadError>)
        ensures
            r == mem.spec_read_u16(self.address + 0x004e),
    {
        mem.read_u16(self.address, 0x004e)
    }

    /// The name the player gave the island, embedded in the object.
    pub fn get_custom_name(&self) -> (r: StringBufferPtr)
        requires
            self.address + 0x0120 <= u64::MAX,
        ensures
            r.address == self.address + 0x0120,
    {
        StringBufferPtr { address: self.address + 0x0120 }
    }

    /// The text key of the island's default name.
    pub fn get_city_name_guid(&self, mem: &MemoryImage) -> (r: Result<u32, ReadError>)
        ensures
            r == mem.spec_read_u32(self.address + 0x0140),
    {
        mem.read_u32(self.address, 0x0140)
    }

    /// The island's name: the name the player gave it where that is not
    /// empty, else the key of the game's text that names it (the text itself
    /// is what the game's lookup returns, read by `Struct118::get_text`).
    pub fn get_name(&self, mem: &MemoryImage) -> (r: Result<IslandName, ReadError>)
        requires
            self.address + 0x0120 <= u64::MAX,
        ensures
            match spec_island_name(mem, self.address as int) {
                Ok(n) => r matches Ok(v) && v@ == n,
                Err(e) => r == Err::<IslandName, ReadError>(e),
            },
    {
        let custom_name = self.get_custom_name();
        if custom_name.get_len(mem)? > 0 {
            let s = custom_name.get_string(mem)?;
            Ok(IslandName::Custom(s))
        } else {
            let key = self.get_city_name_guid(mem)?;
            Ok(IslandName::Text(key))
        }
    }
}

impl AnnoPtr for IslandPtr {
    open spec fn spec_address(&self) -> u64 {
        self.address
    }

    fn new(address: u64) -> (r: Self) {
        IslandPtr { address }
    }

    fn get_address(&self) -> (a: u64) {
        self.address
    }
}

} // verus!
