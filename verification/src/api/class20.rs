//! An entry of an island's building index, told apart by its virtual table.
use vstd::prelude::*;

use crate::api::array_list::{read_span, read_span_deref, span_deref_read, span_fits, span_read};
use crate::api::AnnoPtr;
use crate::memory::{MemoryImage, ReadError};

verus! {

/// Where the virtual table of a production list lies in the game's module.
pub const CLASS20_1_VTABLE_OFFSET: u64 = 0x510E550;

/// An entry of a building index: a production list, or an object of another
/// kind.
#[derive(Clone, Copy, Debug, PartialEq, Eq, Structural)]
pub enum Class20 {
    Class20_1Ptr(Class20_1Ptr),
    Unknown(u64),
}

/// A production list.
#[derive(Clone, Copy, Debug, PartialEq, Eq, Structural)]
pub struct Class20_1Ptr {
    pub address: u64,
}

/// The entry at `address` whose virtual table is `vtable`, when the game's
/// module is loaded at `module_base`: a production list when the table lies
/// `CLASS20_1_VTABLE_OFFSET` past the base (the difference taken modulo 2^64).
pub open spec fn classify(address: u64, vtable: u64, module_base: u64) -> Class20 {
    if vtable.wrapping_sub(module_base) == CLASS20_1_VTABLE_OFFSET {
        Class20::Class20_1Ptr(Class20_1Ptr { address })
    } else {
        Class20::Unknown(address)
    }
}

impl Class20 {
    /// Reading the virtual table at `address` and telling the entry apart.
    pub open spec fn spec_new(mem: &MemoryImage, address: u64, module_base: u64) -> Result<Class20, ReadError> {
        match mem.spec_read_u64(address as int) {
            Err(e) => Err(e),
            Ok(vtable) => Ok(classify(address, vtable, module_base)),
        }
    }

    /// The entry at `address`, told apart by its virtual table.
    pub fn new(mem: &MemoryImage, address: u64, module_base: u64) -> (r: Result<Class20, ReadError>)
        ensures
            r == Class20::spec_new(mem, address, module_base),
    {
        let vtable_address = mem.read_u64(address, 0)?;
        let vtable_offset = vtable_address.wrapping_sub(module_base);
        if vtable_offset == CLASS20_1_VTABLE_OFFSET {
            Ok(Class20::Class20_1Ptr(Class20_1Ptr { address }))
        } else {
            Ok(Class20::Unknown(address))
        }
    }
}

impl Class20_1Ptr {
    /// The production list at `address`.
    pub fn new(address: u64) -> (r: Self)
        ensures
            r.address == address,
    {
        Class20_1Ptr { address }
    }

    /// The object's virtual table.
    pub fn get_vtable(&self, mem: &MemoryImage) -> (r: Result<u64, ReadError>)
        ensures
            r == mem.spec_read_u64(self.address + 0x0000),
    {
        mem.read_u64(self.address, 0x0000)
    }
}

impl Class20_1Ptr {
    /// The addresses of the words of the list at offset `0x28`, each of which
    /// holds the address of a production.
    pub fn get_production_building_list(&self, mem: &MemoryImage) -> (r: Result<Vec<u64>, ReadError>)
        requires
            span_fits(mem, self.address + 0x28, self.address + 0x30, 8),
        ensures
            span_read(mem, self.address + 0x28, self.address + 0x30, 8, r),
    {
        read_span(mem, self.address, 0x28, 0x30, 8)
    }

    /// The addresses of the productions: the words the list at offset `0x28`
    /// holds.
    pub fn get_productions(&self, mem: &MemoryImage) -> (r: Result<Vec<u64>, ReadError>)
        requires
            span_fits(mem, self.address + 0x28, self.address + 0x30, 8),
        ensures
            span_deref_read(mem, self.address + 0x28, self.address + 0x30, r),
    {
        read_span_deref(mem, self.address, 0x28, 0x30)
    }
}

impl AnnoPtr for Class20_1Ptr {
    open spec fn spec_address(&self) -> u64 {
        self.address
    }

    fn new(address: u64) -> (r: Self) {
        Class20_1Ptr { address }
    }

    fn get_address(&self) -> (a: u64) {
        self.address
    }
}

} // verus!
