//! A production building, as an earlier layout of the game named it.
use vstd::prelude::*;

use crate::api::AnnoPtr;
use crate::memory::{MemoryImage, ReadError};
use crate::api::class32::Class32;
use crate::api::array_list::{read_span, span_fits, span_read};

verus! {

/// A production building.
pub struct Class4 {
    pub address: u64,
}

impl Class4 {
    /// The object at `address`.
    pub fn new(address: u64) -> (r: Self)
        ensures
            r.address == address,
    {
        Class4 { address }
    }

    /// The object's virtual table.
    pub fn get_vtable(&self, mem: &MemoryImage) -> (r: Result<u64, ReadError>)
        ensures
            r == mem.spec_read_u64(self.address + 0x0000),
    {
        mem.read_u64(self.address, 0x0000)
    }

    /// The address of the first input.
    pub fn get_first_input(&self, mem: &MemoryImage) -> (r: Result<u64, ReadError>)
        ensures
            r == mem.spec_read_u64(self.address + 0x0148),
    {
        mem.read_u64(self.address, 0x0148)
    }

    /// The address just past the last input.
    pub fn get_last_input(&self, mem: &MemoryImage) -> (r: Result<u64, ReadError>)
        ensures
            r == mem.spec_read_u64(self.address + 0x0150),
    {
        mem.read_u64(self.address, 0x0150)
    }

    /// The word at offset `0x16c`.
    pub fn get_16c(&self, mem: &MemoryImage) -> (r: Result<u32, ReadError>)
        ensures
            r == mem.spec_read_u32(self.address + 0x016c),
    {
        mem.read_u32(self.address, 0x016c)
    }

    /// The building's type.
    pub fn get_type(&self, mem: &MemoryImage) -> (r: Result<u32, ReadError>)
        ensures
            r == mem.spec_read_u32(self.address + 0x0168),
    {
        mem.read_u32(self.address, 0x0168)
    }

    /// The potential productivity factor (an `f32`, given as its raw bits)
    pub fn get_potential_productivity_factor_bits(&self, mem: &MemoryImage) -> (r: Result<u32, ReadError>)
        ensures
            r == mem.spec_read_u32(self.address + 0x01f0),
    {
        mem.read_u32(self.address, 0x01f0)
    }

    /// The current productivity factor (an `f32`, given as its raw bits)
    pub fn get_current_productivity_factor_bits(&self, mem: &MemoryImage) -> (r: Result<u32, ReadError>)
        ensures
            r == mem.spec_read_u32(self.address + 0x01f4),
    {
        mem.read_u32(self.address, 0x01f4)
    }

    /// The production cycle, in milliseconds.
    pub fn get_millis_per_cycle(&self, mem: &MemoryImage) -> (r: Result<u64, ReadError>)
        ensures
            r == mem.spec_read_u64(self.address + 0x01f8),
    {
        mem.read_u64(self.address, 0x01f8)
    }

    /// The inputs, eight bytes apart from the first up to the end.
    pub fn get_inputs(&self, mem: &MemoryImage) -> (r: Result<Vec<Class32>, ReadError>)
        requires
            span_fits(mem, self.address + 0x0148, self.address + 0x0150, 8),
        ensures
            span_read(mem, self.address + 0x0148, self.address + 0x0150, 8, r),
    {
        read_span(mem, self.address, 0x0148, 0x0150, 8)
    }
}

impl AnnoPtr for Class4 {
    open spec fn spec_address(&self) -> u64 {
        self.address
    }

    fn new(address: u64) -> (r: Self) {
        Class4 { address }
    }

    fn get_address(&self) -> (a: u64) {
        self.address
    }
}

} // verus!
